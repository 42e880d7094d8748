//! Library for a git `prepare-commit-msg` hook.
//!
//! The hook inspects the name of the currently checked-out branch, extracts a
//! work-item number from branch names of the form `task/123-description`
//! (also `pbi/`, `bug/`, `feature/`, `feat/`), and appends a reference such as
//! `#123` to the commit message.  This crate holds the verified logic: the
//! branch-name grammar and extraction, the message rewrite, the
//! interpretation of the version-control queries, and the dispatch that
//! decides, from the hook's arguments, whether the message is rewritten at
//! all.  The surrounding process work (running git, reading and writing the
//! message file, delegating to a pre-existing hook) lives outside the
//! library and hands it plain strings.

pub mod branch;
pub mod dispatch;
pub mod extract;
pub mod message;
pub mod text;

pub use branch::detached_branch_name;
pub use branch::interpret_branch_query;
pub use dispatch::plan_invocation;
pub use extract::create_task_number_string;
pub use message::rewrite_message;
pub use message::should_rewrite;
pub use message::updated_message;
