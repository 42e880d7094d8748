//! Invocation-shape dispatch and hook-delegation helpers.
//!
//! A hook run receives the path of the commit-message file and, sometimes, a
//! commit-source tag.  Together with the outcome of branch resolution these
//! determine what the run does: rewrite the message and delegate to a
//! pre-existing local hook, leave everything untouched, or fail with a
//! distinct exit code.

use vstd::prelude::*;
use vstd::string::StringExecFns;

use crate::message::rewrite_applies;
use crate::text::trim_ws;
use crate::text::trimmed;

verus! {

/// What one hook invocation is to do, decided from its arguments and from
/// whether the branch could be resolved.
#[derive(Clone, Copy, Debug, PartialEq, Eq, Structural)]
pub enum InvocationPlan {
    /// The branch could not be resolved: report it and exit.
    ReportBranchFailure,
    /// No commit-message file path was given: report it and exit.
    ReportMissingFile,
    /// Rewrite the commit message, then delegate to a pre-existing hook.
    RewriteAndDelegate,
    /// A commit source other than `message` is present: touch nothing.
    LeaveUntouched,
}

/// Decides what a hook invocation does.  Branch-resolution failure wins over
/// a missing file argument; with both in hand, the commit source decides
/// whether the message is rewritten (and the local hook run) or everything
/// is left alone.
pub fn plan_invocation(
    branch_resolved: bool,
    commit_file_given: bool,
    commit_source: Option<&str>,
) -> (p: InvocationPlan)
    ensures
        p == (if !branch_resolved {
            InvocationPlan::ReportBranchFailure
        } else if !commit_file_given {
            InvocationPlan::ReportMissingFile
        } else if rewrite_applies(commit_source) {
            InvocationPlan::RewriteAndDelegate
        } else {
            InvocationPlan::LeaveUntouched
        }),
{
    if !branch_resolved {
        InvocationPlan::ReportBranchFailure
    } else if !commit_file_given {
        InvocationPlan::ReportMissingFile
    } else if crate::message::should_rewrite(commit_source) {
        InvocationPlan::RewriteAndDelegate
    } else {
        InvocationPlan::LeaveUntouched
    }
}

/// The failure classes of a hook run.
#[derive(Clone, Copy, Debug, PartialEq, Eq, Structural)]
pub enum HookFailure {
    /// The current branch could not be resolved.
    BranchResolution,
    /// The commit-message file path was not provided.
    MissingArgument,
    /// Reading or rewriting the commit-message file failed.
    MessageRewriteIo,
    /// The pre-existing local hook could not be invoked.
    Delegation,
}

/// The process exit code of each failure class.
pub open spec fn exit_code_spec(f: HookFailure) -> u8 {
    match f {
        HookFailure::BranchResolution => 1,
        HookFailure::MissingArgument => 2,
        HookFailure::MessageRewriteIo => 2,
        HookFailure::Delegation => 3,
    }
}

/// The exit code a failed hook run ends with: 1 when the branch could not be
/// resolved, 2 for a missing argument or a rewrite I/O failure, 3 when
/// delegation to the local hook failed.
pub fn exit_code(f: &HookFailure) -> (c: u8)
    ensures
        c == exit_code_spec(*f),
{
    match f {
        HookFailure::BranchResolution => 1,
        HookFailure::MissingArgument => 2,
        HookFailure::MessageRewriteIo => 2,
        HookFailure::Delegation => 3,
    }
}

/// The path of a repository-local hook of the same name, under the
/// repository's git directory as the version-control query reports it
/// (trimmed of surrounding whitespace).
pub fn local_hook_path(git_dir_raw: &str) -> (r: String)
    ensures
        r@ == trimmed(git_dir_raw@) + "/hooks/prepare-commit-msg"@,
{
    let mut r = String::from_str(trim_ws(git_dir_raw));
    r.append("/hooks/prepare-commit-msg");
    r
}

/// True exactly when a file-permission mode has any execute bit set (owner,
/// group, or other): only then is a pre-existing local hook run.
pub fn is_executable_mode(mode: u32) -> (r: bool)
    ensures
        r == (mode & 0o111 != 0),
{
    mode & 0o111 != 0
}

} // verus!
