//! Interpretation of the version-control branch queries.
//!
//! The hook asks the version-control system for the abbreviated name of the
//! current branch.  That query answers with the literal sentinel `HEAD` when
//! the working tree is in a detached state; the hook then asks for the short
//! commit hash and uses the synthetic name `HEAD-<short-hash>` instead.  The
//! queries themselves run outside the library; these functions interpret
//! their raw output.

use vstd::prelude::*;
use vstd::string::StringExecFns;

use crate::text::str_eq;
use crate::text::trim_ws;
use crate::text::trimmed;

verus! {

/// Interprets the output of the current-branch query: the trimmed branch
/// name when the working tree is on a branch, and nothing when the output is
/// the detached-head sentinel `HEAD` (the caller must then resolve the short
/// commit hash and use [`detached_branch_name`]).
pub fn interpret_branch_query(raw: &str) -> (r: Option<String>)
    ensures
        match r {
            Some(name) => name@ == trimmed(raw@) && trimmed(raw@) != "HEAD"@,
            None => trimmed(raw@) == "HEAD"@,
        },
{
    let t = trim_ws(raw);
    if str_eq(t, "HEAD") {
        None
    } else {
        Some(String::from_str(t))
    }
}

/// The synthetic branch name for a detached head: `HEAD-` followed by the
/// trimmed short commit hash.
pub fn detached_branch_name(raw_hash: &str) -> (r: String)
    ensures
        r@ == "HEAD-"@ + trimmed(raw_hash@),
{
    let mut r = String::from_str("HEAD-");
    r.append(trim_ws(raw_hash));
    r
}

} // verus!
