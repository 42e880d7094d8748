//! Commit-message rewriting and the decision of whether an invocation
//! rewrites at all.
//!
//! The hook rewrites the commit message when it is invoked without a commit
//! source, or with the `message` source (an inline `-m` commit).  Every other
//! source (`merge`, `squash`, `commit`, `template`, ...) leaves the message
//! untouched.  A rewrite appends the branch's work-item reference to the
//! original content, byte for byte, with no separator of its own.

use vstd::prelude::*;
use vstd::string::StringExecFns;

use crate::extract::branch_carries_work_item;
use crate::extract::create_task_number_string;
use crate::extract::is_ascii_digit;
use crate::extract::is_work_item_prefix;
use crate::extract::lemma_extraction_on_match;
use crate::extract::work_item_ref;

verus! {

/// The rewritten commit message: the original content with the branch's
/// work-item reference appended.
pub open spec fn rewritten_message(original: Seq<char>, branch: Seq<char>) -> Seq<char> {
    original + work_item_ref(branch)
}

/// True exactly when an invocation with this commit source rewrites the
/// message: the source is absent, or it is the literal tag `message`.
pub open spec fn rewrite_applies(source: Option<&str>) -> bool {
    match source {
        None => true,
        Some(s) => s@ == "message"@,
    }
}

/// The content the hook leaves in the commit-message file: the rewritten
/// message when the invocation shape calls for a rewrite, the original
/// content untouched otherwise.
pub open spec fn hook_result(original: Seq<char>, branch: Seq<char>, source: Option<&str>) -> Seq<
    char,
> {
    if rewrite_applies(source) {
        rewritten_message(original, branch)
    } else {
        original
    }
}

/// Rewrites a commit message for the given branch: the original content with
/// the extracted work-item reference appended.  On a branch that carries no
/// work item the content comes back unchanged.
pub fn rewrite_message(original: &str, branch_name: &str) -> (r: String)
    ensures
        r@ == rewritten_message(original@, branch_name@),
        !branch_carries_work_item(branch_name@) ==> r@ == original@,
{
    let reference = create_task_number_string(branch_name);
    let mut r = String::from_str(original);
    r.append(reference.as_str());
    proof {
        if !branch_carries_work_item(branch_name@) {
            assert(original@ + work_item_ref(branch_name@) =~= original@);
        }
    }
    r
}

/// True exactly when this invocation rewrites the message: no commit source,
/// or the `message` source.
pub fn should_rewrite(commit_source: Option<&str>) -> (r: bool)
    ensures
        r == rewrite_applies(commit_source),
{
    match commit_source {
        None => true,
        Some(s) => crate::text::str_eq(s, "message"),
    }
}

/// The message content after one full hook invocation: rewritten when the
/// commit source calls for it, the original otherwise.
pub fn updated_message(original: &str, branch_name: &str, commit_source: Option<&str>) -> (r:
    String)
    ensures
        r@ == hook_result(original@, branch_name@, commit_source),
{
    if should_rewrite(commit_source) {
        rewrite_message(original, branch_name)
    } else {
        String::from_str(original)
    }
}

/// Law: on a branch that carries no work item, rewriting leaves the message
/// content unchanged.
pub proof fn lemma_rewrite_nonmatching_identity(original: Seq<char>, branch: Seq<char>)
    requires
        !branch_carries_work_item(branch),
    ensures
        rewritten_message(original, branch) == original,
{
    assert(original + work_item_ref(branch) =~= original);
}

/// Law: on a branch of the form prefix + digits + rest (a recognised prefix
/// with its slash, a non-empty digit run, and a rest that does not start
/// with a digit), the rewritten message is exactly the original content
/// followed by `#` and those digits, with no separator added.
pub proof fn lemma_rewrite_appends_reference(
    original: Seq<char>,
    pre: Seq<char>,
    digits: Seq<char>,
    rest: Seq<char>,
)
    requires
        is_work_item_prefix(pre),
        digits.len() > 0,
        forall|k: int| 0 <= k < digits.len() ==> is_ascii_digit(digits[k]),
        rest.len() > 0 ==> !is_ascii_digit(rest[0]),
    ensures
        rewritten_message(original, pre + digits + rest) == original + seq!['#'] + digits,
{
    lemma_extraction_on_match(pre, digits, rest);
    assert(original + (seq!['#'] + digits) =~= original + seq!['#'] + digits);
}

/// Law: when a commit source is present and is not the `message` tag, the
/// hook leaves the message content untouched, whatever the branch.
pub proof fn lemma_skip_leaves_message(original: Seq<char>, branch: Seq<char>, source: &str)
    requires
        source@ != "message"@,
    ensures
        hook_result(original, branch, Some(source)) == original,
{
}

} // verus!
