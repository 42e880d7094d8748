//! Work-item extraction from branch names.
//!
//! A branch name carries a work item exactly when it starts with one of the
//! prefixes `task/`, `pbi/`, `bug/`, `feature/` or `feat/` followed by at
//! least one ASCII digit.  Extraction yields `#` followed by the maximal
//! leading run of digits after the slash (leading zeros kept verbatim); on
//! every other branch name it yields the empty string.

use vstd::prelude::*;
use vstd::string::StrSliceExecFns;
use vstd::string::StringExecFns;

verus! {

/// True exactly when `c` is an ASCII decimal digit.
pub open spec fn is_ascii_digit(c: char) -> bool {
    '0' <= c && c <= '9'
}

/// The maximal leading run of ASCII digits of `s`.
pub open spec fn leading_digits(s: Seq<char>) -> Seq<char>
    decreases s.len(),
{
    if s.len() > 0 && is_ascii_digit(s[0]) {
        seq![s[0]] + leading_digits(s.drop_first())
    } else {
        Seq::<char>::empty()
    }
}

/// True exactly when `s` starts with the prefix `pre` (the prefix carries
/// its trailing slash) followed by at least one ASCII digit.
pub open spec fn matches_with_prefix(s: Seq<char>, pre: Seq<char>) -> bool {
    pre.len() < s.len() && s.subrange(0, pre.len() as int) == pre && is_ascii_digit(
        s[pre.len() as int],
    )
}

/// True exactly when the branch name carries a work-item number: one of the
/// recognised prefixes, a slash, then at least one ASCII digit.
pub open spec fn branch_carries_work_item(s: Seq<char>) -> bool {
    ||| matches_with_prefix(s, "task/"@)
    ||| matches_with_prefix(s, "pbi/"@)
    ||| matches_with_prefix(s, "bug/"@)
    ||| matches_with_prefix(s, "feature/"@)
    ||| matches_with_prefix(s, "feat/"@)
}

/// The work-item reference extracted from the branch name `s`: `#` followed
/// by the maximal digit run after the slash when the branch carries a work
/// item, and the empty sequence otherwise.
pub open spec fn work_item_ref(s: Seq<char>) -> Seq<char> {
    if matches_with_prefix(s, "task/"@) {
        seq!['#'] + leading_digits(s.skip("task/"@.len() as int))
    } else if matches_with_prefix(s, "pbi/"@) {
        seq!['#'] + leading_digits(s.skip("pbi/"@.len() as int))
    } else if matches_with_prefix(s, "bug/"@) {
        seq!['#'] + leading_digits(s.skip("bug/"@.len() as int))
    } else if matches_with_prefix(s, "feature/"@) {
        seq!['#'] + leading_digits(s.skip("feature/"@.len() as int))
    } else if matches_with_prefix(s, "feat/"@) {
        seq!['#'] + leading_digits(s.skip("feat/"@.len() as int))
    } else {
        Seq::<char>::empty()
    }
}

/// True exactly when `c` is an ASCII decimal digit.
pub fn is_digit(c: char) -> (r: bool)
    ensures
        r == is_ascii_digit(c),
{
    '0' <= c && c <= '9'
}

/// When the branch starts with `pre` and a digit follows, returns the
/// position of that first digit (the prefix length); otherwise nothing.
fn try_prefix(s: &str, pre: &str) -> (r: Option<usize>)
    ensures
        match r {
            Some(k) => matches_with_prefix(s@, pre@) && k == pre@.len(),
            None => !matches_with_prefix(s@, pre@),
        },
{
    let s_len: usize = s.unicode_len();
    let pre_len: usize = pre.unicode_len();
    if crate::text::str_has_prefix(s, pre) && pre_len < s_len {
        if is_digit(s.get_char(pre_len)) {
            Some(pre_len)
        } else {
            None
        }
    } else {
        None
    }
}

/// The maximal leading digit run is exactly the scanned range: when every
/// character before `m` is a digit and the one at `m` (if any) is not, the
/// leading digits of `s` are its first `m` characters.
proof fn lemma_leading_digits_at(s: Seq<char>, m: int)
    requires
        0 <= m <= s.len(),
        forall|k: int| 0 <= k < m ==> is_ascii_digit(s[k]),
        m < s.len() ==> !is_ascii_digit(s[m]),
    ensures
        leading_digits(s) == s.subrange(0, m),
    decreases m,
{
    if m == 0 {
        assert(s.subrange(0, 0) =~= Seq::<char>::empty());
    } else {
        lemma_leading_digits_at(s.drop_first(), m - 1);
        assert(seq![s[0]] + s.drop_first().subrange(0, m - 1) =~= s.subrange(0, m));
    }
}

/// Extracts the work-item reference from a branch name: `#` followed by the
/// digits after the recognised prefix, or the empty string when the branch
/// name carries no work item.
pub fn create_task_number_string(branch_name: &str) -> (r: String)
    ensures
        r@ == work_item_ref(branch_name@),
{
    let start_opt: Option<usize> = if let Some(k) = try_prefix(branch_name, "task/") {
        Some(k)
    } else if let Some(k) = try_prefix(branch_name, "pbi/") {
        Some(k)
    } else if let Some(k) = try_prefix(branch_name, "bug/") {
        Some(k)
    } else if let Some(k) = try_prefix(branch_name, "feature/") {
        Some(k)
    } else if let Some(k) = try_prefix(branch_name, "feat/") {
        Some(k)
    } else {
        None
    };
    match start_opt {
        None => String::new(),
        Some(start) => {
            let ghost s = branch_name@;
            let n: usize = branch_name.unicode_len();
            let mut j: usize = start;
            while j < n && is_digit(branch_name.get_char(j))
                invariant
                    s == branch_name@,
                    n == s.len(),
                    start <= j <= n,
                    forall|k: int| start <= k < j ==> is_ascii_digit(s[k]),
                decreases n - j,
            {
                j = j + 1;
            }
            let digits = branch_name.substring_char(start, j);
            let mut r = String::from_str("#");
            r.append(digits);
            proof {
                let suffix = s.skip(start as int);
                assert(forall|k: int|
                    0 <= k < j - start ==> is_ascii_digit(#[trigger] suffix[k]) == is_ascii_digit(
                        s[k + start],
                    ));
                lemma_leading_digits_at(suffix, j - start);
                assert(suffix.subrange(0, j - start) =~= s.subrange(start as int, j as int));
                reveal_strlit("#");
                assert("#"@ =~= seq!['#']);
                assert(work_item_ref(s) == seq!['#'] + leading_digits(suffix));
            }
            r
        },
    }
}

/// True exactly when `pre` is one of the recognised work-item prefixes,
/// carrying its trailing slash.
pub open spec fn is_work_item_prefix(pre: Seq<char>) -> bool {
    ||| pre == "task/"@
    ||| pre == "pbi/"@
    ||| pre == "bug/"@
    ||| pre == "feature/"@
    ||| pre == "feat/"@
}

/// At most one recognised prefix can start a given branch name: the five
/// prefixes conflict pairwise in their first character, or, for `feature/`
/// against `feat/`, in the character after `feat`.
proof fn lemma_prefixes_exclusive(s: Seq<char>, p: Seq<char>, q: Seq<char>)
    requires
        is_work_item_prefix(p),
        is_work_item_prefix(q),
        p != q,
        matches_with_prefix(s, p),
    ensures
        !matches_with_prefix(s, q),
{
    reveal_strlit("task/");
    reveal_strlit("pbi/");
    reveal_strlit("bug/");
    reveal_strlit("feature/");
    reveal_strlit("feat/");
    if matches_with_prefix(s, q) {
        assert(forall|k: int|
            0 <= k < p.len() ==> s[k] == #[trigger] p[k]) by {
            assert(forall|k: int|
                0 <= k < p.len() ==> #[trigger] s.subrange(0, p.len() as int)[k] == s[k]);
        }
        assert(forall|k: int|
            0 <= k < q.len() ==> s[k] == #[trigger] q[k]) by {
            assert(forall|k: int|
                0 <= k < q.len() ==> #[trigger] s.subrange(0, q.len() as int)[k] == s[k]);
        }
        assert(s[0] == p[0] && s[0] == q[0]);
        assert(p.len() > 4 && q.len() > 4 ==> s[4] == p[4] && s[4] == q[4]);
        assert(false);
    }
}

/// Law: a branch name of the form prefix + digits + rest — a recognised
/// prefix with its slash, a non-empty run of ASCII digits, and a rest that
/// does not start with a digit — yields exactly `#` followed by those
/// digits, leading zeros kept verbatim.
pub proof fn lemma_extraction_on_match(pre: Seq<char>, digits: Seq<char>, rest: Seq<char>)
    requires
        is_work_item_prefix(pre),
        digits.len() > 0,
        forall|k: int| 0 <= k < digits.len() ==> is_ascii_digit(digits[k]),
        rest.len() > 0 ==> !is_ascii_digit(rest[0]),
    ensures
        work_item_ref(pre + digits + rest) == seq!['#'] + digits,
{
    let s = pre + digits + rest;
    assert(s.subrange(0, pre.len() as int) =~= pre);
    assert(s[pre.len() as int] == digits[0]);
    assert(matches_with_prefix(s, pre));
    if pre != "task/"@ {
        lemma_prefixes_exclusive(s, pre, "task/"@);
    }
    if pre != "pbi/"@ {
        lemma_prefixes_exclusive(s, pre, "pbi/"@);
    }
    if pre != "bug/"@ {
        lemma_prefixes_exclusive(s, pre, "bug/"@);
    }
    if pre != "feature/"@ {
        lemma_prefixes_exclusive(s, pre, "feature/"@);
    }
    if pre != "feat/"@ {
        lemma_prefixes_exclusive(s, pre, "feat/"@);
    }
    let suffix = s.skip(pre.len() as int);
    assert(suffix =~= digits + rest);
    lemma_leading_digits_at(digits + rest, digits.len() as int);
    assert((digits + rest).subrange(0, digits.len() as int) =~= digits);
}

/// Law: a branch name carries a work item exactly when it splits as a
/// recognised prefix followed by a non-empty run of ASCII digits and an
/// arbitrary remainder.
pub proof fn lemma_match_characterization(s: Seq<char>)
    ensures
        branch_carries_work_item(s) <==> exists|pre: Seq<char>, digits: Seq<char>, rest: Seq<char>|
            {
                &&& is_work_item_prefix(pre)
                &&& digits.len() > 0
                &&& (forall|k: int| 0 <= k < digits.len() ==> is_ascii_digit(digits[k]))
                &&& s == pre + digits + rest
            },
{
    if branch_carries_work_item(s) {
        let pre = choose|pre: Seq<char>| is_work_item_prefix(pre) && matches_with_prefix(s, pre);
        assert(is_work_item_prefix(pre) && matches_with_prefix(s, pre)) by {
            if matches_with_prefix(s, "task/"@) {
                assert(is_work_item_prefix("task/"@) && matches_with_prefix(s, "task/"@));
            } else if matches_with_prefix(s, "pbi/"@) {
                assert(is_work_item_prefix("pbi/"@) && matches_with_prefix(s, "pbi/"@));
            } else if matches_with_prefix(s, "bug/"@) {
                assert(is_work_item_prefix("bug/"@) && matches_with_prefix(s, "bug/"@));
            } else if matches_with_prefix(s, "feature/"@) {
                assert(is_work_item_prefix("feature/"@) && matches_with_prefix(s, "feature/"@));
            } else {
                assert(is_work_item_prefix("feat/"@) && matches_with_prefix(s, "feat/"@));
            }
        }
        let digits = seq![s[pre.len() as int]];
        let rest = s.skip(pre.len() as int + 1);
        assert(s =~= pre + digits + rest);
        assert(is_work_item_prefix(pre) && digits.len() > 0 && (forall|k: int|
            0 <= k < digits.len() ==> is_ascii_digit(digits[k])) && s == pre + digits + rest);
    }
    if exists|pre: Seq<char>, digits: Seq<char>, rest: Seq<char>|
        {
            &&& is_work_item_prefix(pre)
            &&& digits.len() > 0
            &&& (forall|k: int| 0 <= k < digits.len() ==> is_ascii_digit(digits[k]))
            &&& s == pre + digits + rest
        } {
        let (pre, digits, rest) = choose|pre: Seq<char>, digits: Seq<char>, rest: Seq<char>|
            {
                &&& is_work_item_prefix(pre)
                &&& digits.len() > 0
                &&& (forall|k: int| 0 <= k < digits.len() ==> is_ascii_digit(digits[k]))
                &&& s == pre + digits + rest
            };
        assert(s.subrange(0, pre.len() as int) =~= pre);
        assert(s[pre.len() as int] == digits[0]);
        assert(matches_with_prefix(s, pre));
    }
}

/// Law: a branch name that carries no work item (wrong prefix, no digit
/// after the slash, or no slash at all) yields the empty reference.
pub proof fn lemma_extraction_on_no_match(s: Seq<char>)
    requires
        !branch_carries_work_item(s),
    ensures
        work_item_ref(s) == Seq::<char>::empty(),
{
}

} // verus!
