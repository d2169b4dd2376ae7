//! Format detection from a filename: the characters after the last '.',
//! uppercased, or "unknown" when the name has no '.'. A filename heuristic
//! only: the file's contents are never inspected, so a mislabeled file yields
//! a wrong (but accepted) label.

use vstd::prelude::*;
use vstd::string::{StringExecFns, StrSliceExecFns};

verus! {

/// The index of the last '.' in `s`, or -1 when `s` has none.
pub open spec fn last_dot(s: Seq<char>) -> int
    decreases s.len(),
{
    if s.len() == 0 {
        -1
    } else if s[s.len() - 1] == '.' {
        s.len() - 1
    } else {
        last_dot(s.take(s.len() - 1))
    }
}

/// `last_dot` names the last '.': it is a dot, and no dot follows it; -1 means
/// no dot at all.
pub proof fn lemma_last_dot(s: Seq<char>)
    ensures
        last_dot(s) == -1 ==> forall|i: int| 0 <= i < s.len() ==> s[i] != '.',
        last_dot(s) != -1 ==> 0 <= last_dot(s) < s.len() && s[last_dot(s)] == '.' && forall|i: int|
            last_dot(s) < i < s.len() ==> s[i] != '.',
    decreases s.len(),
{
    if s.len() == 0 {
    } else if s[s.len() - 1] == '.' {
    } else {
        let t = s.take(s.len() - 1);
        lemma_last_dot(t);
        assert(forall|i: int| 0 <= i < t.len() ==> t[i] == s[i]);
    }
}

/// The Unicode uppercase mapping of a character sequence, as
/// `str::to_uppercase` computes it.
pub uninterp spec fn upper_of(s: Seq<char>) -> Seq<char>;

/// Relies on str::to_uppercase: the Unicode uppercase equivalent of the
/// string, a function of its characters alone; an empty string stays empty.
#[verifier::external_body]
fn to_upper(s: &str) -> (r: String)
    ensures
        r@ == upper_of(s@),
        s@.len() == 0 ==> r@.len() == 0,
{
    s.to_uppercase()
}

/// The format label reported for a filename.
pub open spec fn spec_format_label(name: Seq<char>) -> Seq<char> {
    if last_dot(name) == -1 {
        seq!['u', 'n', 'k', 'n', 'o', 'w', 'n']
    } else {
        upper_of(name.subrange(last_dot(name) + 1, name.len() as int))
    }
}

fn find_last_dot(s: &str) -> (r: Option<usize>)
    ensures
        match r {
            Some(j) => j == last_dot(s@) && j < s@.len(),
            None => last_dot(s@) == -1,
        },
{
    let len = s.unicode_len();
    let mut i = len;
    while i > 0
        invariant
            i <= len,
            len == s@.len(),
            forall|j: int| i <= j < len ==> s@[j] != '.',
        decreases i,
    {
        if s.get_char(i - 1) == '.' {
            proof {
                lemma_last_dot(s@);
            }
            return Some(i - 1);
        }
        i = i - 1;
    }
    proof {
        lemma_last_dot(s@);
    }
    None
}

/// The uppercased extension of `filename` (everything after its last '.'), or
/// "unknown" when it has no '.'.
pub fn get_file_format(filename: &str) -> (r: String)
    ensures
        r@ == spec_format_label(filename@),
{
    match find_last_dot(filename) {
        Some(j) => {
            let len = filename.unicode_len();
            let ext = filename.substring_char(j + 1, len);
            to_upper(ext)
        },
        None => {
            let r = String::from_str("unknown");
            proof {
                reveal_strlit("unknown");
                assert(r@ =~= seq!['u', 'n', 'k', 'n', 'o', 'w', 'n']);
            }
            r
        },
    }
}

} // verus!
