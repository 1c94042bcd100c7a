//! String casing helpers: changing the case of the first cased character, and testing
//! whether a string is all uppercase.
use vstd::prelude::*;

use crate::text::{
    char_is_alphabetic, char_is_lowercase, char_is_uppercase, chars_of, copy_str, is_alphabetic,
    is_lowercase, is_uppercase, str_eq, str_lower, str_upper, string_of_range, to_lowercase,
    to_uppercase,
};

verus! {

/// Whether `c` is alphabetic and has a case (it is lowercase or uppercase).
pub open spec fn is_cased(c: char) -> bool {
    char_is_alphabetic(c) && (char_is_lowercase(c) || char_is_uppercase(c))
}

/// The index of the first cased character of `s`, or the length of `s` when there is none.
pub open spec fn first_cased_index(s: Seq<char>) -> nat
    decreases s.len(),
{
    if s.len() == 0 {
        0
    } else if is_cased(s[0]) {
        0
    } else {
        1 + first_cased_index(s.drop_first())
    }
}

/// `s` with everything up to and including its first cased character uppercased; `s`
/// itself when it has no cased character.
pub open spec fn spec_first_uppercased(s: Seq<char>) -> Seq<char> {
    let k = first_cased_index(s) as int;
    if k == s.len() {
        s
    } else {
        str_upper(s.take(k + 1 as int)) + s.skip(k + 1 as int)
    }
}

/// `s` with everything up to and including its first cased character lowercased; `s`
/// itself when it has no cased character.
pub open spec fn spec_first_lowercased(s: Seq<char>) -> Seq<char> {
    let k = first_cased_index(s) as int;
    if k == s.len() {
        s
    } else {
        str_lower(s.take(k + 1 as int)) + s.skip(k + 1 as int)
    }
}

/// Whether `s` equals its uppercased form.
pub open spec fn spec_is_all_uppercased(s: Seq<char>) -> bool {
    s == str_upper(s)
}

/// `first_cased_index` is the position of the first cased character, or the length.
pub proof fn lemma_first_cased_index(s: Seq<char>, k: int)
    requires
        0 <= k <= s.len(),
        forall|j: int| 0 <= j < k ==> !is_cased(#[trigger] s[j]),
        k < s.len() ==> is_cased(s[k]),
    ensures
        first_cased_index(s) == k,
    decreases k,
{
    if k > 0 {
        let t = s.drop_first();
        assert(!is_cased(s[0]));
        assert forall|j: int| 0 <= j < k - 1 implies !is_cased(#[trigger] t[j]) by {
            assert(t[j] == s[j + 1]);
        }
        if k - 1 < t.len() {
            assert(t[k - 1] == s[k]);
        }
        lemma_first_cased_index(t, k - 1);
    }
}

/// `first_cased_index` never exceeds the length, and it names a cased character when
/// it is below the length, with no cased character before it.
pub proof fn lemma_first_cased_index_props(s: Seq<char>)
    ensures
        first_cased_index(s) <= s.len(),
        first_cased_index(s) < s.len() ==> is_cased(s[first_cased_index(s) as int]),
        forall|j: int| 0 <= j < first_cased_index(s) ==> !is_cased(#[trigger] s[j]),
    decreases s.len(),
{
    if s.len() > 0 && !is_cased(s[0]) {
        let t = s.drop_first();
        lemma_first_cased_index_props(t);
        assert forall|j: int| 0 <= j < first_cased_index(s) implies !is_cased(#[trigger] s[j]) by {
            if j > 0 {
                assert(s[j] == t[j - 1]);
            }
        }
        if first_cased_index(s) < s.len() {
            assert(s[first_cased_index(s) as int] == t[first_cased_index(t) as int]);
        }
    }
}

/// The index of the first cased character of `v`, or its length.
fn find_first_cased(v: &Vec<char>) -> (k: usize)
    ensures
        k == first_cased_index(v@),
        k <= v.len(),
{
    let mut i: usize = 0;
    while i < v.len()
        invariant
            i <= v.len(),
            forall|j: int| 0 <= j < i ==> !is_cased(#[trigger] v@[j]),
        ensures
            i <= v.len(),
            forall|j: int| 0 <= j < i ==> !is_cased(#[trigger] v@[j]),
            i < v.len() ==> is_cased(v@[i as int]),
        decreases v.len() - i,
    {
        let c = v[i];
        if is_alphabetic(c) && (is_lowercase(c) || is_uppercase(c)) {
            break;
        }
        i = i + 1;
    }
    proof {
        lemma_first_cased_index(v@, i as int);
    }
    i
}

/// Returns the string with the first cased character uppercased.
///
/// Finds the first character that is alphabetic and has case, uppercases the string up
/// to and including it, and appends the remainder unchanged.  A string without a cased
/// character is returned unchanged.
pub fn first_uppercased(s: &str) -> (r: String)
    ensures
        r@ == spec_first_uppercased(s@),
{
    let v = chars_of(s);
    let k = find_first_cased(&v);
    if k == v.len() {
        return copy_str(s);
    }
    let prefix = string_of_range(&v, 0, k + 1);
    let mut r = to_uppercase(prefix.as_str());
    let rest = string_of_range(&v, k + 1, v.len());
    r.append(rest.as_str());
    proof {
        assert(v@.subrange(0, k + 1) =~= s@.take(k + 1));
        assert(v@.subrange(k + 1, v@.len() as int) =~= s@.skip(k + 1));
    }
    r
}

/// Returns the string with the first cased character lowercased.
///
/// Finds the first character that is alphabetic and has case, lowercases the string up
/// to and including it, and appends the remainder unchanged.  A string without a cased
/// character is returned unchanged.
pub fn first_lowercased(s: &str) -> (r: String)
    ensures
        r@ == spec_first_lowercased(s@),
{
    let v = chars_of(s);
    let k = find_first_cased(&v);
    if k == v.len() {
        return copy_str(s);
    }
    let prefix = string_of_range(&v, 0, k + 1);
    let mut r = to_lowercase(prefix.as_str());
    let rest = string_of_range(&v, k + 1, v.len());
    r.append(rest.as_str());
    proof {
        assert(v@.subrange(0, k + 1) =~= s@.take(k + 1));
        assert(v@.subrange(k + 1, v@.len() as int) =~= s@.skip(k + 1));
    }
    r
}

/// Returns `true` if the string is equal to its uppercased form.
pub fn is_all_uppercased(s: &str) -> (r: bool)
    ensures
        r == spec_is_all_uppercased(s@),
{
    let upper = to_uppercase(s);
    str_eq(s, upper.as_str())
}

/// A string without a cased character is left as it is by `first_uppercased` and
/// `first_lowercased`.
pub proof fn law_uncased_strings_unchanged(s: Seq<char>)
    requires
        forall|i: int| 0 <= i < s.len() ==> !is_cased(#[trigger] s[i]),
    ensures
        spec_first_uppercased(s) == s,
        spec_first_lowercased(s) == s,
{
    lemma_first_cased_index(s, s.len() as int);
}

} // verus!
