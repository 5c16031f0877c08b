//! Character-level predicates and comparisons on strings.

use vstd::prelude::*;
use vstd::string::StrSliceExecFns;

verus! {

/// `s` is an initial segment of `p`.
pub open spec fn is_prefix_of(s: Seq<char>, p: Seq<char>) -> bool {
    s.len() <= p.len() && p.subrange(0, s.len() as int) == s
}

/// `s` is a final segment of `p`.
pub open spec fn is_suffix_of(s: Seq<char>, p: Seq<char>) -> bool {
    s.len() <= p.len() && p.subrange(p.len() - s.len(), p.len() as int) == s
}

/// `needle` occurs contiguously somewhere inside `hay`.
pub open spec fn occurs_in(needle: Seq<char>, hay: Seq<char>) -> bool {
    exists|k: int| 0 <= k && k + needle.len() <= hay.len() && #[trigger] hay.subrange(k, k + needle.len()) == needle
}

/// Two consecutive dots occur somewhere in `p`.
pub open spec fn has_dotdot(p: Seq<char>) -> bool {
    exists|i: int| 0 <= i && i + 1 < p.len() && #[trigger] p[i] == '.' && p[i + 1] == '.'
}

/// A needle that occurs in `a` occurs in `a + b`.
pub proof fn lemma_occurs_in_concat_left(needle: Seq<char>, a: Seq<char>, b: Seq<char>)
    requires
        occurs_in(needle, a),
    ensures
        occurs_in(needle, a + b),
{
    let k = choose|k: int|
        0 <= k && k + needle.len() <= a.len() && #[trigger] a.subrange(k, k + needle.len())
            == needle;
    assert((a + b).subrange(k, k + needle.len() as int) =~= a.subrange(
        k,
        k + needle.len() as int,
    ));
}

/// A needle that occurs in `b` occurs in `a + b`.
pub proof fn lemma_occurs_in_concat_right(needle: Seq<char>, a: Seq<char>, b: Seq<char>)
    requires
        occurs_in(needle, b),
    ensures
        occurs_in(needle, a + b),
{
    let k = choose|k: int|
        0 <= k && k + needle.len() <= b.len() && #[trigger] b.subrange(k, k + needle.len())
            == needle;
    assert((a + b).subrange(a.len() + k, a.len() + k + needle.len() as int) =~= b.subrange(
        k,
        k + needle.len() as int,
    ));
}

/// Character-wise equality of two string slices.
pub fn str_eq(a: &str, b: &str) -> (r: bool)
    ensures
        r == (a@ == b@),
{
    let alen: usize = a.unicode_len();
    let blen: usize = b.unicode_len();
    if alen != blen {
        return false;
    }
    let mut i: usize = 0;
    while i < alen
        invariant
            i <= alen,
            alen == a@.len(),
            alen == b@.len(),
            forall|j: int| 0 <= j < i ==> a@[j] == b@[j],
        decreases alen - i,
    {
        if a.get_char(i) != b.get_char(i) {
            return false;
        }
        i += 1;
    }
    proof {
        assert(a@ =~= b@);
    }
    true
}

/// Whether `s` is an initial segment of `p`, character by character.
pub fn str_starts_with(p: &str, s: &str) -> (r: bool)
    ensures
        r == is_prefix_of(s@, p@),
{
    let plen: usize = p.unicode_len();
    let slen: usize = s.unicode_len();
    if plen < slen {
        return false;
    }
    let mut i: usize = 0;
    while i < slen
        invariant
            i <= slen,
            slen == s@.len(),
            plen == p@.len(),
            slen <= plen,
            forall|j: int| 0 <= j < i ==> p@[j] == s@[j],
        decreases slen - i,
    {
        if p.get_char(i) != s.get_char(i) {
            proof {
                assert(p@.subrange(0, s@.len() as int)[i as int] == p@[i as int]);
            }
            return false;
        }
        i += 1;
    }
    proof {
        assert(p@.subrange(0, s@.len() as int) =~= s@);
    }
    true
}

/// Whether `s` is a final segment of `p`, character by character.
pub fn str_ends_with(p: &str, s: &str) -> (r: bool)
    ensures
        r == is_suffix_of(s@, p@),
{
    let plen: usize = p.unicode_len();
    let slen: usize = s.unicode_len();
    if plen < slen {
        return false;
    }
    let off: usize = plen - slen;
    let mut i: usize = 0;
    while i < slen
        invariant
            i <= slen,
            slen == s@.len(),
            plen == p@.len(),
            off == plen - slen,
            forall|j: int| 0 <= j < i ==> p@[off + j] == s@[j],
        decreases slen - i,
    {
        if p.get_char(off + i) != s.get_char(i) {
            proof {
                assert(p@.subrange(p@.len() - s@.len(), p@.len() as int)[i as int] == p@[off + i]);
            }
            return false;
        }
        i += 1;
    }
    proof {
        assert(p@.subrange(p@.len() - s@.len(), p@.len() as int) =~= s@);
    }
    true
}

/// Whether two consecutive dots occur anywhere in `p`.
pub fn contains_dotdot(p: &str) -> (r: bool)
    ensures
        r == has_dotdot(p@),
{
    let plen: usize = p.unicode_len();
    if plen < 2 {
        return false;
    }
    let mut i: usize = 0;
    while i + 1 < plen
        invariant
            plen == p@.len(),
            i < plen,
            forall|j: int| 0 <= j < i ==> !(#[trigger] p@[j] == '.' && p@[j + 1] == '.'),
        decreases plen - i,
    {
        if p.get_char(i) == '.' && p.get_char(i + 1) == '.' {
            proof {
                assert(p@[i as int] == '.' && p@[i as int + 1] == '.');
            }
            return true;
        }
        i += 1;
    }
    false
}

} // verus!
