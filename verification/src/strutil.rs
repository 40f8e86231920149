//! Verified helpers over `&str` and `String`.
//!
//! Strings are modelled by their `Seq<char>` view; every helper states its
//! result over that view.

use vstd::prelude::*;
use vstd::string::StrSliceExecFns;
use vstd::string::StringExecFns;

verus! {

/// Character-wise equality of two string slices.
pub fn str_eq(a: &str, b: &str) -> (r: bool)
    ensures
        r == (a@ == b@),
{
    let alen = a.unicode_len();
    let blen = b.unicode_len();
    if alen != blen {
        assert(a@ != b@);
        return false;
    }
    let mut i: usize = 0;
    while i < alen
        invariant
            i <= alen,
            alen == a@.len(),
            alen == b@.len(),
            forall|j: int| 0 <= j < i ==> a@[j] == b@[j],
        decreases alen - i,
    {
        if a.get_char(i) != b.get_char(i) {
            return false;
        }
        i += 1;
    }
    proof {
        assert(a@ =~= b@);
    }
    true
}

/// Whether `p@` is a prefix of `s@`.
pub fn starts_with(s: &str, p: &str) -> (r: bool)
    ensures
        r == p@.is_prefix_of(s@),
{
    let slen = s.unicode_len();
    let plen = p.unicode_len();
    if plen > slen {
        return false;
    }
    let mut i: usize = 0;
    while i < plen
        invariant
            i <= plen,
            plen <= slen,
            slen == s@.len(),
            plen == p@.len(),
            forall|j: int| 0 <= j < i ==> s@[j] == p@[j],
        decreases plen - i,
    {
        if s.get_char(i) != p.get_char(i) {
            return false;
        }
        i += 1;
    }
    proof {
        assert(p@ =~= s@.subrange(0, p@.len() as int));
    }
    true
}

/// Concatenation of two string slices into an owned string.
pub fn concat2(a: &str, b: &str) -> (r: String)
    ensures
        r@ == a@ + b@,
{
    let owned: String = a.to_owned();
    owned.concat(b)
}

/// Whether `q` occurs contiguously inside `t`.
pub open spec fn is_substring(q: Seq<char>, t: Seq<char>) -> bool {
    exists|k: int|
        0 <= k && k + q.len() <= t.len() && #[trigger] t.subrange(k, k + q.len() as int) == q
}

/// Whether `q@` matches `t@` starting at position `k`.
fn match_at(t: &str, q: &str, k: usize) -> (r: bool)
    requires
        k + q@.len() <= t@.len(),
    ensures
        r == (t@.subrange(k as int, k as int + q@.len() as int) == q@),
{
    let qlen = q.unicode_len();
    let tlen = t.unicode_len();
    let mut j: usize = 0;
    while j < qlen
        invariant
            j <= qlen,
            qlen == q@.len(),
            tlen == t@.len(),
            k + qlen <= tlen,
            forall|x: int| 0 <= x < j ==> t@[k + x] == q@[x],
        decreases qlen - j,
    {
        if t.get_char(k + j) != q.get_char(j) {
            assert(t@.subrange(k as int, k as int + q@.len() as int)[j as int] != q@[j as int]);
            return false;
        }
        j += 1;
    }
    proof {
        assert(t@.subrange(k as int, k as int + q@.len() as int) =~= q@);
    }
    true
}

/// Substring search: whether `q@` occurs contiguously inside `t@`.
pub fn contains_sub(t: &str, q: &str) -> (r: bool)
    ensures
        r == is_substring(q@, t@),
{
    let tlen = t.unicode_len();
    let qlen = q.unicode_len();
    if qlen > tlen {
        return false;
    }
    if qlen == 0 {
        proof {
            assert(t@.subrange(0, 0 + q@.len() as int) =~= q@);
        }
        return true;
    }
    let limit = tlen - qlen;
    let mut k: usize = 0;
    while k <= limit
        invariant
            1 <= qlen <= tlen,
            tlen == t@.len(),
            qlen == q@.len(),
            limit == tlen - qlen,
            k <= limit + 1,
            forall|x: int|
                0 <= x < k ==> #[trigger] t@.subrange(x, x + q@.len() as int) != q@,
        decreases limit + 1 - k,
    {
        if match_at(t, q, k) {
            return true;
        }
        k += 1;
    }
    false
}

/// The ASCII-lowercased form of one character.
pub open spec fn lower_char(c: char) -> char {
    if 'A' <= c && c <= 'Z' {
        ((c as u8) + 0x20) as char
    } else {
        c
    }
}

/// The ASCII-lowercased form of a character sequence.
pub open spec fn lower_ascii(s: Seq<char>) -> Seq<char> {
    Seq::new(s.len(), |i: int| lower_char(s[i]))
}

/// Equality of two string slices up to ASCII case.
pub fn eq_ignore_ascii_case(a: &str, b: &str) -> (r: bool)
    ensures
        r == (lower_ascii(a@) == lower_ascii(b@)),
{
    let alen = a.unicode_len();
    let blen = b.unicode_len();
    if alen != blen {
        assert(lower_ascii(a@).len() != lower_ascii(b@).len());
        return false;
    }
    let mut i: usize = 0;
    while i < alen
        invariant
            i <= alen,
            alen == a@.len(),
            alen == b@.len(),
            forall|j: int| 0 <= j < i ==> lower_char(a@[j]) == lower_char(b@[j]),
        decreases alen - i,
    {
        let ca = a.get_char(i);
        let cb = b.get_char(i);
        let la: char = if 'A' <= ca && ca <= 'Z' {
            ((ca as u8) + 0x20) as char
        } else {
            ca
        };
        let lb: char = if 'A' <= cb && cb <= 'Z' {
            ((cb as u8) + 0x20) as char
        } else {
            cb
        };
        if la != lb {
            assert(lower_ascii(a@)[i as int] != lower_ascii(b@)[i as int]);
            return false;
        }
        i += 1;
    }
    proof {
        assert(lower_ascii(a@) =~= lower_ascii(b@));
    }
    true
}

} // verus!
