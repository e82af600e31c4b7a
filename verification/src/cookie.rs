//! The `Cookie` request-header grammar, and the lookup of the caller's
//! `RauthySession` cookie in it.
//!
//! A `Cookie` header value is a list of `name=value` pairs separated by
//! `;`. The lookup reads it leniently, the way a cookie jar filled from
//! the request's headers does: within each pair, the name is everything
//! before the first `=` and the value everything after it, each trimmed of
//! ASCII spaces; a pair without `=` carries nothing; and when several pairs
//! (in one header value or across several) carry the same name, the last
//! one wins, since a jar inserts them in order and each insertion replaces
//! the previous cookie of that name. The cookie value itself stays opaque:
//! it is only forwarded to the identity provider.

use vstd::prelude::*;
use vstd::slice::slice_index_get;
use vstd::slice::slice_subrange;
use vstd::slice::slice_to_vec;

verus! {

/// Index of the first occurrence of `b` in `s`, or `s.len()` if none.
pub open spec fn first_index(s: Seq<u8>, b: u8) -> int
    decreases s.len(),
{
    if s.len() == 0 {
        0
    } else if s[0] == b {
        0
    } else {
        1 + first_index(s.subrange(1, s.len() as int), b)
    }
}

/// `first_index` points at the first occurrence: everything before it
/// differs from `b`, and it lands on `b` unless `b` does not occur at all.
pub proof fn lemma_first_index(s: Seq<u8>, b: u8)
    ensures
        0 <= first_index(s, b) <= s.len(),
        forall|j: int| 0 <= j < first_index(s, b) ==> s[j] != b,
        first_index(s, b) < s.len() ==> s[first_index(s, b)] == b,
    decreases s.len(),
{
    if s.len() == 0 {
    } else if s[0] == b {
    } else {
        let t = s.subrange(1, s.len() as int);
        lemma_first_index(t, b);
        assert(first_index(s, b) == 1 + first_index(t, b));
        assert forall|j: int| 0 <= j < first_index(s, b) implies s[j] != b by {
            if j > 0 {
                assert(s[j] == t[j - 1]);
            }
        }
        if first_index(s, b) < s.len() {
            assert(s[first_index(s, b)] == t[first_index(t, b)]);
        }
    }
}

/// Any index with `first_index`'s characterization is `first_index`.
pub proof fn lemma_first_index_unique(s: Seq<u8>, b: u8, i: int)
    requires
        0 <= i <= s.len(),
        forall|j: int| 0 <= j < i ==> s[j] != b,
        i < s.len() ==> s[i] == b,
    ensures
        i == first_index(s, b),
{
    lemma_first_index(s, b);
}

/// The number of leading ASCII spaces of `s`.
pub open spec fn leading_spaces(s: Seq<u8>) -> int
    decreases s.len(),
{
    if s.len() == 0 {
        0
    } else if s[0] != 32 {
        0
    } else {
        1 + leading_spaces(s.subrange(1, s.len() as int))
    }
}

/// The number of trailing ASCII spaces of `s`.
pub open spec fn trailing_spaces(s: Seq<u8>) -> int
    decreases s.len(),
{
    if s.len() == 0 {
        0
    } else if s[s.len() - 1] != 32 {
        0
    } else {
        1 + trailing_spaces(s.subrange(0, s.len() - 1))
    }
}

/// `s` without its leading and trailing ASCII spaces.
pub open spec fn trimmed(s: Seq<u8>) -> Seq<u8> {
    if leading_spaces(s) + trailing_spaces(s) <= s.len() {
        s.subrange(leading_spaces(s), s.len() - trailing_spaces(s))
    } else {
        Seq::empty()
    }
}

/// `leading_spaces` counts exactly the spaces at the front.
pub proof fn lemma_leading_spaces(s: Seq<u8>)
    ensures
        0 <= leading_spaces(s) <= s.len(),
        forall|j: int| 0 <= j < leading_spaces(s) ==> s[j] == 32,
        leading_spaces(s) < s.len() ==> s[leading_spaces(s)] != 32,
    decreases s.len(),
{
    if s.len() == 0 {
    } else if s[0] != 32 {
    } else {
        let t = s.subrange(1, s.len() as int);
        lemma_leading_spaces(t);
        assert(leading_spaces(s) == 1 + leading_spaces(t));
        assert forall|j: int| 0 <= j < leading_spaces(s) implies s[j] == 32 by {
            if j > 0 {
                assert(s[j] == t[j - 1]);
            }
        }
        if leading_spaces(s) < s.len() {
            assert(s[leading_spaces(s)] == t[leading_spaces(t)]);
        }
    }
}

/// Any count with `leading_spaces`' characterization is `leading_spaces`.
pub proof fn lemma_leading_spaces_unique(s: Seq<u8>, i: int)
    requires
        0 <= i <= s.len(),
        forall|j: int| 0 <= j < i ==> s[j] == 32,
        i < s.len() ==> s[i] != 32,
    ensures
        i == leading_spaces(s),
{
    lemma_leading_spaces(s);
}

/// `trailing_spaces` counts exactly the spaces at the back.
pub proof fn lemma_trailing_spaces(s: Seq<u8>)
    ensures
        0 <= trailing_spaces(s) <= s.len(),
        forall|j: int| s.len() - trailing_spaces(s) <= j < s.len() ==> s[j] == 32,
        trailing_spaces(s) < s.len() ==> s[s.len() - trailing_spaces(s) - 1] != 32,
    decreases s.len(),
{
    if s.len() == 0 {
    } else if s[s.len() - 1] != 32 {
    } else {
        let t = s.subrange(0, s.len() - 1);
        lemma_trailing_spaces(t);
        assert(trailing_spaces(s) == 1 + trailing_spaces(t));
        assert forall|j: int| s.len() - trailing_spaces(s) <= j < s.len() implies s[j] == 32 by {
            if j < s.len() - 1 {
                assert(s[j] == t[j]);
            }
        }
        if trailing_spaces(s) < s.len() {
            assert(s[s.len() - trailing_spaces(s) - 1] == t[t.len() - trailing_spaces(t) - 1]);
        }
    }
}

/// Any count with `trailing_spaces`' characterization is `trailing_spaces`.
pub proof fn lemma_trailing_spaces_unique(s: Seq<u8>, k: int)
    requires
        0 <= k <= s.len(),
        forall|j: int| s.len() - k <= j < s.len() ==> s[j] == 32,
        k < s.len() ==> s[s.len() - k - 1] != 32,
    ensures
        k == trailing_spaces(s),
{
    lemma_trailing_spaces(s);
}

/// The cookie name this service looks for, as bytes: `RauthySession`.
pub open spec fn session_cookie_name() -> Seq<u8> {
    seq![82u8, 97u8, 117u8, 116u8, 104u8, 121u8, 83u8, 101u8, 115u8, 115u8, 105u8, 111u8, 110u8]
}

/// The value one `name=value` pair contributes if its name, trimmed, is
/// `RauthySession`: the part after the first `=`, trimmed. A pair without
/// `=` contributes nothing.
pub open spec fn pair_session_value(seg: Seq<u8>) -> Option<Seq<u8>> {
    let e = first_index(seg, 61);
    if e == seg.len() {
        None
    } else if trimmed(seg.subrange(0, e)) == session_cookie_name() {
        Some(trimmed(seg.subrange(e + 1, seg.len() as int)))
    } else {
        None
    }
}

/// The `RauthySession` value of one whole `Cookie` header value: pairs are
/// separated by `;`, and the last pair carrying the name wins.
pub open spec fn header_session_value(h: Seq<u8>) -> Option<Seq<u8>>
    decreases h.len(),
{
    let k = first_index(h, 59);
    if 0 <= k < h.len() {
        let tail = header_session_value(h.subrange(k + 1, h.len() as int));
        if tail is Some {
            tail
        } else {
            pair_session_value(h.subrange(0, k))
        }
    } else {
        pair_session_value(h)
    }
}

/// The `RauthySession` value over all `Cookie` header values of a request,
/// in order: the last header value carrying the cookie wins.
pub open spec fn headers_session_value(hs: Seq<Vec<u8>>) -> Option<Seq<u8>>
    decreases hs.len(),
{
    if hs.len() == 0 {
        None
    } else {
        let last_val = header_session_value(hs.last()@);
        if last_val is Some {
            last_val
        } else {
            headers_session_value(hs.drop_last())
        }
    }
}

/// The view of an optional found cookie value.
pub open spec fn opt_vec_view(r: Option<Vec<u8>>) -> Option<Seq<u8>> {
    match r {
        Some(v) => Some(v@),
        None => None,
    }
}

/// Index of the first occurrence of `b` in `s`, or `s.len()` if none.
fn find_byte(s: &[u8], b: u8) -> (r: usize)
    ensures
        r == first_index(s@, b),
        r <= s@.len(),
{
    let n = s.len();
    let mut i: usize = 0;
    while i < n
        invariant
            0 <= i <= n,
            n == s@.len(),
            forall|j: int| 0 <= j < i ==> s@[j] != b,
        decreases n - i,
    {
        if *slice_index_get(s, i) == b {
            proof {
                lemma_first_index_unique(s@, b, i as int);
            }
            return i;
        }
        i += 1;
    }
    proof {
        lemma_first_index_unique(s@, b, i as int);
    }
    i
}

/// The bounds of `s` without its leading and trailing ASCII spaces.
fn trim_bounds(s: &[u8]) -> (r: (usize, usize))
    ensures
        r.0 <= r.1 <= s@.len(),
        trimmed(s@) == s@.subrange(r.0 as int, r.1 as int),
{
    let n = s.len();
    let mut lo: usize = 0;
    while lo < n && *slice_index_get(s, lo) == 32
        invariant
            0 <= lo <= n,
            n == s@.len(),
            forall|j: int| 0 <= j < lo ==> s@[j] == 32,
        decreases n - lo,
    {
        lo += 1;
    }
    proof {
        lemma_leading_spaces_unique(s@, lo as int);
    }
    if lo == n {
        proof {
            lemma_trailing_spaces_unique(s@, n as int);
            assert(trimmed(s@) =~= s@.subrange(lo as int, lo as int));
        }
        return (lo, lo);
    }
    let mut hi: usize = n;
    while hi > lo && *slice_index_get(s, hi - 1) == 32
        invariant
            lo <= hi <= n,
            n == s@.len(),
            lo < n,
            s@[lo as int] != 32,
            lo as int == leading_spaces(s@),
            forall|j: int| hi <= j < n ==> s@[j] == 32,
        decreases hi,
    {
        hi -= 1;
    }
    proof {
        assert(hi > lo) by {
            if hi == lo {
                assert(s@[lo as int] == 32);
            }
        }
        lemma_trailing_spaces_unique(s@, n - hi as int);
        assert(trimmed(s@) == s@.subrange(lo as int, hi as int));
    }
    (lo, hi)
}

/// The bytes of the cookie name `RauthySession`.
fn session_cookie_name_bytes() -> (v: Vec<u8>)
    ensures
        v@ == session_cookie_name(),
{
    let mut v: Vec<u8> = Vec::new();
    v.push(82);
    v.push(97);
    v.push(117);
    v.push(116);
    v.push(104);
    v.push(121);
    v.push(83);
    v.push(101);
    v.push(115);
    v.push(115);
    v.push(105);
    v.push(111);
    v.push(110);
    proof {
        assert(v@ =~= session_cookie_name());
    }
    v
}

/// The value one `name=value` pair contributes, executably.
fn pair_session_value_exec(seg: &[u8]) -> (r: Option<Vec<u8>>)
    ensures
        opt_vec_view(r) == pair_session_value(seg@),
{
    let e = find_byte(seg, 61);
    if e == seg.len() {
        return None;
    }
    let name_part = slice_subrange(seg, 0, e);
    let (nlo, nhi) = trim_bounds(name_part);
    let name = session_cookie_name_bytes();
    if nhi - nlo != name.len() {
        proof {
            assert(trimmed(name_part@).len() != session_cookie_name().len());
        }
        return None;
    }
    let mut i: usize = 0;
    while i < name.len()
        invariant
            0 <= i <= name@.len(),
            name@ == session_cookie_name(),
            e as int == first_index(seg@, 61),
            e < seg@.len(),
            name_part@ == seg@.subrange(0, e as int),
            nlo + name@.len() == nhi,
            nhi <= name_part@.len(),
            trimmed(name_part@) == name_part@.subrange(nlo as int, nhi as int),
            forall|j: int| 0 <= j < i ==> name_part@[nlo + j] == name@[j],
        decreases name@.len() - i,
    {
        if *slice_index_get(name_part, nlo + i) != *slice_index_get(name.as_slice(), i) {
            proof {
                let t = trimmed(name_part@);
                assert(t[i as int] == name_part@[nlo + i]);
                assert(t != session_cookie_name());
            }
            return None;
        }
        i += 1;
    }
    proof {
        assert(trimmed(name_part@) =~= session_cookie_name());
    }
    let value_part = slice_subrange(seg, e + 1, seg.len());
    let (vlo, vhi) = trim_bounds(value_part);
    let v = slice_to_vec(slice_subrange(value_part, vlo, vhi));
    proof {
        assert(pair_session_value(seg@) == Some(trimmed(value_part@)));
    }
    Some(v)
}

/// The `RauthySession` value of one `Cookie` header value, executably.
fn header_session_value_exec(h: &[u8]) -> (r: Option<Vec<u8>>)
    ensures
        opt_vec_view(r) == header_session_value(h@),
    decreases h@.len(),
{
    let k = find_byte(h, 59);
    if k < h.len() {
        let rest = slice_subrange(h, k + 1, h.len());
        let tail = header_session_value_exec(rest);
        match tail {
            Some(v) => Some(v),
            None => pair_session_value_exec(slice_subrange(h, 0, k)),
        }
    } else {
        pair_session_value_exec(h)
    }
}

/// Finds the `RauthySession` cookie among the raw `Cookie` header values of
/// a request, given in request order; when several carry it, the last one
/// wins. Returns the cookie's value, trimmed of ASCII spaces.
pub fn session_cookie_in_headers(headers: &Vec<Vec<u8>>) -> (r: Option<Vec<u8>>)
    ensures
        opt_vec_view(r) == headers_session_value(headers@),
{
    let n = headers.len();
    let mut i: usize = n;
    proof {
        assert(headers@.subrange(0, n as int) =~= headers@);
    }
    while i > 0
        invariant
            0 <= i <= n,
            n == headers@.len(),
            headers_session_value(headers@) == headers_session_value(
                headers@.subrange(0, i as int),
            ),
        decreases i,
    {
        i -= 1;
        let ghost prefix = headers@.subrange(0, i + 1);
        proof {
            assert(prefix.last() == headers@[i as int]);
            assert(prefix.drop_last() =~= headers@.subrange(0, i as int));
        }
        let hv = slice_index_get(headers.as_slice(), i);
        let found = header_session_value_exec(hv.as_slice());
        match found {
            Some(v) => {
                return Some(v);
            },
            None => {
            },
        }
    }
    proof {
        assert(headers@.subrange(0, 0) =~= Seq::<Vec<u8>>::empty());
    }
    None
}

} // verus!
