//! Byte-level text utilities shared by the attribute-payload parser and
//! the capability checks.
//!
//! All source text in the model is UTF-8 bytes.  The grammar the parser
//! accepts only ever splits at ASCII delimiters, which never occur inside
//! a multi-byte UTF-8 sequence, so plain byte scanning is exact.

use vstd::prelude::*;
use vstd::slice::{slice_index_get, slice_subrange, slice_to_vec};

verus! {

pub const COLON: u8 = 58;

pub const PLUS: u8 = 43;

pub const COMMA: u8 = 44;

pub open spec fn is_ws(b: u8) -> bool {
    b == 32 || b == 9 || b == 10 || b == 13
}

pub open spec fn is_ident_start(b: u8) -> bool {
    (97 <= b && b <= 122) || (65 <= b && b <= 90) || b == 95
}

pub open spec fn is_ident_cont(b: u8) -> bool {
    is_ident_start(b) || (48 <= b && b <= 57)
}

/// A simple name: an ASCII identifier.
pub open spec fn is_ident(s: Seq<u8>) -> bool {
    &&& s.len() > 0
    &&& is_ident_start(s[0])
    &&& forall|j: int| 1 <= j < s.len() ==> is_ident_cont(#[trigger] s[j])
}

/// The least index `j >= i` with `s[j] == d`, or `s.len()` if there is none.
pub open spec fn find_from(s: Seq<u8>, d: u8, i: int) -> int
    decreases s.len() - i,
{
    if i < 0 || i >= s.len() {
        s.len() as int
    } else if s[i] == d {
        i
    } else {
        find_from(s, d, i + 1)
    }
}

pub proof fn lemma_find_from(s: Seq<u8>, d: u8, i: int)
    requires
        0 <= i <= s.len(),
    ensures
        i <= find_from(s, d, i) <= s.len(),
        find_from(s, d, i) < s.len() ==> s[find_from(s, d, i)] == d,
        forall|j: int| i <= j < find_from(s, d, i) ==> s[j] != d,
    decreases s.len() - i,
{
    if i < s.len() && s[i] != d {
        lemma_find_from(s, d, i + 1);
    }
}

/// The least index `j >= i` with `!is_ws(s[j])`, or `s.len()`.
pub open spec fn skip_ws(s: Seq<u8>, i: int) -> int
    decreases s.len() - i,
{
    if i < 0 || i >= s.len() {
        s.len() as int
    } else if is_ws(s[i]) {
        skip_ws(s, i + 1)
    } else {
        i
    }
}

/// The greatest index `j <= i` such that `j == 0` or `!is_ws(s[j - 1])`.
pub open spec fn skip_ws_back(s: Seq<u8>, i: int) -> int
    decreases i,
{
    if i <= 0 {
        0
    } else if is_ws(s[i - 1]) {
        skip_ws_back(s, i - 1)
    } else {
        i
    }
}

/// `s` with leading and trailing ASCII whitespace removed.
pub open spec fn trim(s: Seq<u8>) -> Seq<u8> {
    let a = skip_ws(s, 0);
    let b = skip_ws_back(s, s.len() as int);
    if a < b {
        s.subrange(a, b)
    } else {
        Seq::empty()
    }
}

/// The pieces of `s[i..]` separated by the byte `d`.  A sequence with no
/// separator is one piece; each separator ends a piece, so `n` separators
/// give `n + 1` pieces, some possibly empty.
pub open spec fn split_from(s: Seq<u8>, d: u8, i: int) -> Seq<Seq<u8>>
    decreases s.len() - i,
    via split_from_decreases
{
    if !(0 <= i <= s.len()) {
        Seq::empty()
    } else {
        let j = find_from(s, d, i);
        if j >= s.len() {
            seq![s.subrange(i, s.len() as int)]
        } else {
            seq![s.subrange(i, j)] + split_from(s, d, j + 1)
        }
    }
}

#[via_fn]
proof fn split_from_decreases(s: Seq<u8>, d: u8, i: int) {
    if 0 <= i <= s.len() {
        lemma_find_from(s, d, i);
    }
}

pub open spec fn split_on(s: Seq<u8>, d: u8) -> Seq<Seq<u8>> {
    split_from(s, d, 0)
}

pub proof fn lemma_split_from_len(s: Seq<u8>, d: u8, i: int)
    requires
        0 <= i <= s.len(),
    ensures
        split_from(s, d, i).len() >= 1,
    decreases s.len() - i,
{
    lemma_find_from(s, d, i);
    let j = find_from(s, d, i);
    if j < s.len() {
        lemma_split_from_len(s, d, j + 1);
    }
}

/// The start of the last `::`-separated segment of a path written as
/// text: the index right after the final `::` at or before `i`, or `0`.
pub open spec fn last_segment_start(s: Seq<u8>, i: int) -> int
    decreases i,
{
    if i <= 1 {
        0
    } else if s[i - 1] == COLON && s[i - 2] == COLON {
        i
    } else {
        last_segment_start(s, i - 1)
    }
}

/// The least index `j >= i` with `!is_ident_cont(s[j])`, or `s.len()`.
pub open spec fn ident_end(s: Seq<u8>, i: int) -> int
    decreases s.len() - i,
{
    if i < 0 || i >= s.len() {
        s.len() as int
    } else if is_ident_cont(s[i]) {
        ident_end(s, i + 1)
    } else {
        i
    }
}

// ---------------------------------------------------------------------
// Executable counterparts
// ---------------------------------------------------------------------

fn ws(b: u8) -> (r: bool)
    ensures
        r == is_ws(b),
{
    b == 32 || b == 9 || b == 10 || b == 13
}

fn ident_start(b: u8) -> (r: bool)
    ensures
        r == is_ident_start(b),
{
    (97 <= b && b <= 122) || (65 <= b && b <= 90) || b == 95
}

fn ident_cont(b: u8) -> (r: bool)
    ensures
        r == is_ident_cont(b),
{
    ident_start(b) || (48 <= b && b <= 57)
}

/// The least index `j >= start` with `s[j] == d`, or `s.len()`.
pub fn find_byte_from(s: &[u8], d: u8, start: usize) -> (r: usize)
    requires
        start <= s@.len(),
    ensures
        r == find_from(s@, d, start as int),
{
    let n: usize = s.len();
    let mut i: usize = start;
    loop
        invariant
            start <= i <= n,
            n == s@.len(),
            find_from(s@, d, start as int) == find_from(s@, d, i as int),
        decreases n - i,
    {
        if i >= n {
            return i;
        }
        let c: u8 = *slice_index_get(s, i);
        if c == d {
            return i;
        }
        i = i + 1;
    }
}

/// A copy of `s` with leading and trailing ASCII whitespace removed.
pub fn trim_bytes(s: &[u8]) -> (r: Vec<u8>)
    ensures
        r@ == trim(s@),
{
    let n: usize = s.len();
    let mut a: usize = 0;
    loop
        invariant
            0 <= a <= n,
            n == s@.len(),
            skip_ws(s@, 0) == skip_ws(s@, a as int),
        ensures
            0 <= a <= n,
            a == skip_ws(s@, 0),
        decreases n - a,
    {
        if a >= n {
            break;
        }
        let c: u8 = *slice_index_get(s, a);
        if !ws(c) {
            break;
        }
        a = a + 1;
    }
    let mut b: usize = n;
    loop
        invariant
            0 <= b <= n,
            n == s@.len(),
            skip_ws_back(s@, n as int) == skip_ws_back(s@, b as int),
        ensures
            0 <= b <= n,
            b == skip_ws_back(s@, n as int),
        decreases b,
    {
        if b == 0 {
            break;
        }
        let c: u8 = *slice_index_get(s, b - 1);
        if !ws(c) {
            break;
        }
        b = b - 1;
    }
    if a < b {
        slice_to_vec(slice_subrange(s, a, b))
    } else {
        Vec::new()
    }
}

/// Whether `s` is an ASCII identifier.
pub fn is_ident_bytes(s: &[u8]) -> (r: bool)
    ensures
        r == is_ident(s@),
{
    let n: usize = s.len();
    if n == 0 {
        return false;
    }
    let c0: u8 = *slice_index_get(s, 0);
    if !ident_start(c0) {
        return false;
    }
    let mut i: usize = 1;
    loop
        invariant
            1 <= i <= n,
            n == s@.len(),
            is_ident_start(s@[0]),
            forall|j: int| 1 <= j < i ==> is_ident_cont(#[trigger] s@[j]),
        decreases n - i,
    {
        if i >= n {
            return true;
        }
        let c: u8 = *slice_index_get(s, i);
        if !ident_cont(c) {
            return false;
        }
        i = i + 1;
    }
}

/// A copy of the byte vector, equal to it as a sequence.
pub fn copy_bytes(v: &Vec<u8>) -> (r: Vec<u8>)
    ensures
        r@ == v@,
{
    let r = v.clone();
    assert(r@ =~= v@);
    r
}

} // verus!
