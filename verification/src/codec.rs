//! Byte-level helpers for the save/load cycle: zero padding, the
//! NUL-terminated prefix of a loaded string buffer, and UTF-8 validation.

use vstd::prelude::*;
use vstd::slice::slice_index_get;
use vstd::utf8::{
    char_is_scalar, encode_scalar, encode_utf8, has_width_1_encoding, has_width_2_encoding,
    has_width_3_encoding, is_scalar, valid_utf8,
};

verus! {

/// A run of `n` zero bytes.
pub open spec fn zeros(n: nat) -> Seq<u8> {
    Seq::new(n, |i: int| 0u8)
}

/// The index of the first zero byte, or the length when none occurs.
pub open spec fn first_zero(b: Seq<u8>) -> int
    decreases b.len(),
{
    if b.len() == 0 {
        0
    } else if b[0] == 0 {
        0
    } else {
        1 + first_zero(b.drop_first())
    }
}

/// The first-zero index is exactly the position before which no zero byte
/// occurs and at which one does (or the length, when none occurs at all).
pub proof fn lemma_first_zero_at(b: Seq<u8>, k: int)
    requires
        0 <= k <= b.len(),
        forall|j: int| 0 <= j < k ==> b[j] != 0,
        k < b.len() ==> b[k] == 0,
    ensures
        first_zero(b) == k,
    decreases k,
{
    if k == 0 {
    } else {
        let rest = b.drop_first();
        assert(b[0] != 0);
        assert forall|j: int| 0 <= j < k - 1 implies rest[j] != 0 by {
            assert(rest[j] == b[j + 1]);
        }
        if k - 1 < rest.len() {
            assert(rest[k - 1] == b[k]);
        }
        lemma_first_zero_at(rest, k - 1);
    }
}

/// A fresh vector of `n` zero bytes.
pub(crate) fn zero_vec(n: usize) -> (r: Vec<u8>)
    ensures
        r@ == zeros(n as nat),
{
    let mut r: Vec<u8> = Vec::new();
    let mut i: usize = 0;
    while i < n
        invariant
            i <= n,
            r@ == zeros(i as nat),
        decreases n - i,
    {
        r.push(0u8);
        proof {
            assert(r@ =~= zeros((i + 1) as nat));
        }
        i = i + 1;
    }
    r
}

/// The index of the first zero byte of a buffer, or its length.
pub(crate) fn find_first_zero(v: &Vec<u8>) -> (r: usize)
    ensures
        r as int == first_zero(v@),
        r <= v@.len(),
{
    let n = v.len();
    let mut i: usize = 0;
    while i < n
        invariant
            i <= n,
            n == v@.len(),
            forall|j: int| 0 <= j < i ==> v@[j] != 0,
        decreases n - i,
    {
        if *slice_index_get(v.as_slice(), i) == 0 {
            proof {
                lemma_first_zero_at(v@, i as int);
            }
            return i;
        }
        i = i + 1;
    }
    proof {
        lemma_first_zero_at(v@, n as int);
    }
    n
}

/// No byte of the UTF-8 encoding of a nonzero scalar is zero.
proof fn lemma_encode_scalar_no_zero(c: u32)
    requires
        is_scalar(c),
        c != 0,
    ensures
        forall|j: int| 0 <= j < encode_scalar(c).len() ==> encode_scalar(c)[j] != 0,
{
    if has_width_1_encoding(c) {
        assert(((c & 0x7F) as u8) != 0) by (bit_vector)
            requires
                c < 0x80 && c != 0,
        ;
    } else if has_width_2_encoding(c) {
        assert((0xC0u8 | ((c >> 6) & 0x1F) as u8) != 0 && (0x80u8 | (c & 0x3F) as u8) != 0)
            by (bit_vector);
    } else if has_width_3_encoding(c) {
        assert((0xE0u8 | ((c >> 12) & 0x0F) as u8) != 0 && (0x80u8 | ((c >> 6) & 0x3F) as u8) != 0
            && (0x80u8 | (c & 0x3F) as u8) != 0) by (bit_vector);
    } else {
        assert((0xF0u8 | ((c >> 18) & 0x7) as u8) != 0 && (0x80u8 | ((c >> 12) & 0x3F) as u8) != 0
            && (0x80u8 | ((c >> 6) & 0x3F) as u8) != 0 && (0x80u8 | (c & 0x3F) as u8) != 0)
            by (bit_vector);
    }
}

/// The UTF-8 encoding of a text without the NUL character contains no zero
/// byte.
pub proof fn lemma_encode_utf8_no_zero(s: Seq<char>)
    requires
        forall|i: int| 0 <= i < s.len() ==> s[i] as u32 != 0,
    ensures
        forall|j: int| 0 <= j < encode_utf8(s).len() ==> encode_utf8(s)[j] != 0,
    decreases s.len(),
{
    if s.len() > 0 {
        char_is_scalar(s[0]);
        lemma_encode_scalar_no_zero(s[0] as u32);
        let rest = s.drop_first();
        assert forall|i: int| 0 <= i < rest.len() implies rest[i] as u32 != 0 by {
            assert(rest[i] == s[i + 1]);
        }
        lemma_encode_utf8_no_zero(rest);
        let head = encode_scalar(s[0] as u32);
        assert forall|j: int| 0 <= j < encode_utf8(s).len() implies encode_utf8(s)[j] != 0 by {
            if j < head.len() {
                assert(encode_utf8(s)[j] == head[j]);
            } else {
                assert(encode_utf8(s)[j] == encode_utf8(rest)[j - head.len()]);
            }
        }
    }
}

/// Relies on core::str::from_utf8: it accepts exactly the valid UTF-8 byte
/// strings, and an accepted string slice views those same bytes.
#[verifier::external_body]
pub(crate) fn bytes_as_str(v: &[u8]) -> (r: Option<&str>)
    ensures
        match r {
            Some(s) => encode_utf8(s@) == v@ && valid_utf8(v@),
            None => !valid_utf8(v@),
        },
{
    core::str::from_utf8(v).ok()
}

} // verus!
