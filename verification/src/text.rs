//! Text that the engine hands over as a NUL-terminated byte buffer.

use vstd::prelude::*;
use vstd::slice::slice_subrange;
use vstd::utf8::{
    char_is_scalar, char_u32_cast, decode_utf8, encode_scalar, encode_utf8,
    has_width_1_encoding, is_scalar, valid_utf8,
};

verus! {

/// Number of bytes in front of the first NUL byte, or the whole length when
/// there is none.
pub open spec fn c_len(bytes: Seq<u8>) -> nat
    decreases bytes.len(),
{
    if bytes.len() == 0 || bytes[0] == 0u8 {
        0
    } else {
        1 + c_len(bytes.drop_first())
    }
}

/// The bytes in front of the first NUL byte.
pub open spec fn c_text(bytes: Seq<u8>) -> Seq<u8> {
    bytes.take(c_len(bytes) as int)
}

/// `n` is the length in front of the first NUL byte exactly when no byte
/// before `n` is NUL and the buffer ends or holds NUL at `n`.
pub proof fn lemma_c_len_is(bytes: Seq<u8>, n: nat)
    requires
        n <= bytes.len(),
        forall|i: int| 0 <= i < n ==> bytes[i] != 0u8,
        n == bytes.len() || bytes[n as int] == 0u8,
    ensures
        c_len(bytes) == n,
    decreases n,
{
    if n > 0 {
        let rest = bytes.drop_first();
        assert forall|i: int| 0 <= i < n - 1 implies rest[i] != 0u8 by {
            assert(rest[i] == bytes[i + 1]);
        }
        lemma_c_len_is(rest, (n - 1) as nat);
    }
}

/// A closing NUL byte adds nothing to the bytes in front of the first NUL.
pub proof fn lemma_c_text_push_nul(bytes: Seq<u8>)
    ensures
        c_text(bytes.push(0u8)) == c_text(bytes),
    decreases bytes.len(),
{
    let buffer = bytes.push(0u8);
    if bytes.len() == 0 || bytes[0] == 0u8 {
        assert(buffer[0] == 0u8);
        assert(c_text(buffer) =~= c_text(bytes));
    } else {
        let rest = bytes.drop_first();
        lemma_c_text_push_nul(rest);
        assert(buffer.drop_first() =~= rest.push(0u8));
        assert(buffer[0] == bytes[0]);
        lemma_c_len_bound(rest);
        lemma_c_len_bound(rest.push(0u8));
        assert(c_text(rest.push(0u8)).len() == c_text(rest).len());
        assert(c_text(buffer) =~= c_text(bytes));
    }
}

/// The first NUL byte, if any, lies within the buffer.
pub proof fn lemma_c_len_bound(bytes: Seq<u8>)
    ensures
        c_len(bytes) <= bytes.len(),
    decreases bytes.len(),
{
    if !(bytes.len() == 0 || bytes[0] == 0u8) {
        lemma_c_len_bound(bytes.drop_first());
    }
}

/// The UTF-8 encoding of a scalar other than NUL holds no NUL byte.
proof fn lemma_scalar_encoding_without_nul(scalar: u32)
    requires
        is_scalar(scalar),
        scalar != 0,
    ensures
        forall|i: int| 0 <= i < encode_scalar(scalar).len() ==> encode_scalar(scalar)[i] != 0u8,
{
    if has_width_1_encoding(scalar) {
        assert((scalar & 0x7F) as u8 != 0u8) by (bit_vector)
            requires
                0 < scalar <= 0x7F,
        ;
    } else {
        assert(0xC0u8 | ((scalar >> 6) & 0x1F) as u8 != 0u8) by (bit_vector);
        assert(0xE0u8 | ((scalar >> 12) & 0x0F) as u8 != 0u8) by (bit_vector);
        assert(0xF0u8 | ((scalar >> 18) & 0x7) as u8 != 0u8) by (bit_vector);
        assert(0x80u8 | (scalar & 0x3F) as u8 != 0u8) by (bit_vector);
        assert(0x80u8 | ((scalar >> 6) & 0x3F) as u8 != 0u8) by (bit_vector);
        assert(0x80u8 | ((scalar >> 12) & 0x3F) as u8 != 0u8) by (bit_vector);
    }
}

/// The UTF-8 encoding of a text without NUL characters holds no NUL byte.
pub proof fn lemma_encoding_without_nul(text: Seq<char>)
    requires
        forall|i: int| 0 <= i < text.len() ==> text[i] != '\0',
    ensures
        forall|i: int| 0 <= i < encode_utf8(text).len() ==> encode_utf8(text)[i] != 0u8,
    decreases text.len(),
{
    if text.len() > 0 {
        let first = encode_scalar(text[0] as u32);
        let rest = encode_utf8(text.drop_first());
        char_is_scalar(text[0]);
        assert(text[0] as u32 != 0) by {
            if text[0] as u32 == 0 {
                assert('\0' as u32 == 0);
                char_u32_cast(text[0], 0u32);
                char_u32_cast('\0', 0u32);
            }
        }
        lemma_scalar_encoding_without_nul(text[0] as u32);
        assert forall|i: int| 0 <= i < text.drop_first().len() implies text.drop_first()[i]
            != '\0' by {
            assert(text.drop_first()[i] == text[i + 1]);
        }
        lemma_encoding_without_nul(text.drop_first());
        assert forall|i: int| 0 <= i < encode_utf8(text).len() implies encode_utf8(text)[i]
            != 0u8 by {
            if i < first.len() {
                assert(encode_utf8(text)[i] == first[i]);
            } else {
                assert(encode_utf8(text)[i] == rest[i - first.len()]);
            }
        }
    }
}

/// What `String::from_utf8_lossy` makes of a byte sequence.
pub uninterp spec fn utf8_lossy(bytes: Seq<u8>) -> Seq<char>;

/// Calls `String::from_utf8_lossy` and takes the result as an owned string.
/// The result is a function of the bytes alone; on bytes that are valid UTF-8
/// it is the text they encode. What it puts in place of invalid sequences is
/// left to the standard library.
#[verifier::external_body]
fn decode_lossy(bytes: &[u8]) -> (text: String)
    ensures
        text@ == utf8_lossy(bytes@),
        valid_utf8(bytes@) ==> text@ == decode_utf8(bytes@),
{
    String::from_utf8_lossy(bytes).into_owned()
}

/// Length of the C string at the start of `buffer`: the index of its first
/// NUL byte, or the length of the buffer when it holds none.
pub fn c_str_len(buffer: &[u8]) -> (n: usize)
    ensures
        n == c_len(buffer@),
        n <= buffer@.len(),
        forall|i: int| 0 <= i < n ==> buffer@[i] != 0u8,
        n < buffer@.len() ==> buffer@[n as int] == 0u8,
{
    let mut n: usize = 0;
    while n < buffer.len() && buffer[n] != 0u8
        invariant
            n <= buffer@.len(),
            forall|i: int| 0 <= i < n ==> buffer@[i] != 0u8,
        decreases buffer@.len() - n,
    {
        n += 1;
    }
    proof {
        lemma_c_len_is(buffer@, n as nat);
    }
    n
}

/// Reads the C string at the start of `buffer` as text, replacing what is not
/// valid UTF-8.
pub fn decode_c_str(buffer: &[u8]) -> (text: String)
    ensures
        text@ == utf8_lossy(c_text(buffer@)),
        valid_utf8(c_text(buffer@)) ==> text@ == decode_utf8(c_text(buffer@)),
{
    let n: usize = c_str_len(buffer);
    assert(buffer@.subrange(0, n as int) == c_text(buffer@));
    decode_lossy(slice_subrange(buffer, 0, n))
}

} // verus!
