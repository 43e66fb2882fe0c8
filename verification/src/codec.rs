//! Encoding adapter: the venue delivers text as fixed-width, NUL-padded byte
//! buffers in a legacy multi-byte encoding (GB 18030). This module locates
//! the logical end of such a buffer, decodes the prefix under the legacy
//! encoding, and reports invalid sequences as a typed failure instead of
//! substituting or panicking. It also encodes text back into venue buffers.

use vstd::prelude::*;
use vstd::slice::{slice_index_get, slice_subrange};
use encoding::types::Encoding;

verus! {

/// A failure to decode a venue byte buffer.
#[derive(Clone, Copy, Debug, PartialEq, Eq, Structural)]
pub enum DecodeError {
    /// The bytes are not a valid sequence under the legacy encoding.
    InvalidSequence,
}

/// The text that the legacy (GB 18030) decoder yields for a byte sequence,
/// or `None` where the bytes are not a valid sequence under that encoding.
pub uninterp spec fn gb_decode_of(bytes: Seq<u8>) -> Option<Seq<char>>;

/// Relies on encoding's `Encoding::decode` with the GB 18030 codec and the
/// strict trap: it returns the decoded text exactly when the input is a
/// valid GB 18030 sequence, and reports an error otherwise; the result
/// depends on the input bytes alone.
#[verifier::external_body]
fn gb18030_decode(bytes: &[u8]) -> (r: Option<String>)
    ensures
        r is Some <==> gb_decode_of(bytes@) is Some,
        r matches Some(s) ==> gb_decode_of(bytes@) == Some(s@),
{
    match encoding::all::GB18030.decode(bytes, encoding::types::DecoderTrap::Strict) {
        Ok(s) => Some(s),
        Err(_) => None,
    }
}

/// Whether the venue encoder carries `text` faithfully. GB 18030 encodes
/// every Unicode scalar value, but this encoder maps U+E5E5 — a hole in its
/// two-byte index — into the four-byte range of a different character, so a
/// faithful round trip excludes that one scalar value.
pub open spec fn gb_encodable(text: Seq<char>) -> bool {
    !text.contains('\u{e5e5}')
}

/// Relies on encoding's `Encoding::encode` with the GB 18030 codec and the
/// strict trap: GB 18030 encodes every Unicode scalar value, so the call
/// never fails; for text free of U+E5E5 (the one scalar value this encoder
/// maps to bytes that decode differently) decoding the encoded bytes yields
/// the input text again; and the encoder emits a zero byte only for a NUL
/// character of the input.
#[verifier::external_body]
fn gb18030_encode(text: &str) -> (r: Vec<u8>)
    ensures
        gb_encodable(text@) ==> gb_decode_of(r@) == Some(text@),
        !text@.contains('\0') ==> !r@.contains(0u8),
{
    match encoding::all::GB18030.encode(text, encoding::types::EncoderTrap::Strict) {
        Ok(v) => v,
        Err(_) => Vec::new(),
    }
}

/// The index of the first NUL byte in `bytes`, or their length where none
/// occurs: the logical end of a fixed-width, NUL-padded venue string.
pub open spec fn first_nul(bytes: Seq<u8>) -> int
    decreases bytes.len(),
{
    if bytes.len() == 0 {
        0
    } else if bytes[0] == 0 {
        0
    } else {
        1 + first_nul(bytes.subrange(1, bytes.len() as int))
    }
}

/// The logical content of a fixed-width venue buffer: the bytes before the
/// first NUL, or the whole buffer where no NUL occurs.
pub open spec fn nul_prefix(bytes: Seq<u8>) -> Seq<u8> {
    bytes.subrange(0, first_nul(bytes))
}

pub proof fn lemma_first_nul_bounds(bytes: Seq<u8>)
    ensures
        0 <= first_nul(bytes) <= bytes.len(),
        forall|j: int| 0 <= j < first_nul(bytes) ==> bytes[j] != 0,
        first_nul(bytes) < bytes.len() ==> bytes[first_nul(bytes)] == 0,
    decreases bytes.len(),
{
    if bytes.len() == 0 {
    } else if bytes[0] == 0 {
    } else {
        let tail = bytes.subrange(1, bytes.len() as int);
        lemma_first_nul_bounds(tail);
        assert forall|j: int| 0 <= j < first_nul(bytes) implies bytes[j] != 0 by {
            if j > 0 {
                assert(tail[j - 1] != 0);
            }
        }
    }
}

/// A buffer free of NUL bytes is its own logical content.
pub proof fn lemma_nul_free_prefix(bytes: Seq<u8>)
    requires
        !bytes.contains(0u8),
    ensures
        nul_prefix(bytes) == bytes,
{
    lemma_first_nul_bounds(bytes);
    if first_nul(bytes) < bytes.len() {
        assert(bytes[first_nul(bytes)] == 0u8);
        assert(bytes.contains(0u8));
    }
    assert(bytes.subrange(0, bytes.len() as int) =~= bytes);
}

/// Decodes a fixed-width, NUL-padded venue buffer: the bytes before the
/// first NUL (or the whole buffer where none occurs) are decoded under the
/// legacy encoding; an invalid sequence is reported as a `DecodeError`,
/// never silently substituted.
pub fn decode(buffer: &[u8]) -> (r: Result<String, DecodeError>)
    ensures
        r is Ok <==> gb_decode_of(nul_prefix(buffer@)) is Some,
        r matches Ok(s) ==> gb_decode_of(nul_prefix(buffer@)) == Some(s@),
        r is Err ==> r == Result::<String, DecodeError>::Err(DecodeError::InvalidSequence),
{
    let n: usize = buffer.len();
    let mut i: usize = 0;
    while i < n && *slice_index_get(buffer, i) != 0
        invariant
            i <= n,
            n == buffer@.len(),
            forall|j: int| 0 <= j < i ==> buffer@[j] != 0,
        decreases n - i,
    {
        i = i + 1;
    }
    proof {
        lemma_first_nul_bounds(buffer@);
        let f = first_nul(buffer@);
        if f < i {
            assert(buffer@[f] != 0);
        }
        if i < f {
            assert(buffer@[i as int] != 0);
        }
    }
    let prefix = slice_subrange(buffer, 0, i);
    match gb18030_decode(prefix) {
        Some(text) => Ok(text),
        None => Err(DecodeError::InvalidSequence),
    }
}

/// Encodes text into a venue byte buffer under the legacy encoding. For
/// text the encoder carries faithfully (`gb_encodable`), decoding the
/// buffer yields the text again; and a text free of NUL characters yields a
/// buffer free of NUL bytes, so NUL-padding it cannot corrupt it.
pub fn encode(text: &str) -> (r: Vec<u8>)
    ensures
        gb_encodable(text@) ==> gb_decode_of(r@) == Some(text@),
        !text@.contains('\0') ==> !r@.contains(0u8),
{
    gb18030_encode(text)
}

/// Law: encoding a text free of NUL characters that the encoder carries
/// faithfully, and then decoding the resulting buffer, yields the original
/// text.
pub fn reencode(text: &str) -> (r: Result<String, DecodeError>)
    ensures
        (!text@.contains('\0') && gb_encodable(text@)) ==> (r matches Ok(t) && t@ == text@),
{
    let bytes = encode(text);
    proof {
        if !text@.contains('\0') && gb_encodable(text@) {
            lemma_nul_free_prefix(bytes@);
        }
    }
    decode(bytes.as_slice())
}

} // verus!
