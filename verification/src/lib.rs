//! Encodes and decodes Little Fighter 2 (LF2) data files.
//!
//! An encoded data file is a fixed 123-byte header followed by the content
//! bytes, each shifted by a repeating caesar cipher key. Encoding prepends
//! the header and adds the cycling key bytes with wraparound; decoding skips
//! the header and subtracts the same key bytes. The transforms are stated
//! over mathematical byte sequences, and `decode` is proved to invert
//! `encode`.

use vstd::prelude::*;

mod cipher;
mod decode_error;
mod encode_error;
mod error;
mod laws;

pub use crate::cipher::{
    caesar_cipher, data_header, header_byte_at, key_byte_at, spec_header, spec_header_byte,
    spec_key, spec_key_byte, HEADER_LENGTH, KEY_LENGTH,
};
pub use crate::decode_error::DecodeError;
pub use crate::encode_error::EncodeError;
pub use crate::error::Error;
pub use crate::laws::{
    lemma_byte_round_trip, lemma_decode_byte_is_mod_256, lemma_encode_byte_is_mod_256,
    lemma_header_emission, lemma_key_cycling, lemma_round_trip, lemma_short_input_decodes_empty,
};

verus! {

/// Default number of bytes to allocate for the final result.
const DATA_CAPACITY_DEFAULT: usize = 1024;

/// The cipher shift of one content byte: adds the key byte with wraparound,
/// so that `(byte + key) mod 256` always fits in a byte.
pub open spec fn spec_encode_byte(byte: u8, key: u8) -> u8 {
    if byte + key > 255 {
        (byte + key - 256) as u8
    } else {
        (byte + key) as u8
    }
}

/// The inverse shift of one content byte: subtracts the key byte with
/// wraparound, so that `(byte - key) mod 256` always fits in a byte.
pub open spec fn spec_decode_byte(byte: u8, key: u8) -> u8 {
    if byte - key < 0 {
        (byte - key + 256) as u8
    } else {
        (byte - key) as u8
    }
}

/// What encoding produces: the 123-byte header, followed by one shifted byte
/// per input byte, the key cycling from its start for the first input byte.
pub open spec fn spec_encode(input: Seq<u8>) -> Seq<u8> {
    spec_header() + Seq::new(
        input.len(),
        |i: int| spec_encode_byte(input[i], spec_key_byte(i % (KEY_LENGTH as int))),
    )
}

/// What decoding produces: the first 123 input bytes are discarded, and each
/// remaining byte is unshifted, the key cycling from its start for the first
/// kept byte. Inputs shorter than the header decode to the empty sequence.
pub open spec fn spec_decode(input: Seq<u8>) -> Seq<u8> {
    if input.len() < HEADER_LENGTH {
        Seq::empty()
    } else {
        Seq::new(
            (input.len() - HEADER_LENGTH) as nat,
            |i: int| spec_decode_byte(
                input[HEADER_LENGTH + i],
                spec_key_byte(i % (KEY_LENGTH as int)),
            ),
        )
    }
}

/// Shifts one content byte by one key byte, with wraparound.
pub fn encode_byte(byte: u8, key: u8) -> (encoded: u8)
    ensures
        encoded == spec_encode_byte(byte, key),
{
    byte.wrapping_add(key)
}

/// Unshifts one content byte by one key byte, with wraparound.
pub fn decode_byte(byte: u8, key: u8) -> (decoded: u8)
    ensures
        decoded == spec_decode_byte(byte, key),
{
    byte.wrapping_sub(key)
}

/// Encodes data that the LF2 application may read.
#[derive(Debug)]
pub struct DataEncoder;

impl DataEncoder {
    /// Encodes object data for the LF2 application.
    ///
    /// The result always begins with the 123-byte data header, followed by
    /// one shifted byte per input byte. Reading from an in-memory slice
    /// cannot fail, so the call always succeeds; the error side exists for
    /// callers that feed the encoder from fallible byte sources.
    ///
    /// # Parameters
    ///
    /// * `stream`: The stream of object data to encode.
    pub fn encode(stream: &[u8]) -> (result: Result<Vec<u8>, EncodeError>)
        ensures
            result is Ok,
            result->Ok_0@ == spec_encode(stream@),
    {
        let mut encoded: Vec<u8> = Vec::with_capacity(DATA_CAPACITY_DEFAULT);
        let mut i: usize = 0;
        while i < HEADER_LENGTH
            invariant
                i <= HEADER_LENGTH,
                encoded@.len() == i,
                forall|j: int| 0 <= j < i ==> encoded@[j] == spec_header_byte(j),
            decreases HEADER_LENGTH - i,
        {
            encoded.push(header_byte_at(i));
            i += 1;
        }
        let mut pos: usize = 0;
        while pos < stream.len()
            invariant
                pos <= stream@.len(),
                encoded@.len() == HEADER_LENGTH + pos,
                forall|j: int| 0 <= j < HEADER_LENGTH ==> encoded@[j]
                    == spec_header_byte(j),
                forall|j: int| 0 <= j < pos ==> encoded@[HEADER_LENGTH + j] == spec_encode_byte(
                    stream@[j],
                    spec_key_byte(j % (KEY_LENGTH as int)),
                ),
            decreases stream@.len() - pos,
        {
            let key = key_byte_at(pos % KEY_LENGTH);
            encoded.push(stream[pos].wrapping_add(key));
            pos += 1;
        }
        assert(encoded@ =~= spec_encode(stream@));
        Ok(encoded)
    }
}

/// Decodes object data from LF2.
#[derive(Debug)]
pub struct DataDecoder;

impl DataDecoder {
    /// Decodes LF2 object data.
    ///
    /// The first 123 input bytes are discarded; each remaining byte is
    /// unshifted by the cycling key. An input shorter than the header is not
    /// an error: it decodes to an empty buffer. Reading from an in-memory
    /// slice cannot fail, so the call always succeeds; the error side exists
    /// for callers that feed the decoder from fallible byte sources.
    ///
    /// # Parameters
    ///
    /// * `stream`: The stream of encoded object data.
    pub fn decode(stream: &[u8]) -> (result: Result<Vec<u8>, DecodeError>)
        ensures
            result is Ok,
            result->Ok_0@ == spec_decode(stream@),
    {
        if stream.len() < HEADER_LENGTH {
            let decoded: Vec<u8> = Vec::new();
            return Ok(decoded);
        }
        let content_len: usize = stream.len() - HEADER_LENGTH;
        let mut decoded: Vec<u8> = Vec::with_capacity(DATA_CAPACITY_DEFAULT);
        let mut pos: usize = 0;
        while pos < content_len
            invariant
                stream@.len() == HEADER_LENGTH + content_len,
                HEADER_LENGTH + content_len <= usize::MAX,
                pos <= content_len,
                decoded@.len() == pos,
                forall|j: int| 0 <= j < pos ==> decoded@[j] == spec_decode_byte(
                    stream@[HEADER_LENGTH + j],
                    spec_key_byte(j % (KEY_LENGTH as int)),
                ),
            decreases content_len - pos,
        {
            let key = key_byte_at(pos % KEY_LENGTH);
            decoded.push(stream[HEADER_LENGTH + pos].wrapping_sub(key));
            pos += 1;
        }
        assert(decoded@ =~= spec_decode(stream@));
        Ok(decoded)
    }
}

} // verus!
