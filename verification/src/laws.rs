//! Proved laws relating the encoder and the decoder.

use vstd::prelude::*;

use crate::cipher::{spec_header, spec_key, spec_key_byte, HEADER_LENGTH, KEY_LENGTH};
use crate::{spec_decode, spec_decode_byte, spec_encode, spec_encode_byte};

verus! {

/// Unshifting a shifted byte with the same key byte restores it: the byte
/// transforms are inverses for every byte and every key byte.
pub proof fn lemma_byte_round_trip(byte: u8, key: u8)
    ensures
        spec_decode_byte(spec_encode_byte(byte, key), key) == byte,
{
}

/// The shift of one content byte is exactly `(byte + key) mod 256`.
pub proof fn lemma_encode_byte_is_mod_256(byte: u8, key: u8)
    ensures
        spec_encode_byte(byte, key) == ((byte + key) % 256) as u8,
{
}

/// The inverse shift of one content byte is exactly `(byte - key) mod 256`,
/// with the Euclidean remainder, so decoding byte 0 with key byte 1 yields
/// 255, never a negative value.
pub proof fn lemma_decode_byte_is_mod_256(byte: u8, key: u8)
    ensures
        spec_decode_byte(byte, key) == ((byte - key) % 256) as u8,
{
}

/// Decoding an encoded sequence restores it: for every byte sequence `x`,
/// including the empty one, `decode(encode(x)) == x`.
pub proof fn lemma_round_trip(x: Seq<u8>)
    ensures
        spec_decode(spec_encode(x)) == x,
{
    let encoded = spec_encode(x);
    assert(encoded.len() == HEADER_LENGTH + x.len());
    assert forall|i: int| 0 <= i < x.len() implies spec_decode(encoded)[i] == x[i] by {
        let key = spec_key_byte(i % (KEY_LENGTH as int));
        assert(encoded[HEADER_LENGTH + i] == spec_encode_byte(x[i], key));
        lemma_byte_round_trip(x[i], key);
    }
    assert(spec_decode(encoded) =~= x);
}

/// Every encoded sequence begins with exactly the 123-byte data header,
/// whatever the input was.
pub proof fn lemma_header_emission(x: Seq<u8>)
    ensures
        spec_encode(x).len() == HEADER_LENGTH + x.len(),
        spec_encode(x).subrange(0, HEADER_LENGTH as int) == spec_header(),
{
    assert(spec_encode(x).subrange(0, HEADER_LENGTH as int) =~= spec_header());
}

/// An input shorter than the 123-byte header decodes to the empty sequence,
/// never to an error: the header skip tolerates short input.
pub proof fn lemma_short_input_decodes_empty(y: Seq<u8>)
    requires
        y.len() < HEADER_LENGTH,
    ensures
        spec_decode(y) == Seq::<u8>::empty(),
{
}

/// The key cycles with period `KEY_LENGTH`, starting at its first byte for
/// the first content byte: content byte `i` is shifted by key byte
/// `i % KEY_LENGTH`.
pub proof fn lemma_key_cycling(x: Seq<u8>, i: int)
    requires
        0 <= i < x.len(),
    ensures
        spec_encode(x)[HEADER_LENGTH + i] == spec_encode_byte(
            x[i],
            spec_key()[i % (KEY_LENGTH as int)],
        ),
{
}

} // verus!
