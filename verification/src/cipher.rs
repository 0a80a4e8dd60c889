//! The fixed cipher key and data header shared by the encoder and decoder.

use vstd::prelude::*;

verus! {

/// Number of bytes in the caesar cipher key: the length of the ASCII
/// sequence `odBearBecauseHeIsVeryGoodSiuHungIsAGo`.
pub const KEY_LENGTH: usize = 37;

/// Number of bytes in the data header. Every encoded file begins with this
/// many header bytes, and the decoder discards this many bytes before
/// deciphering the rest.
pub const HEADER_LENGTH: usize = 123;

/// Byte `i` of the cipher key, the ASCII sequence
/// `odBearBecauseHeIsVeryGoodSiuHungIsAGo`.
///
/// Positions at or above `KEY_LENGTH` are never consulted: key bytes are
/// always looked up at a position reduced modulo `KEY_LENGTH`.
pub open spec fn spec_key_byte(i: int) -> u8 {
    if i == 0 {
        0x6f
    } else if i == 1 {
        0x64
    } else if i == 2 {
        0x42
    } else if i == 3 {
        0x65
    } else if i == 4 {
        0x61
    } else if i == 5 {
        0x72
    } else if i == 6 {
        0x42
    } else if i == 7 {
        0x65
    } else if i == 8 {
        0x63
    } else if i == 9 {
        0x61
    } else if i == 10 {
        0x75
    } else if i == 11 {
        0x73
    } else if i == 12 {
        0x65
    } else if i == 13 {
        0x48
    } else if i == 14 {
        0x65
    } else if i == 15 {
        0x49
    } else if i == 16 {
        0x73
    } else if i == 17 {
        0x56
    } else if i == 18 {
        0x65
    } else if i == 19 {
        0x72
    } else if i == 20 {
        0x79
    } else if i == 21 {
        0x47
    } else if i == 22 {
        0x6f
    } else if i == 23 {
        0x6f
    } else if i == 24 {
        0x64
    } else if i == 25 {
        0x53
    } else if i == 26 {
        0x69
    } else if i == 27 {
        0x75
    } else if i == 28 {
        0x48
    } else if i == 29 {
        0x75
    } else if i == 30 {
        0x6e
    } else if i == 31 {
        0x67
    } else if i == 32 {
        0x49
    } else if i == 33 {
        0x73
    } else if i == 34 {
        0x41
    } else if i == 35 {
        0x47
    } else {
        0x6f
    }
}

/// The whole cipher key as a sequence of bytes.
pub open spec fn spec_key() -> Seq<u8> {
    Seq::new(KEY_LENGTH as nat, |i: int| spec_key_byte(i))
}

/// Byte `i` of the data header, the 123-byte ASCII sequence
/// `This is sample data as bytes. The first 123 bytes are ignored during
/// decoding, the rest are decoded using a caesar cipher. `
/// (the trailing space included).
///
/// Positions at or above `HEADER_LENGTH` are never consulted.
pub open spec fn spec_header_byte(i: int) -> u8 {
    if i == 0 {
        0x54
    } else if i == 1 {
        0x68
    } else if i == 2 {
        0x69
    } else if i == 3 {
        0x73
    } else if i == 4 {
        0x20
    } else if i == 5 {
        0x69
    } else if i == 6 {
        0x73
    } else if i == 7 {
        0x20
    } else if i == 8 {
        0x73
    } else if i == 9 {
        0x61
    } else if i == 10 {
        0x6d
    } else if i == 11 {
        0x70
    } else if i == 12 {
        0x6c
    } else if i == 13 {
        0x65
    } else if i == 14 {
        0x20
    } else if i == 15 {
        0x64
    } else if i == 16 {
        0x61
    } else if i == 17 {
        0x74
    } else if i == 18 {
        0x61
    } else if i == 19 {
        0x20
    } else if i == 20 {
        0x61
    } else if i == 21 {
        0x73
    } else if i == 22 {
        0x20
    } else if i == 23 {
        0x62
    } else if i == 24 {
        0x79
    } else if i == 25 {
        0x74
    } else if i == 26 {
        0x65
    } else if i == 27 {
        0x73
    } else if i == 28 {
        0x2e
    } else if i == 29 {
        0x20
    } else if i == 30 {
        0x54
    } else if i == 31 {
        0x68
    } else if i == 32 {
        0x65
    } else if i == 33 {
        0x20
    } else if i == 34 {
        0x66
    } else if i == 35 {
        0x69
    } else if i == 36 {
        0x72
    } else if i == 37 {
        0x73
    } else if i == 38 {
        0x74
    } else if i == 39 {
        0x20
    } else if i == 40 {
        0x31
    } else if i == 41 {
        0x32
    } else if i == 42 {
        0x33
    } else if i == 43 {
        0x20
    } else if i == 44 {
        0x62
    } else if i == 45 {
        0x79
    } else if i == 46 {
        0x74
    } else if i == 47 {
        0x65
    } else if i == 48 {
        0x73
    } else if i == 49 {
        0x20
    } else if i == 50 {
        0x61
    } else if i == 51 {
        0x72
    } else if i == 52 {
        0x65
    } else if i == 53 {
        0x20
    } else if i == 54 {
        0x69
    } else if i == 55 {
        0x67
    } else if i == 56 {
        0x6e
    } else if i == 57 {
        0x6f
    } else if i == 58 {
        0x72
    } else if i == 59 {
        0x65
    } else if i == 60 {
        0x64
    } else if i == 61 {
        0x20
    } else if i == 62 {
        0x64
    } else if i == 63 {
        0x75
    } else if i == 64 {
        0x72
    } else if i == 65 {
        0x69
    } else if i == 66 {
        0x6e
    } else if i == 67 {
        0x67
    } else if i == 68 {
        0x20
    } else if i == 69 {
        0x64
    } else if i == 70 {
        0x65
    } else if i == 71 {
        0x63
    } else if i == 72 {
        0x6f
    } else if i == 73 {
        0x64
    } else if i == 74 {
        0x69
    } else if i == 75 {
        0x6e
    } else if i == 76 {
        0x67
    } else if i == 77 {
        0x2c
    } else if i == 78 {
        0x20
    } else if i == 79 {
        0x74
    } else if i == 80 {
        0x68
    } else if i == 81 {
        0x65
    } else if i == 82 {
        0x20
    } else if i == 83 {
        0x72
    } else if i == 84 {
        0x65
    } else if i == 85 {
        0x73
    } else if i == 86 {
        0x74
    } else if i == 87 {
        0x20
    } else if i == 88 {
        0x61
    } else if i == 89 {
        0x72
    } else if i == 90 {
        0x65
    } else if i == 91 {
        0x20
    } else if i == 92 {
        0x64
    } else if i == 93 {
        0x65
    } else if i == 94 {
        0x63
    } else if i == 95 {
        0x6f
    } else if i == 96 {
        0x64
    } else if i == 97 {
        0x65
    } else if i == 98 {
        0x64
    } else if i == 99 {
        0x20
    } else if i == 100 {
        0x75
    } else if i == 101 {
        0x73
    } else if i == 102 {
        0x69
    } else if i == 103 {
        0x6e
    } else if i == 104 {
        0x67
    } else if i == 105 {
        0x20
    } else if i == 106 {
        0x61
    } else if i == 107 {
        0x20
    } else if i == 108 {
        0x63
    } else if i == 109 {
        0x61
    } else if i == 110 {
        0x65
    } else if i == 111 {
        0x73
    } else if i == 112 {
        0x61
    } else if i == 113 {
        0x72
    } else if i == 114 {
        0x20
    } else if i == 115 {
        0x63
    } else if i == 116 {
        0x69
    } else if i == 117 {
        0x70
    } else if i == 118 {
        0x68
    } else if i == 119 {
        0x65
    } else if i == 120 {
        0x72
    } else if i == 121 {
        0x2e
    } else {
        0x20
    }
}

/// The whole data header as a sequence of bytes.
pub open spec fn spec_header() -> Seq<u8> {
    Seq::new(HEADER_LENGTH as nat, |i: int| spec_header_byte(i))
}

/// Returns byte `i` of the cipher key.
pub fn key_byte_at(i: usize) -> (key_byte: u8)
    requires
        i < KEY_LENGTH,
    ensures
        key_byte == spec_key_byte(i as int),
{
    if i == 0 {
        0x6f
    } else if i == 1 {
        0x64
    } else if i == 2 {
        0x42
    } else if i == 3 {
        0x65
    } else if i == 4 {
        0x61
    } else if i == 5 {
        0x72
    } else if i == 6 {
        0x42
    } else if i == 7 {
        0x65
    } else if i == 8 {
        0x63
    } else if i == 9 {
        0x61
    } else if i == 10 {
        0x75
    } else if i == 11 {
        0x73
    } else if i == 12 {
        0x65
    } else if i == 13 {
        0x48
    } else if i == 14 {
        0x65
    } else if i == 15 {
        0x49
    } else if i == 16 {
        0x73
    } else if i == 17 {
        0x56
    } else if i == 18 {
        0x65
    } else if i == 19 {
        0x72
    } else if i == 20 {
        0x79
    } else if i == 21 {
        0x47
    } else if i == 22 {
        0x6f
    } else if i == 23 {
        0x6f
    } else if i == 24 {
        0x64
    } else if i == 25 {
        0x53
    } else if i == 26 {
        0x69
    } else if i == 27 {
        0x75
    } else if i == 28 {
        0x48
    } else if i == 29 {
        0x75
    } else if i == 30 {
        0x6e
    } else if i == 31 {
        0x67
    } else if i == 32 {
        0x49
    } else if i == 33 {
        0x73
    } else if i == 34 {
        0x41
    } else if i == 35 {
        0x47
    } else {
        0x6f
    }
}

/// Returns byte `i` of the data header.
pub fn header_byte_at(i: usize) -> (header_byte: u8)
    requires
        i < HEADER_LENGTH,
    ensures
        header_byte == spec_header_byte(i as int),
{
    if i == 0 {
        0x54
    } else if i == 1 {
        0x68
    } else if i == 2 {
        0x69
    } else if i == 3 {
        0x73
    } else if i == 4 {
        0x20
    } else if i == 5 {
        0x69
    } else if i == 6 {
        0x73
    } else if i == 7 {
        0x20
    } else if i == 8 {
        0x73
    } else if i == 9 {
        0x61
    } else if i == 10 {
        0x6d
    } else if i == 11 {
        0x70
    } else if i == 12 {
        0x6c
    } else if i == 13 {
        0x65
    } else if i == 14 {
        0x20
    } else if i == 15 {
        0x64
    } else if i == 16 {
        0x61
    } else if i == 17 {
        0x74
    } else if i == 18 {
        0x61
    } else if i == 19 {
        0x20
    } else if i == 20 {
        0x61
    } else if i == 21 {
        0x73
    } else if i == 22 {
        0x20
    } else if i == 23 {
        0x62
    } else if i == 24 {
        0x79
    } else if i == 25 {
        0x74
    } else if i == 26 {
        0x65
    } else if i == 27 {
        0x73
    } else if i == 28 {
        0x2e
    } else if i == 29 {
        0x20
    } else if i == 30 {
        0x54
    } else if i == 31 {
        0x68
    } else if i == 32 {
        0x65
    } else if i == 33 {
        0x20
    } else if i == 34 {
        0x66
    } else if i == 35 {
        0x69
    } else if i == 36 {
        0x72
    } else if i == 37 {
        0x73
    } else if i == 38 {
        0x74
    } else if i == 39 {
        0x20
    } else if i == 40 {
        0x31
    } else if i == 41 {
        0x32
    } else if i == 42 {
        0x33
    } else if i == 43 {
        0x20
    } else if i == 44 {
        0x62
    } else if i == 45 {
        0x79
    } else if i == 46 {
        0x74
    } else if i == 47 {
        0x65
    } else if i == 48 {
        0x73
    } else if i == 49 {
        0x20
    } else if i == 50 {
        0x61
    } else if i == 51 {
        0x72
    } else if i == 52 {
        0x65
    } else if i == 53 {
        0x20
    } else if i == 54 {
        0x69
    } else if i == 55 {
        0x67
    } else if i == 56 {
        0x6e
    } else if i == 57 {
        0x6f
    } else if i == 58 {
        0x72
    } else if i == 59 {
        0x65
    } else if i == 60 {
        0x64
    } else if i == 61 {
        0x20
    } else if i == 62 {
        0x64
    } else if i == 63 {
        0x75
    } else if i == 64 {
        0x72
    } else if i == 65 {
        0x69
    } else if i == 66 {
        0x6e
    } else if i == 67 {
        0x67
    } else if i == 68 {
        0x20
    } else if i == 69 {
        0x64
    } else if i == 70 {
        0x65
    } else if i == 71 {
        0x63
    } else if i == 72 {
        0x6f
    } else if i == 73 {
        0x64
    } else if i == 74 {
        0x69
    } else if i == 75 {
        0x6e
    } else if i == 76 {
        0x67
    } else if i == 77 {
        0x2c
    } else if i == 78 {
        0x20
    } else if i == 79 {
        0x74
    } else if i == 80 {
        0x68
    } else if i == 81 {
        0x65
    } else if i == 82 {
        0x20
    } else if i == 83 {
        0x72
    } else if i == 84 {
        0x65
    } else if i == 85 {
        0x73
    } else if i == 86 {
        0x74
    } else if i == 87 {
        0x20
    } else if i == 88 {
        0x61
    } else if i == 89 {
        0x72
    } else if i == 90 {
        0x65
    } else if i == 91 {
        0x20
    } else if i == 92 {
        0x64
    } else if i == 93 {
        0x65
    } else if i == 94 {
        0x63
    } else if i == 95 {
        0x6f
    } else if i == 96 {
        0x64
    } else if i == 97 {
        0x65
    } else if i == 98 {
        0x64
    } else if i == 99 {
        0x20
    } else if i == 100 {
        0x75
    } else if i == 101 {
        0x73
    } else if i == 102 {
        0x69
    } else if i == 103 {
        0x6e
    } else if i == 104 {
        0x67
    } else if i == 105 {
        0x20
    } else if i == 106 {
        0x61
    } else if i == 107 {
        0x20
    } else if i == 108 {
        0x63
    } else if i == 109 {
        0x61
    } else if i == 110 {
        0x65
    } else if i == 111 {
        0x73
    } else if i == 112 {
        0x61
    } else if i == 113 {
        0x72
    } else if i == 114 {
        0x20
    } else if i == 115 {
        0x63
    } else if i == 116 {
        0x69
    } else if i == 117 {
        0x70
    } else if i == 118 {
        0x68
    } else if i == 119 {
        0x65
    } else if i == 120 {
        0x72
    } else if i == 121 {
        0x2e
    } else {
        0x20
    }
}

/// Key used to shift the ascii code of each object.
pub fn caesar_cipher() -> (key: Vec<u8>)
    ensures
        key@ == spec_key(),
{
    let mut key: Vec<u8> = Vec::with_capacity(KEY_LENGTH);
    let mut i: usize = 0;
    while i < KEY_LENGTH
        invariant
            i <= KEY_LENGTH,
            key@.len() == i,
            forall|j: int| 0 <= j < i ==> key@[j] == spec_key_byte(j),
        decreases KEY_LENGTH - i,
    {
        key.push(key_byte_at(i));
        i += 1;
    }
    assert(key@ =~= spec_key());
    key
}

/// Data used to fill the first 123 bytes of the data file. Strictly 123 bytes long.
pub fn data_header() -> (header: Vec<u8>)
    ensures
        header@ == spec_header(),
{
    let mut header: Vec<u8> = Vec::with_capacity(HEADER_LENGTH);
    let mut i: usize = 0;
    while i < HEADER_LENGTH
        invariant
            i <= HEADER_LENGTH,
            header@.len() == i,
            forall|j: int| 0 <= j < i ==> header@[j] == spec_header_byte(j),
        decreases HEADER_LENGTH - i,
    {
        header.push(header_byte_at(i));
        i += 1;
    }
    assert(header@ =~= spec_header());
    header
}

} // verus!
