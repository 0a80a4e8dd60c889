use lf2_codec::{
    caesar_cipher, data_header, decode_byte, encode_byte, DataDecoder, DataEncoder, DecodeError,
    EncodeError, Error, HEADER_LENGTH, KEY_LENGTH,
};

const EXPECTED_KEY: &[u8] = b"odBearBecauseHeIsVeryGoodSiuHungIsAGo";

const EXPECTED_HEADER: &[u8] = b"This is sample data as bytes. \
    The first 123 bytes are ignored during decoding, the rest are decoded using a caesar cipher. ";

const CHARACTER_DAT_ENCODED: &[u8] = b"\
    This is sample data as bytes. \
    The first 123 bytes are ignored during decoding, the rest are decoded using a caesar cipher. \
    \xab\xc6\xaf\xd5\xc0\xd4\xa7\xcc\xcc\xcf\xb3\
    \xe1\xc6\xb5\xca\x83\x93\x97\xdf\xe4\xe2\xac\
    \xdb\xab\xc6\xc0\xd9\xd4\xad\xe3\xd2\xa5";

#[test]
fn caesar_cipher_is_the_fixed_key() {
    let key = caesar_cipher();
    assert_eq!(EXPECTED_KEY, key.as_slice());
    assert_eq!(KEY_LENGTH, key.len());
}

#[test]
fn data_header_is_the_fixed_header() {
    let header = data_header();
    assert_eq!(EXPECTED_HEADER, header.as_slice());
    assert_eq!(HEADER_LENGTH, header.len());
    assert_eq!(123, header.len());
}

#[test]
fn encode_empty_input_yields_header_only() {
    let encoded = DataEncoder::encode(&[]).unwrap();
    assert_eq!(EXPECTED_HEADER, encoded.as_slice());
}

#[test]
fn encode_begins_with_header() {
    let data = b"arbitrary content \x00\xff";
    let encoded = DataEncoder::encode(data).unwrap();
    assert_eq!(HEADER_LENGTH + data.len(), encoded.len());
    assert_eq!(EXPECTED_HEADER, &encoded[..HEADER_LENGTH]);
}

#[test]
fn round_trip_restores_the_input() {
    let data: Vec<u8> = (0u8..=255).cycle().take(1000).collect();
    let encoded = DataEncoder::encode(&data).unwrap();
    let decoded = DataDecoder::decode(&encoded).unwrap();
    assert_eq!(data, decoded);
}

#[test]
fn round_trip_restores_the_empty_input() {
    let encoded = DataEncoder::encode(&[]).unwrap();
    let decoded = DataDecoder::decode(&encoded).unwrap();
    assert!(decoded.is_empty());
}

#[test]
fn decode_of_short_input_is_empty_not_an_error() {
    assert!(DataDecoder::decode(&[]).unwrap().is_empty());
    let one_byte = [0x41u8];
    assert!(DataDecoder::decode(&one_byte).unwrap().is_empty());
    let almost_header = vec![0x2au8; 122];
    assert!(DataDecoder::decode(&almost_header).unwrap().is_empty());
    let exactly_header = vec![0x2au8; 123];
    assert!(DataDecoder::decode(&exactly_header).unwrap().is_empty());
}

#[test]
fn byte_shift_wraps_around() {
    assert_eq!(0, encode_byte(255, 1));
    assert_eq!(255, decode_byte(0, 1));
    assert_eq!(255, encode_byte(255, 0));
    assert_eq!(0, decode_byte(255, 255));
}

#[test]
fn key_cycles_from_the_start_with_period_key_length() {
    let data = vec![0u8; KEY_LENGTH + 1];
    let encoded = DataEncoder::encode(&data).unwrap();
    let content = &encoded[HEADER_LENGTH..];
    let key = caesar_cipher();
    for i in 0..KEY_LENGTH {
        assert_eq!(key[i], content[i]);
    }
    assert_eq!(key[0], content[KEY_LENGTH]);
}

#[test]
fn encodes_the_character_dat_example() {
    let data = "<bmp_begin>name: Azriel<bmp_end>";
    let encoded = DataEncoder::encode(data.as_bytes()).unwrap();
    assert_eq!(CHARACTER_DAT_ENCODED, encoded.as_slice());
}

#[test]
fn decodes_the_character_dat_example() {
    let decoded = DataDecoder::decode(CHARACTER_DAT_ENCODED).unwrap();
    let expected = "<bmp_begin>name: Azriel<bmp_end>";
    assert_eq!(expected.as_bytes(), decoded.as_slice());
}

#[test]
fn errors_carry_the_underlying_io_error() {
    let cause = std::io::Error::new(std::io::ErrorKind::NotFound, "gone");
    let decode_error = DecodeError::from(cause);
    assert_eq!(std::io::ErrorKind::NotFound, decode_error.error.kind());
    assert_eq!("Failed to decode object data.", decode_error.message());

    let cause = std::io::Error::new(std::io::ErrorKind::PermissionDenied, "no");
    let encode_error = EncodeError::from(cause);
    assert_eq!(std::io::ErrorKind::PermissionDenied, encode_error.error.kind());
    assert_eq!("Failed to encode object data.", encode_error.message());
}

#[test]
fn unified_error_wraps_both_kinds() {
    let cause = std::io::Error::new(std::io::ErrorKind::NotFound, "gone");
    let unified = Error::from(DecodeError::from(cause));
    assert!(matches!(unified, Error::DecodeError(_)));
    assert_eq!("Failed to decode object data.", unified.message());

    let cause = std::io::Error::new(std::io::ErrorKind::NotFound, "gone");
    let unified = Error::from(EncodeError::from(cause));
    assert!(matches!(unified, Error::EncodeError(_)));
    assert_eq!("Failed to encode object data.", unified.message());
}
