use rcli::{
    Base64Format, CryptoError, decode_bytes, encode_bytes, parse_base64_format, process_decode,
    process_encode,
};

#[test]
fn test_base64_codec() {
    let encoded = process_encode("Hello, World!", &Base64Format::Standard);
    let decoded = process_decode(&encoded, &Base64Format::Standard).unwrap();
    assert_eq!("Hello, World!", decoded);
}

#[test]
fn standard_encoding_has_the_expected_text() {
    assert_eq!(
        process_encode("Hello, World!", &Base64Format::Standard),
        "SGVsbG8sIFdvcmxkIQ=="
    );
    assert_eq!(
        process_encode("Hello, World!", &Base64Format::UrlSafe),
        "SGVsbG8sIFdvcmxkIQ"
    );
}

#[test]
fn url_safe_round_trip_for_both_signature_lengths() {
    let tag: Vec<u8> = (0u8..32).collect();
    let sig: Vec<u8> = (100u8..164).collect();
    assert_eq!(tag.len(), 32);
    assert_eq!(sig.len(), 64);

    for data in [&tag, &sig] {
        let text = encode_bytes(data, &Base64Format::UrlSafe);
        let back = decode_bytes(&text, &Base64Format::UrlSafe).unwrap();
        assert_eq!(&back, data);

        let text = encode_bytes(data, &Base64Format::Standard);
        let back = decode_bytes(&text, &Base64Format::Standard).unwrap();
        assert_eq!(&back, data);
    }
}

#[test]
fn url_safe_encoding_has_no_padding_and_url_safe_alphabet() {
    let data = [0xfbu8, 0xff, 0xbf, 0xfe];
    let text = encode_bytes(&data, &Base64Format::UrlSafe);
    assert!(!text.contains('='));
    assert!(!text.contains('+'));
    assert!(!text.contains('/'));

    let standard = encode_bytes(&data, &Base64Format::Standard);
    assert_eq!(standard, "+/+//g==");
    assert_eq!(text, "-_-__g");
}

#[test]
fn malformed_base64_gives_encoding_error() {
    assert!(matches!(
        decode_bytes("!!!", &Base64Format::Standard),
        Err(CryptoError::EncodingError)
    ));
    // valid standard padding is not valid url-safe-no-pad input
    assert!(matches!(
        decode_bytes("SGVsbG8sIFdvcmxkIQ==", &Base64Format::UrlSafe),
        Err(CryptoError::EncodingError)
    ));
}

#[test]
fn decoded_bytes_that_are_not_utf8_give_encoding_error() {
    let data = [0xffu8, 0xfe];
    let text = encode_bytes(&data, &Base64Format::Standard);
    assert!(matches!(
        process_decode(&text, &Base64Format::Standard),
        Err(CryptoError::EncodingError)
    ));
}

#[test]
fn format_names_round_trip() {
    for format in [Base64Format::Standard, Base64Format::UrlSafe] {
        assert_eq!(parse_base64_format(format.as_str()), Ok(format));
    }
}

#[test]
fn parse_base64_format_names() {
    assert!(matches!(
        parse_base64_format("standard"),
        Ok(Base64Format::Standard)
    ));
    assert!(matches!(parse_base64_format("url"), Ok(Base64Format::UrlSafe)));
    assert_eq!(parse_base64_format("base32"), Err("Invalid base64 format."));
}
