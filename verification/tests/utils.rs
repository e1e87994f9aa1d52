use unit3d_announce::utils::{hex_decode, hex_encode, urlencoded_to_bytes, Error};

#[test]
fn urlencoded_all_percents() -> Result<(), Error> {
    let url_encoded = "%00%01%02%03%04%05%06%07%08%09%0A%0B%0C%0D%0E%0F%00%01%02%03";
    let bytes = urlencoded_to_bytes(url_encoded.as_bytes())?;
    assert_eq!(
        bytes,
        [
            0x00, 0x01, 0x02, 0x03, 0x04, 0x05, 0x06, 0x07, 0x08, 0x09, 0x0A, 0x0B, 0x0C, 0x0D, 0x0E, 0x0F, 0x00,
            0x01, 0x02, 0x03
        ]
    );
    Ok(())
}

#[test]
fn urlencoded_no_percents() -> Result<(), Error> {
    let url_encoded = "33333333333333333333";
    let bytes = urlencoded_to_bytes(url_encoded.as_bytes())?;
    assert_eq!(
        bytes,
        // ASCII character '3' is 0x33 in hex
        [
            0x33, 0x33, 0x33, 0x33, 0x33, 0x33, 0x33, 0x33, 0x33, 0x33, 0x33, 0x33, 0x33, 0x33, 0x33, 0x33, 0x33,
            0x33, 0x33, 0x33
        ]
    );
    Ok(())
}

#[test]
fn urlencoded_mixed_percents() -> Result<(), Error> {
    let url_encoded = "%00%01%02%03%04%05%06%07%08%09%0A%0B%0C%0D%0E%0F3333";
    let bytes = urlencoded_to_bytes(url_encoded.as_bytes())?;
    assert_eq!(
        bytes,
        [
            0x00, 0x01, 0x02, 0x03, 0x04, 0x05, 0x06, 0x07, 0x08, 0x09, 0x0A, 0x0B, 0x0C, 0x0D, 0x0E, 0x0F, 0x33,
            0x33, 0x33, 0x33
        ]
    );
    Ok(())
}

#[test]
fn urlencoded_incorrect_length() {
    let url_encoded = "%00";
    let bytes = urlencoded_to_bytes(url_encoded.as_bytes());
    assert!(bytes.is_err());
}

#[test]
fn urlencoded_too_many_percents() {
    let url_encoded = "%0%%01%02%03%04%05%06%07%08%09%0A%0B%0C%0D%0E%0F%00%01%02%03";
    let bytes = urlencoded_to_bytes(url_encoded.as_bytes());
    assert!(bytes.is_err());
}

#[test]
fn hex_decode_lowercase() -> Result<(), Error> {
    let lowercase_ascii_chars: [u8; 2] = [b'7', b'c'];
    let hex = hex_decode(lowercase_ascii_chars)?;
    assert_eq!(hex, 0x7C);
    Ok(())
}

#[test]
fn hex_decode_uppercase() -> Result<(), Error> {
    let uppercase_ascii_chars: [u8; 2] = [b'7', b'C'];
    let hex = hex_decode(uppercase_ascii_chars)?;
    assert_eq!(hex, 0x7C);
    Ok(())
}

#[test]
fn hex_decode_invalid() -> Result<(), Error> {
    let invalid_ascii_chars: [u8; 2] = [b'z', b'z'];
    let hex = hex_decode(invalid_ascii_chars);
    assert!(hex.is_err());
    Ok(())
}

#[test]
fn hex_encode_letters() {
    let hex: u8 = 0xCC;
    let chars = hex_encode(hex);
    assert_eq!(chars, [b'C', b'C']);
}

#[test]
fn hex_encode_numbers() {
    let hex: u8 = 0x77;
    let chars = hex_encode(hex);
    assert_eq!(chars, [b'7', b'7']);
}

#[test]
fn hex_encode_mixed() {
    let hex: u8 = 0x7C;
    let chars = hex_encode(hex);
    assert_eq!(chars, [b'7', b'C']);
}

#[test]
fn hex_round_trip_every_byte() {
    for b in 0..=255u8 {
        assert_eq!(hex_decode(hex_encode(b)).unwrap(), b);
    }
}

#[test]
fn urlencoded_invalid_digit_is_refused() {
    let url_encoded = "%zz%01%02%03%04%05%06%07%08%09%0A%0B%0C%0D%0E%0F%00%01%02%03";
    assert_eq!(urlencoded_to_bytes(url_encoded.as_bytes()).unwrap_err().0, "Invalid URL encoding.");
}

#[test]
fn urlencoded_too_long_is_refused() {
    let url_encoded = "333333333333333333333";
    assert_eq!(
        urlencoded_to_bytes(url_encoded.as_bytes()).unwrap_err().0,
        "Invalid 'info_hash' or 'peer_id' (must be 20 bytes long)."
    );
}

#[test]
fn urldecode_inverts_any_escaping() {
    let bytes: Vec<u8> = (0..20u8).map(|i| i * 13 + 7).collect();
    for mask in [0u32, 0xFFFFF, 0b1010_1010_1010_1010_1010, 0b1100_0011_1111_0000_0001] {
        let mut encoded = Vec::new();
        for (i, &b) in bytes.iter().enumerate() {
            if mask & (1 << i) != 0 || b == b'%' {
                encoded.push(b'%');
                encoded.extend_from_slice(&hex_encode(b));
            } else {
                encoded.push(b);
            }
        }
        assert_eq!(urlencoded_to_bytes(&encoded).unwrap().to_vec(), bytes);
    }
}
