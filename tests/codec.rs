use wvn::codec::{decode, encode, is_ascii85_token, is_smaz_framed, DecodeError};

const DESCRIPTION: &str = "{\"type\":\"offer\",\"sdp\":\"v=0\\r\\no=- 4215775240449105457 2 IN IP4 127.0.0.1\\r\\ns=-\\r\\nt=0 0\\r\\n\"}";

#[test]
fn round_trip_session_description() {
    let token = encode(DESCRIPTION);
    assert_eq!(decode(&token), Ok(DESCRIPTION.to_string()));
}

#[test]
fn round_trip_empty_text() {
    let token = encode("");
    assert_eq!(decode(&token), Ok(String::new()));
}

#[test]
fn round_trip_non_ascii_text() {
    let text = "grüße, 世界 — ✓";
    assert_eq!(decode(&encode(text)), Ok(text.to_string()));
}

#[test]
fn round_trip_long_repetitive_text() {
    let text = "a=candidate:1 1 udp 2130706431 192.168.1.2 50000 typ host\r\n".repeat(40);
    assert_eq!(decode(&encode(&text)), Ok(text.clone()));
}

#[test]
fn token_is_framed_ascii85() {
    let token = encode("hello");
    assert!(token.starts_with("<~"));
    assert!(token.ends_with("~>"));
    assert_ne!(token, "hello");
    assert!(token.bytes().skip(2).take(token.len() - 4).all(|c| (33..=117).contains(&c)));
    assert!(is_ascii85_token(token.as_bytes()));
}

#[test]
fn decode_rejects_text_that_is_not_ascii85() {
    assert_eq!(decode("hello"), Err(DecodeError::NotAscii85));
    assert_eq!(decode(""), Err(DecodeError::NotAscii85));
    assert_eq!(decode("<~ab cd~>"), Err(DecodeError::NotAscii85));
    assert_eq!(decode("<~abcz~>"), Err(DecodeError::NotAscii85));
}

#[test]
fn decode_rejects_a_group_beyond_32_bits() {
    assert_eq!(decode("<~uuuuu~>"), Err(DecodeError::NotAscii85));
    assert_eq!(decode("<~uu~>"), Err(DecodeError::NotAscii85));
}

#[test]
fn decode_rejects_bytes_that_are_not_gzip() {
    assert_eq!(decode("<~~>"), Err(DecodeError::Inflate));
    assert_eq!(decode("<~9jqo^F*2M7/c~>"), Err(DecodeError::Inflate));
}

#[test]
fn decode_rejects_truncated_token() {
    let token = encode(DESCRIPTION);
    let body = &token[..token.len() - 7];
    let truncated = format!("{}~>", body);
    assert!(decode(&truncated).is_err());
    assert!(decode(&token[..token.len() - 2]).is_err());
}

fn flip(token: &str, pos: usize) -> String {
    let mut bytes = token.to_string().into_bytes();
    bytes[pos] = if bytes[pos] == b'A' { b'B' } else { b'A' };
    String::from_utf8(bytes).unwrap()
}

#[test]
fn decode_rejects_flipped_byte() {
    let token = encode(DESCRIPTION);
    for pos in [2usize, 20, token.len() / 2, token.len() - 3] {
        assert!(decode(&flip(&token, pos)).is_err(), "flip at {} was accepted", pos);
    }
}

#[test]
fn flipped_byte_never_yields_other_text() {
    let token = encode(DESCRIPTION);
    for pos in 0..token.len() {
        match decode(&flip(&token, pos)) {
            Ok(text) => assert_eq!(text, DESCRIPTION, "flip at {} changed the text", pos),
            Err(_) => {}
        }
    }
}

#[test]
fn ascii85_token_check() {
    assert!(is_ascii85_token(b"<~~>"));
    assert!(is_ascii85_token(b"<~9jqo^F*2M7/c~>"));
    assert!(is_ascii85_token(b"<~s8W-!~>"));
    assert!(!is_ascii85_token(b"<~s8W-\"~>"));
    assert!(!is_ascii85_token(b"<~~"));
    assert!(!is_ascii85_token(b"~><~"));
    assert!(!is_ascii85_token(b"<~ab~c~>"));
    assert!(!is_ascii85_token(b"<~uuuuu~>"));
    assert!(is_ascii85_token(b"<~!~>"));
}

#[test]
fn smaz_frame_check() {
    assert!(is_smaz_framed(&[]));
    assert!(is_smaz_framed(&[10, 20, 30]));
    assert!(!is_smaz_framed(&[254]));
    assert!(is_smaz_framed(&[254, 65]));
    assert!(!is_smaz_framed(&[10, 255]));
    assert!(is_smaz_framed(&[255, 1, 65, 66]));
    assert!(is_smaz_framed(&[255, 5, 65]));
    assert!(!is_smaz_framed(&[255, 0, 65, 254]));
}
