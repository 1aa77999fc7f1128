use authgate::token::TokenId;

fn sample_id() -> TokenId {
    TokenId { bytes: vec![0, 1, 2, 3, 4, 5, 6, 7, 8, 9, 10, 11, 12, 13, 14, 15] }
}

#[test]
fn compact_rendering_is_exact() {
    let t = sample_id();
    assert_eq!(t.simple().as_str(), "000102030405060708090a0b0c0d0e0f");
}

#[test]
fn hyphenated_rendering_is_exact() {
    let t = sample_id();
    assert_eq!(t.hyphenated().as_str(), "00010203-0405-0607-0809-0a0b0c0d0e0f");
    assert_eq!(t.hyphenated().len(), 36);
}

#[test]
fn high_nibbles_render() {
    let t = TokenId {
        bytes: vec![
            0xde, 0xad, 0xbe, 0xef, 0x00, 0xff, 0x10, 0x01, 0xab, 0xcd, 0xef, 0x99, 0x88, 0x77,
            0x66, 0x55,
        ],
    };
    assert_eq!(t.simple().as_str(), "deadbeef00ff1001abcdef9988776655");
    assert_eq!(t.hyphenated().as_str(), "deadbeef-00ff-1001-abcd-ef9988776655");
}

#[test]
fn parse_hyphenated_roundtrip() {
    let t = sample_id();
    let s = t.hyphenated();
    let p = TokenId::parse_str(s.as_str()).expect("hyphenated form must parse");
    assert_eq!(p.bytes, t.bytes);
}

#[test]
fn parse_compact_roundtrip() {
    let t = sample_id();
    let s = t.simple();
    let p = TokenId::parse_str(s.as_str()).expect("compact form must parse");
    assert_eq!(p.bytes, t.bytes);
}

#[test]
fn parse_accepts_uppercase() {
    let p = TokenId::parse_str("DEADBEEF-00FF-1001-ABCD-EF9988776655").expect("uppercase parses");
    assert_eq!(p.bytes[0], 0xde);
    assert_eq!(p.bytes[15], 0x55);
}

#[test]
fn parse_rejects_malformed() {
    assert!(TokenId::parse_str("").is_none());
    assert!(TokenId::parse_str("not-a-token").is_none());
    assert!(TokenId::parse_str("00010203-0405-0607-0809-0a0b0c0d0e0").is_none());
    assert!(TokenId::parse_str("00010203-0405-0607-0809-0a0b0c0d0e0f0").is_none());
    assert!(TokenId::parse_str("000102030405060708090a0b0c0d0e0g").is_none());
    assert!(TokenId::parse_str("00010203+0405-0607-0809-0a0b0c0d0e0f").is_none());
    assert!(TokenId::parse_str("0001020304050607-0809-0a0b-0c0d-0e0f").is_none());
    assert!(TokenId::parse_str("00010203-0405-0607-0809-0a0b0c0d0ezz").is_none());
}

#[test]
fn fresh_identifiers_render_and_parse() {
    let t = TokenId::fresh();
    assert_eq!(t.bytes.len(), 16);
    let s = t.hyphenated();
    assert_eq!(s.len(), 36);
    let p = TokenId::parse_str(s.as_str()).expect("a fresh token's rendering must parse");
    assert_eq!(p.bytes, t.bytes);
    let c = t.simple();
    assert_eq!(c.len(), 32);
}
