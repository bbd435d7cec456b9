use sed_manager_cli::uid::{parse_uid, UidError, UID};

#[test]
fn parse_uid_plain_digits() {
    assert_eq!(parse_uid("0000000900010001"), Ok(UID::new(0x0000_0009_0001_0001)));
}

#[test]
fn parse_uid_with_prefix_and_underscores() {
    assert_eq!(parse_uid("0x0000_0009_0001_0001"), Ok(UID::new(0x0000_0009_0001_0001)));
    assert_eq!(parse_uid("0x_0000_0802_0003_0001"), Ok(UID::new(0x0000_0802_0003_0001)));
}

#[test]
fn parse_uid_upper_and_lower_case() {
    assert_eq!(parse_uid("ABCDEF0123456789"), Ok(UID::new(0xABCD_EF01_2345_6789)));
    assert_eq!(parse_uid("abcdef0123456789"), Ok(UID::new(0xABCD_EF01_2345_6789)));
    assert_eq!(parse_uid("FFFFFFFFFFFFFFFF"), Ok(UID::new(u64::MAX)));
}

#[test]
fn parse_uid_surrounding_whitespace() {
    assert_eq!(parse_uid("  0x0000000900010001\t\n"), Ok(UID::new(0x0000_0009_0001_0001)));
    assert_eq!(parse_uid("\u{3000}0000000900010001\u{2003}"), Ok(UID::new(0x0000_0009_0001_0001)));
}

#[test]
fn parse_uid_repeated_prefix() {
    assert_eq!(parse_uid("0x0x0000000900010001"), Ok(UID::new(0x0000_0009_0001_0001)));
}

#[test]
fn parse_uid_prefix_only_stripped_at_start() {
    // "0X" is not the prefix; the text keeps 18 bytes.
    assert_eq!(parse_uid("0X0000000900010001"), Err(UidError::InvalidLength(18)));
}

#[test]
fn parse_uid_wrong_length() {
    assert_eq!(parse_uid("0x1234"), Err(UidError::InvalidLength(4)));
    assert_eq!(parse_uid(""), Err(UidError::InvalidLength(0)));
    assert_eq!(parse_uid("0x"), Err(UidError::InvalidLength(0)));
    assert_eq!(parse_uid("00000009000100011"), Err(UidError::InvalidLength(17)));
}

#[test]
fn parse_uid_counts_bytes_not_characters() {
    // 14 ASCII digits and one two-byte character: 16 bytes, not hexadecimal.
    assert_eq!(parse_uid("00000009000100é"), Err(UidError::InvalidHex));
    // 15 characters but 17 bytes.
    assert_eq!(parse_uid("00000009000100éé"), Err(UidError::InvalidLength(18)));
}

#[test]
fn parse_uid_not_hexadecimal() {
    assert_eq!(parse_uid("000000090001000g"), Err(UidError::InvalidHex));
    assert_eq!(parse_uid("-000000900010001"), Err(UidError::InvalidHex));
    assert_eq!(parse_uid("0000 00900010001"), Err(UidError::InvalidHex));
}

#[test]
fn parse_uid_accepts_plus_sign() {
    assert_eq!(parse_uid("+000000900010001"), Ok(UID::new(0x0000_0009_0001_0001)));
}

#[test]
fn parse_uid_underscore_before_inner_whitespace() {
    // Underscores are removed after trimming, so the space stays inside.
    assert_eq!(parse_uid("_ 000000900010001"), Err(UidError::InvalidHex));
}

#[test]
fn parse_uid_round_trip_examples() {
    for v in [0u64, 1, 0x0000_0009_0001_0001, 0xDEAD_BEEF_0000_0001, u64::MAX] {
        let text = format!("{:016x}", v);
        assert_eq!(parse_uid(&text), Ok(UID::new(v)));
        assert_eq!(parse_uid(&format!("0x{}", text)), Ok(UID::new(v)));
    }
}

#[test]
fn parse_uid_whitespace_law_example() {
    let s = "0x0000_0009_0001_0001";
    assert_eq!(parse_uid(&format!(" \t{}\r\n", s)), parse_uid(s));
    let bad = "0x12";
    assert_eq!(parse_uid(&format!("  {}  ", bad)), parse_uid(bad));
}

#[test]
fn uid_value_accessor() {
    assert_eq!(UID::new(42).value(), 42);
}

#[test]
fn parse_uid_round_trip_upper_case_and_groups() {
    for v in [0u64, 1, 0x0000_0009_0001_0001, 0xDEAD_BEEF_0000_0001, u64::MAX] {
        assert_eq!(parse_uid(&format!("{:016X}", v)), Ok(UID::new(v)));
        assert_eq!(parse_uid(&format!("0x{:016X}", v)), Ok(UID::new(v)));
        let grouped = format!(
            "{:04x}_{:04x}_{:04x}_{:04x}",
            v >> 48,
            (v >> 32) & 0xffff,
            (v >> 16) & 0xffff,
            v & 0xffff
        );
        assert_eq!(parse_uid(&grouped), Ok(UID::new(v)));
        assert_eq!(parse_uid(&format!("0x{}", grouped)), Ok(UID::new(v)));
        assert_eq!(parse_uid(&grouped.to_uppercase()), Ok(UID::new(v)));
    }
}

#[test]
fn parse_uid_underscore_insertion_examples() {
    for s in ["0x0000000900010001", "12", "0x", "00000009000100g1", "+000000900010001"] {
        for i in 0..=s.len() {
            let t = format!("{}_{}", &s[..i], &s[i..]);
            assert_eq!(parse_uid(&t), parse_uid(s));
            let tt = format!("__{}_{}__", &s[..i], &s[i..]);
            assert_eq!(parse_uid(&tt), parse_uid(s));
        }
    }
}

#[test]
fn uid_error_messages() {
    assert_eq!(
        UidError::InvalidLength(4).message(),
        "Invalid UID length: expected 16 hex digits, got 4"
    );
    assert_eq!(UidError::InvalidHex.message(), "Failed to parse UID hex string");
    assert_eq!(UidError::InvalidLength(17).cause(), None);
    assert_eq!(UidError::InvalidHex.cause(), Some("invalid digit found in string"));
    assert_eq!(
        u64::from_str_radix("000000090001000g", 16).unwrap_err().to_string(),
        UidError::InvalidHex.cause().unwrap()
    );
}
