use ariadne::base62::{parse_base62, to_base62, DecodingError};

#[test]
fn encodes_small_numbers() {
    assert_eq!(to_base62(0), "");
    assert_eq!(to_base62(9), "9");
    assert_eq!(to_base62(10), "A");
    assert_eq!(to_base62(36), "a");
    assert_eq!(to_base62(61), "z");
    assert_eq!(to_base62(62), "10");
    assert_eq!(to_base62(3843), "zz");
}

#[test]
fn decodes_known_values() {
    assert_eq!(parse_base62(""), Ok(0));
    assert_eq!(parse_base62("10"), Ok(62));
    assert_eq!(parse_base62("zz"), Ok(3843));
    assert_eq!(parse_base62("AANobbMI"), Ok(10 * 62u64.pow(7) + 10 * 62u64.pow(6) + 23 * 62u64.pow(5) + 50 * 62u64.pow(4) + 37 * 62u64.pow(3) + 37 * 62u64.pow(2) + 22 * 62 + 18));
}

#[test]
fn round_trips() {
    for n in [0u64, 1, 61, 62, 12345, 987654321, u64::MAX - 1, u64::MAX] {
        assert_eq!(parse_base62(&to_base62(n)), Ok(n));
    }
    assert_eq!(to_base62(u64::MAX), "LygHa16AHYF");
}

#[test]
fn rejects_invalid_characters() {
    assert_eq!(parse_base62("ab!c"), Err(DecodingError::InvalidBase62('!')));
    assert_eq!(parse_base62("-1"), Err(DecodingError::InvalidBase62('-')));
    assert_eq!(parse_base62("a b"), Err(DecodingError::InvalidBase62(' ')));
    assert_eq!(parse_base62("a!b?"), Err(DecodingError::InvalidBase62('!')));
    assert_eq!(parse_base62("é"), Err(DecodingError::InvalidBase62('é')));
}

#[test]
fn rejects_overflow() {
    assert_eq!(parse_base62("LygHa16AHYG"), Err(DecodingError::Overflow));
    assert_eq!(parse_base62("zzzzzzzzzzzz"), Err(DecodingError::Overflow));
    assert_eq!(parse_base62("zzzzzzzzzzzz!"), Err(DecodingError::InvalidBase62('!')));
    assert_eq!(parse_base62("LygHa16AHYG-"), Err(DecodingError::InvalidBase62('-')));
    assert_eq!(parse_base62("LygHa16AHYF"), Ok(u64::MAX));
}
