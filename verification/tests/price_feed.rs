use price_agent::price::{normalize_price_response, parse_price_payload, FeedError};

fn parse(s: &str) -> Result<u64, FeedError> {
    parse_price_payload(&s.as_bytes().to_vec())
}

#[test]
fn parses_typical_quote_payload() {
    assert_eq!(parse(r#"{"bitcoin":{"usd":65432.19}}"#), Ok(6_543_219));
}

#[test]
fn parses_integer_price() {
    assert_eq!(parse(r#"{"bitcoin":{"usd":97000}}"#), Ok(9_700_000));
}

#[test]
fn parses_single_fraction_digit_as_tens_of_cents() {
    assert_eq!(parse(r#"{"bitcoin":{"usd":1.5}}"#), Ok(150));
}

#[test]
fn truncates_beyond_two_fraction_digits() {
    // 0.299 dollars is 29 cents: truncation, not rounding.
    assert_eq!(parse(r#"{"bitcoin":{"usd":0.299}}"#), Ok(29));
    assert_eq!(parse(r#"{"bitcoin":{"usd":12.999}}"#), Ok(1_299));
}

#[test]
fn accepts_whitespace_around_colon() {
    assert_eq!(parse("{\"bitcoin\": {\"usd\" : \n 42.01}}"), Ok(4_201));
}

#[test]
fn rejects_payload_without_usd_field() {
    assert_eq!(parse(r#"{"bitcoin":{"eur":100}}"#), Err(FeedError::MalformedPayload));
}

#[test]
fn rejects_price_without_digits() {
    assert_eq!(parse(r#"{"bitcoin":{"usd":}}"#), Err(FeedError::MalformedPayload));
    assert_eq!(parse(r#"{"bitcoin":{"usd":"high"}}"#), Err(FeedError::MalformedPayload));
}

#[test]
fn rejects_point_without_fraction_digit() {
    assert_eq!(parse(r#"{"bitcoin":{"usd":12.}}"#), Err(FeedError::MalformedPayload));
}

#[test]
fn rejects_price_too_large_for_cents() {
    // 2^64 dollars does not fit u64 cents.
    assert_eq!(
        parse(r#"{"bitcoin":{"usd":18446744073709551616}}"#),
        Err(FeedError::MalformedPayload)
    );
}

#[test]
fn rejects_empty_payload() {
    assert_eq!(parse(""), Err(FeedError::MalformedPayload));
}

#[test]
fn non_200_status_is_bad_status() {
    let body = r#"{"bitcoin":{"usd":1}}"#.as_bytes().to_vec();
    assert_eq!(normalize_price_response(503, &body), Err(FeedError::BadStatus { status: 503 }));
    assert_eq!(normalize_price_response(200, &body), Ok(100));
}

#[test]
fn rejects_usd_outside_a_bitcoin_object() {
    // Valid JSON, but no bitcoin.usd at all.
    assert_eq!(parse(r#"{"usd":1}"#), Err(FeedError::MalformedPayload));
    // A bare usd key with no bitcoin object anywhere.
    assert_eq!(parse(r#"xx "usd": 42 yy"#), Err(FeedError::MalformedPayload));
}

#[test]
fn takes_usd_from_the_bitcoin_object_not_another() {
    // The first usd key of the payload belongs to another object; the one
    // inside the bitcoin object must win.
    assert_eq!(parse(r#"{"eth":{"usd":1},"bitcoin":{"usd":2}}"#), Ok(200));
}

#[test]
fn rejects_usd_after_the_bitcoin_object_closes() {
    // The only usd key stands outside the bitcoin object.
    assert_eq!(parse(r#"{"bitcoin":{"eur":1},"usd":3}"#), Err(FeedError::MalformedPayload));
}

#[test]
fn rejects_bitcoin_key_without_an_object() {
    assert_eq!(parse(r#"{"bitcoin":7,"usd":3}"#), Err(FeedError::MalformedPayload));
    assert_eq!(parse(r#"{"bitcoin":"usd"}"#), Err(FeedError::MalformedPayload));
}

#[test]
fn rejects_unclosed_bitcoin_object() {
    assert_eq!(parse(r#"{"bitcoin":{"usd":1"#), Err(FeedError::MalformedPayload));
}

#[test]
fn rejects_exponent_notation() {
    // 1e2 is one hundred dollars; silently reading it as 100 cents would
    // mis-scale the price, so an exponent is rejected outright.
    assert_eq!(parse(r#"{"bitcoin":{"usd":1e2}}"#), Err(FeedError::MalformedPayload));
    assert_eq!(parse(r#"{"bitcoin":{"usd":1E2}}"#), Err(FeedError::MalformedPayload));
    assert_eq!(parse(r#"{"bitcoin":{"usd":1.5e3}}"#), Err(FeedError::MalformedPayload));
    assert_eq!(parse(r#"{"bitcoin":{"usd":12.99E1}}"#), Err(FeedError::MalformedPayload));
}

#[test]
fn rejects_payload_not_opening_with_a_brace() {
    // The quote is an object; junk before the opening brace is malformed.
    assert_eq!(parse(r#"xx"bitcoin":{"usd":5}yy"#), Err(FeedError::MalformedPayload));
    assert_eq!(parse(r#"["bitcoin",{"usd":5}]"#), Err(FeedError::MalformedPayload));
    // Leading whitespace before the brace is fine.
    assert_eq!(parse("  \n {\"bitcoin\":{\"usd\":5}}"), Ok(500));
}
