use base64::Engine;
use vorstand_auth::jwt::{add_padding, check_token_expiry, check_token_expiry_at, token_exp, token_payload, TokenError};

fn encode_unpadded(payload: &str) -> String {
    let enc = base64::engine::general_purpose::STANDARD.encode(payload.as_bytes());
    enc.trim_end_matches('=').to_string()
}

fn token_with_payload(payload: &str) -> String {
    format!("header.{}.signature", encode_unpadded(payload))
}

const FAR_FUTURE: i64 = 9999999999;
const PAST: i64 = 1000;

#[test]
fn future_exp_is_valid() {
    let token = token_with_payload("{\"exp\":9999999999}");
    assert_eq!(check_token_expiry_at(&token, 1700000000), Ok(true));
}

#[test]
fn past_exp_is_expired() {
    let token = token_with_payload("{\"exp\":1000}");
    assert_eq!(check_token_expiry_at(&token, 1700000000), Ok(false));
}

#[test]
fn exp_equal_to_now_is_expired() {
    let token = token_with_payload("{\"exp\":1700000000}");
    assert_eq!(check_token_expiry_at(&token, 1700000000), Ok(false));
}

#[test]
fn no_separator_is_malformed() {
    assert_eq!(check_token_expiry_at("abc", 0), Err(TokenError::Malformed));
}

#[test]
fn one_separator_is_malformed() {
    assert_eq!(check_token_expiry_at("a.b", 0), Err(TokenError::Malformed));
}

#[test]
fn three_separators_are_malformed() {
    assert_eq!(check_token_expiry_at("a.b.c.d", 0), Err(TokenError::Malformed));
}

#[test]
fn empty_token_is_malformed() {
    assert_eq!(check_token_expiry_at("", 0), Err(TokenError::Malformed));
}

#[test]
fn payload_is_the_middle_segment() {
    assert_eq!(token_payload("a.bb.c"), Some("bb"));
    assert_eq!(token_payload("a.b"), None);
    assert_eq!(token_payload("a.b.c.d"), None);
    assert_eq!(token_payload("..x"), Some(""));
}

#[test]
fn padding_added_up_to_multiple_of_four() {
    assert_eq!(add_padding("a"), "a===");
    assert_eq!(add_padding("ab"), "ab==");
    assert_eq!(add_padding("abc"), "abc=");
}

#[test]
fn padding_leaves_aligned_input_unchanged() {
    assert_eq!(add_padding(""), "");
    assert_eq!(add_padding("abcd"), "abcd");
    assert_eq!(add_padding("abcdefgh"), "abcdefgh");
}

#[test]
fn unpadded_payloads_of_every_remainder_decode() {
    // JSON payloads whose base64 encodings have lengths of remainder 0, 2
    // and 3 modulo 4 once their `=` padding is stripped.
    for claims in ["{\"exp\":5}", "{\"exp\":55}", "{\"exp\":555}"] {
        let token = token_with_payload(claims);
        assert_eq!(check_token_expiry_at(&token, FAR_FUTURE), Ok(false));
        assert_eq!(check_token_expiry_at(&token, 0), Ok(true));
    }
}

#[test]
fn invalid_base64_payload_fails_decode() {
    assert_eq!(check_token_expiry_at("a.!!!.b", 0), Err(TokenError::Decode));
}

#[test]
fn non_json_payload_fails_parse() {
    let token = token_with_payload("this is not json");
    assert_eq!(check_token_expiry_at(&token, 0), Err(TokenError::Parse));
}

#[test]
fn absent_exp_claim_is_reported() {
    let token = token_with_payload("{\"iat\":1}");
    assert_eq!(check_token_expiry_at(&token, 0), Err(TokenError::MissingClaim));
}

#[test]
fn non_integer_exp_claim_is_reported() {
    let token = token_with_payload("{\"exp\":\"soon\"}");
    assert_eq!(check_token_expiry_at(&token, 0), Err(TokenError::MissingClaim));
    let token = token_with_payload("{\"exp\":1.5}");
    assert_eq!(check_token_expiry_at(&token, 0), Err(TokenError::MissingClaim));
}

#[test]
fn exp_claim_is_extracted_exactly() {
    let token = token_with_payload("{\"exp\":1234567890}");
    assert_eq!(token_exp(&token), Ok(1234567890));
    let token = token_with_payload("{\"exp\":-7}");
    assert_eq!(token_exp(&token), Ok(-7));
}

#[test]
fn wall_clock_check_accepts_far_future() {
    let token = token_with_payload(&format!("{{\"exp\":{}}}", FAR_FUTURE));
    assert_eq!(check_token_expiry(token), Ok(true));
}

#[test]
fn wall_clock_check_rejects_past() {
    let token = token_with_payload(&format!("{{\"exp\":{}}}", PAST));
    assert_eq!(check_token_expiry(token), Ok(false));
}

#[test]
fn error_messages_are_descriptive() {
    assert_eq!(TokenError::Malformed.message(), "Invalid JWT format");
    assert_eq!(TokenError::Decode.message(), "Base64 decode error");
    assert_eq!(TokenError::Parse.message(), "JSON parse error");
    assert_eq!(TokenError::MissingClaim.message(), "Missing exp claim");
    assert_eq!(TokenError::Clock.message(), "Clock error");
}
