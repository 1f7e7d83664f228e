use bsky_viewer::session::{get_token_expiration, AuthError, BSkySession};

const HEADER: &str = "eyJhbGciOiJIUzI1NiIsInR5cCI6IkpXVCJ9";

fn jwt_with_claims(claims_b64: &str) -> String {
    format!("{}.{}.sig", HEADER, claims_b64)
}

// {"exp":1700000000000}
fn token_a() -> String {
    jwt_with_claims("eyJleHAiOjE3MDAwMDAwMDAwMDB9")
}

// {"exp":1700000001000}
fn token_b() -> String {
    jwt_with_claims("eyJleHAiOjE3MDAwMDAwMDEwMDB9")
}

#[test]
fn expiration_is_the_decoded_exp_claim() {
    let exp = get_token_expiration(&token_a()).unwrap();
    assert_eq!(exp, 1_700_000_000_000);
}

#[test]
fn expiration_of_garbage_is_malformed() {
    let r = get_token_expiration("definitely-not-a-jwt");
    assert_eq!(r, Err(AuthError::MalformedToken));
}

#[test]
fn expiration_without_exp_claim_is_malformed() {
    // {"iat":123}
    let r = get_token_expiration(&jwt_with_claims("eyJpYXQiOjEyM30"));
    assert_eq!(r, Err(AuthError::MalformedToken));
}

#[test]
fn expiration_out_of_calendar_range_is_malformed() {
    // {"exp":9223372036854775807}
    let r = get_token_expiration(&jwt_with_claims("eyJleHAiOjkyMjMzNzIwMzY4NTQ3NzU4MDd9"));
    assert_eq!(r, Err(AuthError::MalformedToken));
}

#[test]
fn expiration_with_non_numeric_exp_claim_is_malformed() {
    // {"exp":"1700000000000"} — the claim must be a number
    let claims = "eyJleHAiOiIxNzAwMDAwMDAwMDAwIn0";
    let r = get_token_expiration(&jwt_with_claims(claims));
    assert_eq!(r, Err(AuthError::MalformedToken));
}

#[test]
fn expiration_without_signature_segment_is_malformed() {
    let r = get_token_expiration(&format!("{}.{}", HEADER, "eyJleHAiOjE3MDAwMDAwMDAwMDB9"));
    assert_eq!(r, Err(AuthError::MalformedToken));
}

#[test]
fn session_from_tokens_stores_decoded_expiry() {
    let s = BSkySession::from_tokens(token_a(), String::from("refresh-1")).unwrap();
    assert_eq!(s.access_jwt, token_a());
    assert_eq!(s.access_jwt_exp, 1_700_000_000_000);
    assert_eq!(s.refresh_jwt, "refresh-1");
}

#[test]
fn session_from_bad_access_token_is_rejected() {
    let r = BSkySession::from_tokens(String::from("bad"), String::from("refresh-1"));
    assert!(matches!(r, Err(AuthError::MalformedToken)));
}

#[test]
fn expiry_comparison_is_strict() {
    let s = BSkySession::from_tokens(token_a(), String::from("r")).unwrap();
    assert!(!s.is_expired(1_699_999_999_999));
    assert!(!s.is_expired(1_700_000_000_000));
    assert!(s.is_expired(1_700_000_000_001));
}

#[test]
fn auth_token_picks_refresh_or_access() {
    let s = BSkySession::from_tokens(token_a(), String::from("refresh-1")).unwrap();
    assert_eq!(s.auth_token(false), &token_a());
    assert_eq!(s.auth_token(true), "refresh-1");
}

#[test]
fn successful_refresh_extends_expiry_and_swaps_tokens() {
    let mut s = BSkySession::from_tokens(token_a(), String::from("refresh-1")).unwrap();
    let before_exp = s.access_jwt_exp;
    let r = s.install_refreshed(token_b(), String::from("refresh-2"));
    assert!(r.is_ok());
    assert_eq!(s.access_jwt, token_b());
    assert_eq!(s.access_jwt_exp, 1_700_000_001_000);
    assert!(s.access_jwt_exp > before_exp);
    assert_ne!(s.access_jwt, token_a());
    assert_eq!(s.refresh_jwt, "refresh-2");
}

#[test]
fn failed_refresh_leaves_session_unchanged() {
    let mut s = BSkySession::from_tokens(token_a(), String::from("refresh-1")).unwrap();
    let r = s.install_refreshed(String::from("broken"), String::from("refresh-2"));
    assert!(matches!(r, Err(AuthError::MalformedToken)));
    assert_eq!(s.access_jwt, token_a());
    assert_eq!(s.access_jwt_exp, 1_700_000_000_000);
    assert_eq!(s.refresh_jwt, "refresh-1");
}
