use chat_proxy::auth::{create_jwt, validate_jwt, TokenConfig};
use chrono::{Duration, Utc};

fn test_config() -> TokenConfig {
    TokenConfig::new("test_secret_key_very_secure".to_string(), 1)
}

#[test]
fn test_create_and_validate_jwt_ok() {
    let config = test_config();
    let user_id = "user123";

    let token = create_jwt(user_id, &config).expect("Failed to create JWT");

    let claims = validate_jwt(&token, &config).expect("Failed to validate JWT");

    assert_eq!(claims.sub, user_id);
    // Check expiration is roughly correct (within a few seconds of 1 hour from now)
    let now_ts = Utc::now().timestamp();
    let expected_exp_ts = Utc::now().checked_add_signed(Duration::hours(1)).unwrap().timestamp();
    assert!((claims.exp as i64 - expected_exp_ts).abs() < 5, "Expiration time mismatch");
    assert!(claims.exp as i64 > now_ts, "Token should not be expired yet");
}

#[test]
fn test_validate_jwt_expired() {
    let config = TokenConfig::new(
        "test_secret_key_very_secure".to_string(),
        -1, // Token expired an hour ago
    );
    let user_id = "user123";

    let token = create_jwt(user_id, &config).expect("Failed to create expired JWT");

    let result = validate_jwt(&token, &config);
    assert!(result.is_err());
    if let Err(e) = result {
        assert_eq!(e.kind(), &jsonwebtoken::errors::ErrorKind::ExpiredSignature);
    } else {
        panic!("Token should have been invalid (expired)");
    }
}

#[test]
fn test_validate_jwt_wrong_secret() {
    let config1 = test_config();
    let user_id = "user123";
    let token = create_jwt(user_id, &config1).expect("Failed to create JWT");

    let config2 = TokenConfig::new("wrong_secret_key".to_string(), 1);

    let result = validate_jwt(&token, &config2);
    assert!(result.is_err());
    if let Err(e) = result {
        assert_eq!(e.kind(), &jsonwebtoken::errors::ErrorKind::InvalidSignature);
    } else {
        panic!("Token should have been invalid (wrong secret)");
    }
}

#[test]
fn test_validate_jwt_tampered() {
    let config = test_config();
    let user_id = "user123";
    let token = create_jwt(user_id, &config).expect("Failed to create JWT");

    // Tamper with the token (e.g., append garbage)
    let tampered_token = format!("{}.garbage", token);

    let result = validate_jwt(&tampered_token, &config);
    assert!(result.is_err());
    // Appending garbage breaks the shape, the encoding, or the signature.
    match result.unwrap_err().kind() {
        jsonwebtoken::errors::ErrorKind::InvalidToken
        | jsonwebtoken::errors::ErrorKind::InvalidSignature
        | jsonwebtoken::errors::ErrorKind::Base64(_) => (),
        other_error => panic!("Unexpected error kind for tampered token: {:?}", other_error),
    }
}
