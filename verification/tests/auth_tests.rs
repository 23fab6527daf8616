use mailflow_api::auth::{extract_token, AuthState, Claims};

#[test]
fn test_middleware_missing_token() {
    let result = extract_token(None);
    assert!(result.is_err());
    assert_eq!(result.unwrap_err(), "Missing Authorization header");
}

#[test]
fn test_middleware_invalid_format() {
    let result = extract_token(Some("InvalidFormat"));
    assert!(result.is_err());
    assert!(result.unwrap_err().contains("Bearer"));
}

#[test]
fn test_middleware_extracts_token() {
    let result = extract_token(Some("Bearer test-token-123"));
    assert!(result.is_ok());
    assert_eq!(result.unwrap(), "test-token-123");
}

#[test]
fn test_empty_bearer_token_rejected() {
    let result = extract_token(Some("Bearer "));
    assert!(result.is_err());
}

#[test]
fn test_wrong_scheme_rejected() {
    let result = extract_token(Some("Basic dXNlcjpwdw=="));
    assert!(result.is_err());
    assert!(result.unwrap_err().contains("Bearer"));
}

#[test]
fn test_auth_state_happy_path() {
    let state = AuthState::start();
    let state = state.extract(Some("Bearer tok"));
    match &state {
        AuthState::TokenExtracted(t) => assert_eq!(t, "tok"),
        _ => panic!("expected a token to be extracted"),
    }
    let claims = Claims { sub: "user-1".to_string(), email: "u@example.com".to_string() };
    let state = state.validate(Ok(claims));
    match state {
        AuthState::Validated(c) => {
            assert_eq!(c.sub, "user-1");
            assert_eq!(c.email, "u@example.com");
        },
        _ => panic!("expected validation to attach the claims"),
    }
}

#[test]
fn test_auth_state_rejects_on_validation_failure() {
    let state = AuthState::start().extract(Some("Bearer tok"));
    let state = state.validate(Err("signature expired".to_string()));
    match state {
        AuthState::Rejected(reason) => {
            assert_eq!(reason, "Invalid token: signature expired");
        },
        _ => panic!("expected a rejection"),
    }
}

#[test]
fn test_auth_state_rejects_on_missing_header() {
    let state = AuthState::start().extract(None);
    match state {
        AuthState::Rejected(reason) => assert_eq!(reason, "Missing Authorization header"),
        _ => panic!("expected a rejection"),
    }
}
