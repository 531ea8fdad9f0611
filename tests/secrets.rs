use autogit_core::credentials::CredentialStore;
use autogit_core::gitlab::{AuthMethod, CreateUserRequest, Token};

#[test]
fn token_never_prints_value() {
    let token = Token::new("glpat-supersecret123");
    let debug = format!("{:?}", token);
    let display = token.to_display_string();

    assert!(!debug.contains("supersecret"));
    assert!(!display.contains("supersecret"));
    assert!(debug.contains("REDACTED"));
}

#[test]
fn token_validates_format() {
    assert!(Token::new("glpat-abcdefghij123456").is_valid_format());
    assert!(Token::new("12345678901234567890").is_valid_format());
    assert!(!Token::new("short").is_valid_format());
}

#[test]
fn token_expose_returns_value() {
    let token = Token::new("glpat-value");
    assert_eq!(token.expose(), "glpat-value");
    assert_eq!(token.duplicate().expose(), "glpat-value");
}

#[test]
fn debug_hides_values() {
    let mut store = CredentialStore::new();
    store.set("SECRET", "super_secret_value");

    let debug = format!("{:?}", store);
    assert!(!debug.contains("super_secret_value"));
    assert!(debug.contains("SECRET"));
}

#[test]
fn create_user_request_hides_password_in_debug() {
    let req = CreateUserRequest::new("test", "test@example.com", "Test", "secret123");
    let debug = format!("{:?}", req);
    assert!(!debug.contains("secret123"));
    assert_eq!(req.expose_password(), "secret123");
}

#[test]
fn auth_method_debug_and_display_hide_token() {
    for auth in [
        AuthMethod::PrivateToken(Token::new("tok-private-1")),
        AuthMethod::OAuth2(Token::new("tok-private-1")),
        AuthMethod::JobToken(Token::new("tok-private-1")),
    ] {
        let debug = format!("{:?}", auth);
        assert!(!debug.contains("tok-private-1"));
        assert!(debug.contains("REDACTED"));
        let shown = auth.to_display_string();
        assert!(!shown.contains("tok-private-1"));
        assert!(shown.contains("[REDACTED]"));
    }
    assert_eq!(
        AuthMethod::OAuth2(Token::new("x")).to_display_string(),
        "AuthMethod::OAuth2([REDACTED])"
    );
}

#[test]
fn auth_headers_per_method() {
    let p = AuthMethod::PrivateToken(Token::new("abc"));
    assert_eq!(p.header_name(), "PRIVATE-TOKEN");
    assert_eq!(p.header_value(), "abc");
    let o = AuthMethod::OAuth2(Token::new("abc"));
    assert_eq!(o.header_name(), "Authorization");
    assert_eq!(o.header_value(), "Bearer abc");
    let j = AuthMethod::JobToken(Token::new("abc"));
    assert_eq!(j.header_name(), "JOB-TOKEN");
    assert_eq!(j.header_value(), "abc");
}
