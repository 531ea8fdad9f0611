use autogit_core::gitlab::client::{check_response, not_found_as_none, response_message, Endpoint, Method};
use autogit_core::gitlab::{AuthMethod, GitLabClient, Token};
use autogit_core::Error;

#[test]
fn builder_requires_url() {
    let result = GitLabClient::builder()
        .auth(AuthMethod::PrivateToken(Token::new("test")))
        .build();

    assert!(matches!(result, Err(Error::Config(_))));
}

#[test]
fn builder_requires_auth() {
    let result = GitLabClient::builder()
        .base_url("http://localhost:8080")
        .unwrap()
        .build();

    assert!(matches!(result, Err(Error::Config(_))));
}

#[test]
fn rejects_http_for_remote() {
    let result = GitLabClient::builder()
        .base_url("http://gitlab.example.com")
        .unwrap()
        .auth(AuthMethod::PrivateToken(Token::new("test")))
        .build();

    assert!(matches!(result, Err(Error::Config(_))));
}

#[test]
fn allows_http_for_localhost() {
    let result = GitLabClient::builder()
        .base_url("http://localhost:8080")
        .unwrap()
        .auth(AuthMethod::PrivateToken(Token::new("test")))
        .build();

    assert!(result.is_ok());
}

#[test]
fn remote_http_allowed_after_explicit_opt_in() {
    let result = GitLabClient::builder()
        .base_url("http://gitlab.example.com")
        .unwrap()
        .auth(AuthMethod::PrivateToken(Token::new("test")))
        .allow_insecure_localhost()
        .build();
    assert!(result.is_ok());
}

#[test]
fn private_lan_and_https_allowed() {
    for url in ["http://192.168.1.170:8080", "http://127.0.0.1", "https://gitlab.example.com"] {
        let result = GitLabClient::builder()
            .base_url(url)
            .unwrap()
            .auth(AuthMethod::PrivateToken(Token::new("t")))
            .build();
        assert!(result.is_ok(), "{}", url);
    }
}

#[test]
fn malformed_base_url_is_config_error() {
    let result = GitLabClient::builder().base_url("not a url");
    assert!(matches!(result, Err(Error::Config(_))));
}

#[test]
fn timeout_default_and_override() {
    let default = GitLabClient::builder()
        .base_url("https://gitlab.example.com")
        .unwrap()
        .auth(AuthMethod::PrivateToken(Token::new("t")))
        .build()
        .unwrap();
    assert_eq!(default.timeout_millis(), 30000);
    let custom = GitLabClient::builder()
        .timeout(5000)
        .base_url("https://gitlab.example.com")
        .unwrap()
        .auth(AuthMethod::PrivateToken(Token::new("t")))
        .build()
        .unwrap();
    assert_eq!(custom.timeout_millis(), 5000);
}

#[test]
fn request_url_and_auth_header() {
    let client = GitLabClient::builder()
        .base_url("http://localhost:8080")
        .unwrap()
        .auth(AuthMethod::OAuth2(Token::new("tok")))
        .build()
        .unwrap();
    assert_eq!(client.base_url(), "http://localhost:8080/");
    let call = client.request(&Endpoint::User(42));
    assert_eq!(call.method, Method::Get);
    assert_eq!(call.url, "http://localhost:8080/api/v4/users/42");
    assert_eq!(call.header, Some(("Authorization".to_string(), "Bearer tok".to_string())));

    let reg = client.request(&Endpoint::RegisterRunner);
    assert_eq!(reg.method, Method::Post);
    assert_eq!(reg.url, "http://localhost:8080/api/v4/runners");
    assert_eq!(reg.header, None);
}

#[test]
fn request_under_base_path() {
    let client = GitLabClient::builder()
        .base_url("https://example.com/gitlab/")
        .unwrap()
        .auth(AuthMethod::PrivateToken(Token::new("tok")))
        .build()
        .unwrap();
    let call = client.request(&Endpoint::TriggerMirrorPull(7));
    assert_eq!(call.url, "https://example.com/gitlab/api/v4/projects/7/mirror/pull");
    assert_eq!(call.header, Some(("PRIVATE-TOKEN".to_string(), "tok".to_string())));
}

#[test]
fn endpoint_paths_and_methods() {
    assert_eq!(Endpoint::ProjectByPath("mirrors/acme-widgets".to_string()).path(), "/projects/mirrors%2Facme-widgets");
    assert_eq!(Endpoint::NamespaceByPath("mirrors".to_string()).path(), "/namespaces/mirrors");
    assert_eq!(Endpoint::UserByUsername("dev".to_string()).path(), "/users?username=dev");
    assert_eq!(Endpoint::CreateUserToken(5).path(), "/users/5/personal_access_tokens");
    assert_eq!(Endpoint::ListProjects.path(), "/projects?per_page=100");
    assert_eq!(Endpoint::ListRunners.path(), "/runners/all?per_page=100");
    assert_eq!(Endpoint::DeleteProject(0).method(), Method::Delete);
    assert_eq!(Endpoint::ConfigureMirror(1).method(), Method::Put);
    assert_eq!(Endpoint::ResetRunnerToken.path(), "/runners/reset_registration_token");
    assert!(!Endpoint::RegisterRunner.authenticated());
    assert!(Endpoint::CurrentUser.authenticated());
}

#[test]
fn status_codes_are_classified() {
    assert!(check_response(200, "").is_ok());
    assert!(check_response(204, "").is_ok());
    assert!(matches!(check_response(401, "no"), Err(Error::Authentication(m)) if m == "no"));
    assert!(matches!(check_response(404, "gone"), Err(Error::UserNotFound(m)) if m == "gone"));
    assert!(matches!(check_response(409, "taken"), Err(Error::UserExists(m)) if m == "taken"));
    assert!(matches!(check_response(418, "teapot"), Err(Error::GitLabApi { status: 418, .. })));
    assert!(matches!(check_response(503, ""), Err(Error::GitLabApi { status: 503, .. })));
    assert!(matches!(check_response(302, ""), Err(Error::GitLabApi { status: 302, .. })));
}

#[test]
fn error_message_from_json_body() {
    assert_eq!(response_message("{\"message\":\"401 Unauthorized\"}"), "401 Unauthorized");
    assert_eq!(response_message("{\"error\":\"invalid_token\"}"), "invalid_token");
    assert_eq!(response_message("{\"message\":{\"name\":[\"taken\"]},\"error\":\"x\"}"), "{\"message\":{\"name\":[\"taken\"]},\"error\":\"x\"}");
    assert_eq!(response_message("plain text"), "plain text");
    match check_response(400, "{\"message\":\"bad\"}") {
        Err(Error::GitLabApi { status, message }) => {
            assert_eq!(status, 400);
            assert_eq!(message, "bad");
        }
        _ => panic!("expected an API error"),
    }
}

#[test]
fn retryable_classification() {
    for status in [429u16, 500, 502, 503, 599] {
        assert!(Error::gitlab_api(status, String::new()).is_retryable(), "{}", status);
    }
    for status in [400u16, 403, 422, 428, 430, 499] {
        assert!(!Error::gitlab_api(status, String::new()).is_retryable(), "{}", status);
    }
    for code in [401u16, 404, 409] {
        assert!(!Error::from_status(code, String::new()).is_retryable());
    }
    assert!(Error::Http { timeout: true, connect: false }.is_retryable());
    assert!(Error::Http { timeout: false, connect: true }.is_retryable());
    assert!(!Error::Http { timeout: false, connect: false }.is_retryable());
    assert!(!Error::Config(String::new()).is_retryable());
    assert!(!Error::Json.is_retryable());
    assert!(!Error::Url.is_retryable());
    assert!(!Error::Io(String::new()).is_retryable());
    assert!(!Error::Credential(String::new()).is_retryable());
}

#[test]
fn not_found_lookup_is_empty() {
    let found: Result<u32, Error> = Ok(3);
    assert!(matches!(not_found_as_none(found), Ok(Some(3))));
    let missing: Result<u32, Error> = Err(Error::UserNotFound("x".to_string()));
    assert!(matches!(not_found_as_none(missing), Ok(None)));
    let denied: Result<u32, Error> = Err(Error::Authentication("x".to_string()));
    assert!(matches!(not_found_as_none(denied), Err(Error::Authentication(_))));
}

#[test]
fn error_descriptions() {
    assert_eq!(Error::gitlab_api(500, "boom".to_string()).describe(), "GitLab API error: 500 - boom");
    assert_eq!(Error::Config("x".to_string()).describe(), "Invalid configuration: x");
    assert_eq!(Error::Url.describe(), "URL parse error");
    assert!(Error::Config(String::new()).is_config());
}
