use autogit_core::credentials::CredentialStore;
use autogit_core::Error;

#[test]
fn parse_env_file() {
    let content = "# Comment\nKEY1='value1'\nKEY2=\"value2\"\nKEY3=value3\n\n";
    let store = CredentialStore::parse(content);

    assert_eq!(store.get_exposed("KEY1"), Some("value1".to_string()));
    assert_eq!(store.get_exposed("KEY2"), Some("value2".to_string()));
    assert_eq!(store.get_exposed("KEY3"), Some("value3".to_string()));
}

#[test]
fn parse_skips_lines_without_equals_and_trims() {
    let content = "  # indented comment\nNOEQUALS\r\n  SPACED  =  ' padded '  \r\nLATER=1\nLATER=2\n";
    let store = CredentialStore::parse(content);
    assert!(!store.contains("NOEQUALS"));
    assert_eq!(store.get_exposed("SPACED"), Some(" padded ".to_string()));
    assert_eq!(store.get_exposed("LATER"), Some("2".to_string()));
    assert_eq!(store.keys().len(), 2);
}

#[test]
fn parse_keeps_lone_quote() {
    let store = CredentialStore::parse("A='\nB=\"x'\n");
    assert_eq!(store.get_exposed("A"), Some("'".to_string()));
    assert_eq!(store.get_exposed("B"), Some("\"x'".to_string()));
}

#[test]
fn set_overwrites_and_remove_reports() {
    let mut store = CredentialStore::new();
    store.set("K", "1");
    store.set("K", "2");
    assert_eq!(store.get_exposed("K"), Some("2".to_string()));
    assert_eq!(store.keys(), vec!["K".to_string()]);
    assert!(store.remove("K"));
    assert!(!store.remove("K"));
    assert_eq!(store.get_exposed("K"), None);
    assert!(store.get("K").is_none());
}

#[test]
fn render_writes_header_and_quoted_lines() {
    let mut store = CredentialStore::new();
    store.set("A", "x");
    store.set("B", "it's");
    let text = store.render("2024-01-01T00:00:00+00:00");
    assert_eq!(
        text,
        "# Autogit credentials - KEEP SECURE\n# Generated: 2024-01-01T00:00:00+00:00\n\nA='x'\nB='it'\\''s'\n"
    );
}

#[test]
fn save_load_round_trip_values() {
    let mut store = CredentialStore::new();
    store.set("GITLAB_TOKEN_autogit_ci", "glpat-abc def");
    store.set("EMPTY", "");
    store.set("WITH_EQ", "a=b \"q\"");
    let text = store.render("2024-05-06T07:08:09+00:00");
    let back = CredentialStore::parse(&text);
    let mut keys = back.keys();
    keys.sort();
    assert_eq!(keys, vec!["EMPTY", "GITLAB_TOKEN_autogit_ci", "WITH_EQ"]);
    assert_eq!(back.get_exposed("GITLAB_TOKEN_autogit_ci"), Some("glpat-abc def".to_string()));
    assert_eq!(back.get_exposed("EMPTY"), Some(String::new()));
    assert_eq!(back.get_exposed("WITH_EQ"), Some("a=b \"q\"".to_string()));
}

#[test]
fn single_quote_survives_round_trip() {
    let mut store = CredentialStore::new();
    store.set("Q", "it's");
    store.set("ONLY", "'");
    store.set("MANY", "''a'b''");
    let back = CredentialStore::parse(&store.render("t"));
    assert_eq!(back.get_exposed("Q"), Some("it's".to_string()));
    assert_eq!(back.get_exposed("ONLY"), Some("'".to_string()));
    assert_eq!(back.get_exposed("MANY"), Some("''a'b''".to_string()));
}

#[test]
fn double_quoted_values_are_not_unescaped() {
    let store = CredentialStore::parse("D=\"a'\\''b\"\nS='a'\\''b'\n");
    assert_eq!(store.get_exposed("D"), Some("a'\\''b".to_string()));
    assert_eq!(store.get_exposed("S"), Some("a'b".to_string()));
}

#[test]
fn source_path_needs_a_file() {
    let store = CredentialStore::new();
    assert!(matches!(store.source_path(), Err(Error::Credential(_))));
    let loaded = CredentialStore::parse("A=1").with_file_path("/tmp/creds.env");
    assert_eq!(loaded.source_path().ok(), Some("/tmp/creds.env"));
    assert_eq!(loaded.file_path(), Some("/tmp/creds.env"));
}

#[test]
fn rendered_file_layout() {
    let mut store = CredentialStore::new();
    store.set("K1", "v1");
    store.set("K2", "a'b");
    let text = store.render("now");
    let lines: Vec<&str> = text.lines().collect();
    assert_eq!(lines.len(), 5);
    assert!(lines[0].starts_with('#'));
    assert_eq!(lines[1], "# Generated: now");
    assert_eq!(lines[2], "");
    assert_eq!(lines[3], "K1='v1'");
    assert_eq!(lines[4], "K2='a'\\''b'");
    assert!(text.ends_with('\n'));
}
