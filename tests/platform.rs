use autogit_core::bootstrap::{
    account_display_name, account_step, credential_key, password_from_draws, require_admin,
    AccountStep, PASSWORD_KEY_PREFIX,
};
use autogit_core::config::file::{
    redact_line, default_direction, default_namespace, BootstrapConfig, GitHubMirrorConfig, GitLabConfig,
    MirrorsConfig, RunnersConfig, ServiceConfig, UserConfig,
};
use autogit_core::config::{AutogitConfig, Config};
use autogit_core::gitlab::runners::{online_runners, runner_counts};
use autogit_core::gitlab::tokens::CalendarDate;
use autogit_core::gitlab::{
    CreateTokenRequest, PersonalAccessToken, Runner, RunnerStatus, RunnerType, TokenScope,
    UpdateRunnerRequest, UserRole,
};
use autogit_core::output::{cache_is_fresh, prompt_status, OutputFormat};
use autogit_core::text::decimal_string;
use autogit_core::Error;

#[test]
fn user_role_access_levels() {
    assert_eq!(UserRole::Guest.as_access_level(), 10);
    assert_eq!(UserRole::Developer.as_access_level(), 30);
    assert_eq!(UserRole::Owner.as_access_level(), 50);
}

#[test]
fn expires_in_days() {
    let today = CalendarDate { year: 2024, month: 1, day: 1 };
    let request = CreateTokenRequest::new("test", vec![TokenScope::Api]).expires_in_days(today, 365);
    assert!(request.expires_at.is_some());
    assert_eq!(request.expires_at, Some(CalendarDate { year: 2024, month: 12, day: 31 }));
}

#[test]
fn token_expiry_check() {
    let mut pat = PersonalAccessToken {
        id: 1,
        name: "t".to_string(),
        revoked: false,
        created_at: String::new(),
        scopes: vec![],
        expires_at: Some("2024-03-01".to_string()),
        token: None,
    };
    assert!(pat.is_active());
    assert!(pat.is_expired(CalendarDate { year: 2024, month: 3, day: 2 }));
    assert!(!pat.is_expired(CalendarDate { year: 2024, month: 3, day: 1 }));
    pat.expires_at = Some("garbage".to_string());
    assert!(!pat.is_expired(CalendarDate { year: 2030, month: 1, day: 1 }));
    assert!(pat.token().is_none());
}

#[test]
fn scope_sets() {
    assert_eq!(TokenScope::automation(), vec![TokenScope::Api, TokenScope::ReadRepository, TokenScope::WriteRepository]);
    assert_eq!(TokenScope::readonly(), vec![TokenScope::ReadApi, TokenScope::ReadRepository]);
    assert_eq!(TokenScope::backup(), vec![TokenScope::Api, TokenScope::ReadRepository, TokenScope::Sudo]);
}

#[test]
fn update_runner_requests() {
    let p = UpdateRunnerRequest::pause();
    assert_eq!(p.paused, Some(true));
    assert!(p.active.is_none());
    assert_eq!(UpdateRunnerRequest::deactivate().active, Some(false));
}

fn runner(id: u64, status: RunnerStatus, paused: bool, active: bool) -> Runner {
    Runner {
        id,
        description: None,
        ip_address: None,
        active,
        paused,
        is_shared: false,
        runner_type: RunnerType::InstanceType,
        name: None,
        online: status == RunnerStatus::Online,
        status,
        tag_list: vec![],
    }
}

#[test]
fn runner_tallies() {
    let rs = vec![
        runner(1, RunnerStatus::Online, false, true),
        runner(2, RunnerStatus::Offline, true, true),
        runner(3, RunnerStatus::Stale, false, false),
        runner(4, RunnerStatus::Online, true, true),
    ];
    let c = runner_counts(&rs);
    assert_eq!((c.total, c.online, c.offline, c.paused, c.active), (4, 2, 1, 2, 3));
    let online: Vec<u64> = online_runners(rs).iter().map(|r| r.id).collect();
    assert_eq!(online, vec![1, 4]);
}

#[test]
fn passwords_from_draws() {
    let draws: Vec<u8> = vec![0, 25, 26, 51, 52, 61];
    assert_eq!(password_from_draws(&draws, 1234), "azAZ09#Ag1234");
}

#[test]
fn credential_keys() {
    assert_eq!(credential_key(PASSWORD_KEY_PREFIX, "autogit-ci"), "GITLAB_PASSWORD_autogit_ci");
    assert_eq!(account_display_name("CI Service", true), "CI Service (Service)");
    assert_eq!(account_display_name("Kang", false), "Kang");
}

#[test]
fn bootstrap_steps() {
    assert_eq!(account_step(false, true, false, false), AccountStep::Skip);
    assert_eq!(account_step(true, true, true, false), AccountStep::Exists);
    assert_eq!(account_step(true, false, false, true), AccountStep::Report);
    assert_eq!(account_step(false, false, false, false), AccountStep::Create);
    assert!(matches!(require_admin(false), Err(Error::Authentication(_))));
    assert!(require_admin(true).is_ok());
}

#[test]
fn config_defaults() {
    let config = Config::from_values(None, None, None, None, None, None);
    assert_eq!(config.gitlab_url, "http://localhost:8080");
    assert!(config.gitlab_token.is_none());
    assert_eq!(config.log_level, "info");
    assert!(matches!(config.auth(), Err(Error::Config(m)) if m.contains("GITLAB_TOKEN")));
    let set = Config::from_values(None, Some("https://g".to_string()), None, Some("t".to_string()), None, None);
    assert_eq!(set.gitlab_url, "https://g");
    assert_eq!(set.auth().unwrap().header_value(), "t");
}

fn user(username: &str, email: &str) -> UserConfig {
    UserConfig { username: username.to_string(), email: email.to_string(), name: None, admin: false, role: None }
}

fn mirror(repo: &str) -> GitHubMirrorConfig {
    GitHubMirrorConfig { repo: repo.to_string(), target: None, direction: default_direction(), protected_only: false, schedule: None }
}

fn config_with(url: &str, users: Vec<UserConfig>, services: Vec<ServiceConfig>, github: Vec<GitHubMirrorConfig>) -> AutogitConfig {
    AutogitConfig {
        gitlab: GitLabConfig { url: url.to_string(), token: None },
        bootstrap: BootstrapConfig { users, services },
        mirrors: MirrorsConfig { default_namespace: default_namespace(), github, gitlab: vec![] },
        runners: RunnersConfig::default(),
    }
}

#[test]
fn validate_config() {
    let config = config_with(
        "http://192.168.1.170:8080",
        vec![user("sysadmin", "sysadmin@example.com"), user("dev", "dev@example.com")],
        vec![ServiceConfig {
            username: "autogit-ci".to_string(),
            email: "ci@example.com".to_string(),
            scopes: vec!["api".to_string(), "read_repository".to_string(), "write_repository".to_string()],
            admin: false,
            token_expiry_days: 365,
        }],
        vec![mirror("rust-lang/rust-analyzer"), mirror("tokio-rs/tokio")],
    );
    config.validate().unwrap();
}

#[test]
fn reject_invalid_mirror() {
    let config = config_with("http://localhost", vec![], vec![], vec![mirror("invalid-no-slash")]);
    assert!(config.validate().is_err());
}

#[test]
fn validation_errors() {
    assert!(matches!(config_with("", vec![], vec![], vec![]).validate(), Err(Error::Config(_))));
    assert!(matches!(config_with("u", vec![user("", "e")], vec![], vec![]).validate(), Err(Error::Config(_))));
    assert!(matches!(config_with("u", vec![user("a", "")], vec![], vec![]).validate(), Err(Error::Config(_))));
    let svc = ServiceConfig { username: "s".to_string(), email: String::new(), scopes: vec![], admin: false, token_expiry_days: 0 };
    assert!(matches!(config_with("u", vec![], vec![svc], vec![]).validate(), Err(Error::Config(_))));
    assert!(matches!(config_with("u", vec![], vec![], vec![mirror("")]).validate(), Err(Error::Config(_))));
    let display = UserConfig { name: Some("Dev".to_string()), ..user("dev", "d@e") };
    assert_eq!(display.display_name(), "Dev");
    assert_eq!(user("dev", "d@e").display_name(), "dev");
}

#[test]
fn env_overrides() {
    let c = config_with("file-url", vec![], vec![], vec![]);
    let c = c.with_env_overrides(Some("env-url".to_string()), None);
    assert_eq!(c.gitlab.url, "env-url");
    assert!(c.gitlab.token.is_none());
}

#[test]
fn prompt_line_and_formats() {
    assert_eq!(prompt_status(false, 3, 2), "\u{2b22}");
    assert_eq!(prompt_status(true, 3, 2), "\u{2b21} M:3 R:2");
    assert_eq!(prompt_status(true, 0, 12), "\u{2b21} R:12");
    assert_eq!(prompt_status(true, 0, 0), "\u{2b21}");
    assert!(OutputFormat::Json.is_json());
    assert!(OutputFormat::Quiet.is_quiet());
    assert!(!OutputFormat::Text.is_json());
    assert_eq!(decimal_string(0), "0");
    assert_eq!(decimal_string(18446744073709551615), "18446744073709551615");
}

#[test]
fn token_lines_are_redacted() {
    assert_eq!(redact_line("  gitlab_token = \"glpat-xyz\""), "gitlab_token = [REDACTED]");
    assert_eq!(redact_line("url = \"http://localhost\""), "url = \"http://localhost\"");
    assert_eq!(redact_line("# tokens come from the environment"), "# tokens come from the environment");
    assert_eq!(redact_line("token"), "token");
}

#[test]
fn prompt_cache_freshness() {
    assert!(cache_is_fresh(0));
    assert!(cache_is_fresh(30000));
    assert!(!cache_is_fresh(30001));
}
