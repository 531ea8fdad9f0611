//! The configuration file's model and its validation rules.

use crate::error::Error;
use crate::text::{contains_char, contains_text, find, has_infix, join2, join3, owned, split_once, trim, trim_str};
use vstd::prelude::*;

verus! {

/// The whole configuration.
#[derive(Debug)]
pub struct AutogitConfig {
    pub gitlab: GitLabConfig,
    pub bootstrap: BootstrapConfig,
    pub mirrors: MirrorsConfig,
    pub runners: RunnersConfig,
}

/// A user entry that validation accepts.
pub open spec fn user_ok(u: UserConfig) -> bool {
    u.username@.len() > 0 && u.email@.len() > 0
}

/// A service entry that validation accepts.
pub open spec fn service_ok(s: ServiceConfig) -> bool {
    s.username@.len() > 0 && s.scopes@.len() > 0
}

/// A GitHub mirror entry that validation accepts: `owner/repo`.
pub open spec fn mirror_ok(m: GitHubMirrorConfig) -> bool {
    m.repo@.len() > 0 && m.repo@.contains('/')
}

impl AutogitConfig {
    /// The configuration is valid: a URL, users with name and email,
    /// services with name and at least one scope, and GitHub mirrors in
    /// `owner/repo` form.
    pub open spec fn valid(&self) -> bool {
        &&& self.gitlab.url@.len() > 0
        &&& forall|i: int|
            0 <= i < self.bootstrap.users@.len() ==> user_ok(#[trigger] self.bootstrap.users@[i])
        &&& forall|i: int|
            0 <= i < self.bootstrap.services@.len() ==> service_ok(
                #[trigger] self.bootstrap.services@[i],
            )
        &&& forall|i: int|
            0 <= i < self.mirrors.github@.len() ==> mirror_ok(#[trigger] self.mirrors.github@[i])
    }

    /// Applies the values of the environment: a URL replaces the file's,
    /// and the token always comes from the environment.
    pub fn with_env_overrides(self, gitlab_url: Option<String>, gitlab_token: Option<String>) -> (r:
        AutogitConfig)
        ensures
            r.gitlab.url == match gitlab_url {
                Some(u) => u,
                None => self.gitlab.url,
            },
            r.gitlab.token == gitlab_token,
            r.bootstrap == self.bootstrap,
            r.mirrors == self.mirrors,
            r.runners == self.runners,
    {
        let url = match gitlab_url {
            Some(u) => u,
            None => self.gitlab.url,
        };
        AutogitConfig { gitlab: GitLabConfig { url, token: gitlab_token }, ..self }
    }

    /// Checks the rules of `valid`; the first broken rule is a
    /// configuration error.
    pub fn validate(&self) -> (r: Result<(), Error>)
        ensures
            r is Ok <==> self.valid(),
            r is Err ==> r->Err_0 is Config,
    {
        if self.gitlab.url.as_str().unicode_len() == 0 {
            return Err(Error::Config(owned("gitlab.url is required")));
        }
        let mut i: usize = 0;
        while i < self.bootstrap.users.len()
            invariant
                i <= self.bootstrap.users@.len(),
                forall|j: int| 0 <= j < i ==> user_ok(#[trigger] self.bootstrap.users@[j]),
            decreases self.bootstrap.users@.len() - i,
        {
            let u = &self.bootstrap.users[i];
            if u.username.as_str().unicode_len() == 0 {
                return Err(Error::Config(owned("User username cannot be empty")));
            }
            if u.email.as_str().unicode_len() == 0 {
                return Err(
                    Error::Config(join3("User '", u.username.as_str(), "' email cannot be empty")),
                );
            }
            i = i + 1;
        }
        let mut i: usize = 0;
        while i < self.bootstrap.services.len()
            invariant
                i <= self.bootstrap.services@.len(),
                forall|j: int| 0 <= j < i ==> service_ok(#[trigger] self.bootstrap.services@[j]),
            decreases self.bootstrap.services@.len() - i,
        {
            let s = &self.bootstrap.services[i];
            if s.username.as_str().unicode_len() == 0 {
                return Err(Error::Config(owned("Service username cannot be empty")));
            }
            if s.scopes.len() == 0 {
                return Err(
                    Error::Config(
                        join3("Service '", s.username.as_str(), "' must have at least one scope"),
                    ),
                );
            }
            i = i + 1;
        }
        let mut i: usize = 0;
        while i < self.mirrors.github.len()
            invariant
                i <= self.mirrors.github@.len(),
                forall|j: int| 0 <= j < i ==> mirror_ok(#[trigger] self.mirrors.github@[j]),
            decreases self.mirrors.github@.len() - i,
        {
            let m = &self.mirrors.github[i];
            if m.repo.as_str().unicode_len() == 0 {
                return Err(Error::Config(owned("Mirror repo cannot be empty")));
            }
            if !contains_char(m.repo.as_str(), '/') {
                return Err(
                    Error::Config(
                        join3("Mirror repo '", m.repo.as_str(), "' must be in 'owner/repo' format"),
                    ),
                );
            }
            i = i + 1;
        }
        Ok(())
    }
}

/// How a line of the configuration file is shown: a line that mentions
/// `token` and assigns a value shows its key and a redaction marker.
pub open spec fn shown_line(line: Seq<char>) -> Seq<char> {
    if has_infix(line, "token"@) && find(line, '=') < line.len() {
        trim(line.subrange(0, find(line, '=') as int)) + " = [REDACTED]"@
    } else {
        line
    }
}

/// The line as `shown_line` states it.
pub fn redact_line(line: &str) -> (r: String)
    ensures
        r@ == shown_line(line@),
{
    if contains_text(line, "token") {
        if let Some((key, _)) = split_once(line, '=') {
            return join2(trim_str(key), " = [REDACTED]");
        }
    }
    owned(line)
}

/// Connection settings.
#[derive(Debug)]
pub struct GitLabConfig {
    pub url: String,
    /// Never read from the file: it comes from the environment.
    pub token: Option<String>,
}

impl Default for GitLabConfig {
    fn default() -> (r: GitLabConfig)
        ensures
            r.url@ == "http://localhost:8080"@,
            r.token is None,
    {
        GitLabConfig { url: default_gitlab_url(), token: None }
    }
}

/// The URL used when none is configured.
pub fn default_gitlab_url() -> (r: String)
    ensures
        r@ == "http://localhost:8080"@,
{
    owned("http://localhost:8080")
}

/// Users and service accounts to create.
#[derive(Debug)]
pub struct BootstrapConfig {
    pub users: Vec<UserConfig>,
    pub services: Vec<ServiceConfig>,
}

impl Default for BootstrapConfig {
    fn default() -> (r: BootstrapConfig)
        ensures
            r.users@.len() == 0,
            r.services@.len() == 0,
    {
        BootstrapConfig { users: Vec::new(), services: Vec::new() }
    }
}

/// A human user.
#[derive(Debug)]
pub struct UserConfig {
    pub username: String,
    pub email: String,
    pub name: Option<String>,
    pub admin: bool,
    pub role: Option<String>,
}

impl UserConfig {
    /// The display name, or the user name when there is none.
    pub fn display_name(&self) -> (r: &str)
        ensures
            r@ == match self.name {
                Some(n) => n@,
                None => self.username@,
            },
    {
        match &self.name {
            Some(n) => n.as_str(),
            None => self.username.as_str(),
        }
    }
}

/// A service account with an API token.
#[derive(Debug)]
pub struct ServiceConfig {
    pub username: String,
    pub email: String,
    pub scopes: Vec<String>,
    pub admin: bool,
    /// Token lifetime in days; 0 means no expiry.
    pub token_expiry_days: u32,
}

/// Token lifetime unless configured: one year.
pub fn default_token_expiry() -> (r: u32)
    ensures
        r == 365,
{
    365
}

/// Mirror definitions.
#[derive(Debug)]
pub struct MirrorsConfig {
    pub default_namespace: String,
    pub github: Vec<GitHubMirrorConfig>,
    pub gitlab: Vec<GitLabMirrorConfig>,
}

impl Default for MirrorsConfig {
    fn default() -> (r: MirrorsConfig)
        ensures
            r.default_namespace@.len() == 0,
            r.github@.len() == 0,
            r.gitlab@.len() == 0,
    {
        MirrorsConfig { default_namespace: String::new(), github: Vec::new(), gitlab: Vec::new() }
    }
}

/// Namespace of mirrors when the file names none.
pub fn default_namespace() -> (r: String)
    ensures
        r@ == "mirrors"@,
{
    owned("mirrors")
}

/// A GitHub repository to mirror.
#[derive(Debug)]
pub struct GitHubMirrorConfig {
    /// `owner/repo`.
    pub repo: String,
    pub target: Option<String>,
    /// `pull` or `push`.
    pub direction: String,
    pub protected_only: bool,
    /// Cron schedule.
    pub schedule: Option<String>,
}

/// A repository of another instance to mirror.
#[derive(Debug)]
pub struct GitLabMirrorConfig {
    pub url: String,
    pub repo: String,
    pub target: Option<String>,
    pub direction: String,
}

/// Mirror direction unless configured.
pub fn default_direction() -> (r: String)
    ensures
        r@ == "pull"@,
{
    owned("pull")
}

/// Runner definitions.
#[derive(Debug)]
pub struct RunnersConfig {
    pub default_executor: String,
    pub default_image: String,
    pub gpu: Option<GpuRunnerConfig>,
    pub runners: Vec<RunnerConfig>,
}

impl Default for RunnersConfig {
    fn default() -> (r: RunnersConfig)
        ensures
            r.default_executor@ == "docker"@,
            r.default_image@ == "docker:24.0"@,
            r.gpu is None,
            r.runners@.len() == 0,
    {
        RunnersConfig {
            default_executor: default_executor(),
            default_image: default_image(),
            gpu: None,
            runners: Vec::new(),
        }
    }
}

/// Executor unless configured.
pub fn default_executor() -> (r: String)
    ensures
        r@ == "docker"@,
{
    owned("docker")
}

/// Container image unless configured.
pub fn default_image() -> (r: String)
    ensures
        r@ == "docker:24.0"@,
{
    owned("docker:24.0")
}

/// Accelerator runner settings.
#[derive(Debug)]
pub struct GpuRunnerConfig {
    pub enabled: bool,
    pub tags: Vec<String>,
    /// `all` or device ids.
    pub devices: Vec<String>,
    pub runtime: String,
}

/// Container runtime for accelerators unless configured.
pub fn default_nvidia_runtime() -> (r: String)
    ensures
        r@ == "nvidia"@,
{
    owned("nvidia")
}

/// One runner definition.
#[derive(Debug)]
pub struct RunnerConfig {
    pub name: String,
    pub executor: String,
    pub tags: Vec<String>,
    pub run_untagged: bool,
    pub locked: bool,
    /// Seconds.
    pub max_timeout: Option<u64>,
}

} // verus!
