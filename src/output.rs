//! Report types of the command layer, the best-effort status summary and
//! the one-line prompt status.

use crate::gitlab::projects::{opt_view, Project};
use crate::gitlab::runners::{runner_counts, Runner, RunnerStatus, RunnerType};
use crate::gitlab::users::{User, UserState};
use crate::registrar::views;
use crate::text::{decimal, decimal_string, join2, owned, push_decimal};
use vstd::prelude::*;

verus! {

/// How a command prints its result.
#[derive(Debug, Clone, Copy, PartialEq, Eq, Structural)]
pub enum OutputFormat {
    Text,
    Json,
    Quiet,
}

impl Default for OutputFormat {
    fn default() -> (r: OutputFormat)
        ensures
            r == OutputFormat::Text,
    {
        OutputFormat::Text
    }
}

impl OutputFormat {
    /// Whether only errors are printed.
    pub fn is_quiet(&self) -> (r: bool)
        ensures
            r == (*self == OutputFormat::Quiet),
    {
        match self {
            OutputFormat::Quiet => true,
            _ => false,
        }
    }

    /// Whether results are printed as JSON.
    pub fn is_json(&self) -> (r: bool)
        ensures
            r == (*self == OutputFormat::Json),
    {
        match self {
            OutputFormat::Json => true,
            _ => false,
        }
    }
}

/// Shells that completions can be generated for.
#[derive(Debug, Clone, Copy, PartialEq, Eq, Structural)]
pub enum CompletionShell {
    Bash,
    Zsh,
    Fish,
    PowerShell,
    Elvish,
    Nushell,
}

/// The instance's status.
#[derive(Debug)]
pub struct StatusOutput {
    pub connected: bool,
    pub gitlab_url: String,
    pub gitlab_version: Option<String>,
    pub current_user: Option<UserInfo>,
    pub users: Vec<UserInfo>,
    pub projects: ProjectStats,
    pub runners: RunnerStats,
}

/// A user in a report.
#[derive(Debug)]
pub struct UserInfo {
    pub id: u64,
    pub username: String,
    pub name: Option<String>,
    pub email: Option<String>,
    pub admin: bool,
    pub state: String,
}

/// Project counts.
#[derive(Debug)]
pub struct ProjectStats {
    pub total: usize,
    pub mirrors: usize,
}

/// Runner counts.
#[derive(Debug)]
pub struct RunnerStats {
    pub total: usize,
    pub online: usize,
    pub offline: usize,
    pub paused: usize,
}

/// The mirror list.
#[derive(Debug)]
pub struct MirrorListOutput {
    pub mirrors: Vec<MirrorInfo>,
}

/// A mirror in a report.
#[derive(Debug)]
pub struct MirrorInfo {
    pub id: u64,
    pub name: String,
    pub path: String,
    pub url: String,
    pub mirror_url: Option<String>,
    pub import_status: Option<String>,
}

/// The runner list.
#[derive(Debug)]
pub struct RunnerListOutput {
    pub runners: Vec<RunnerInfo>,
}

/// A runner in a report.
#[derive(Debug)]
pub struct RunnerInfo {
    pub id: u64,
    pub description: Option<String>,
    pub status: String,
    pub runner_type: String,
    pub tags: Vec<String>,
    pub paused: bool,
    pub online: bool,
}

fn copy_opt(o: &Option<String>) -> (r: Option<String>)
    ensures
        opt_view(r) == opt_view(*o),
{
    match o {
        Some(s) => Some(owned(s.as_str())),
        None => None,
    }
}

fn copy_all(v: &Vec<String>) -> (r: Vec<String>)
    ensures
        r@.len() == v@.len(),
        forall|i: int| 0 <= i < v@.len() ==> #[trigger] r@[i]@ == v@[i]@,
{
    let mut r: Vec<String> = Vec::new();
    let mut i: usize = 0;
    while i < v.len()
        invariant
            i <= v@.len(),
            r@.len() == i,
            forall|j: int| 0 <= j < i ==> #[trigger] r@[j]@ == v@[j]@,
        decreases v@.len() - i,
    {
        r.push(owned(v[i].as_str()));
        i = i + 1;
    }
    r
}

/// The name of a user state.
pub fn user_state_name(s: UserState) -> (r: &'static str)
    ensures
        s == UserState::Active ==> r@ == "Active"@,
        s == UserState::Blocked ==> r@ == "Blocked"@,
        s == UserState::Deactivated ==> r@ == "Deactivated"@,
        s == UserState::Unknown ==> r@ == "Unknown"@,
{
    match s {
        UserState::Active => "Active",
        UserState::Blocked => "Blocked",
        UserState::Deactivated => "Deactivated",
        UserState::Unknown => "Unknown",
    }
}

/// The name of a runner status.
pub fn runner_status_name(s: RunnerStatus) -> (r: &'static str)
    ensures
        s == RunnerStatus::Online ==> r@ == "Online"@,
        s == RunnerStatus::Offline ==> r@ == "Offline"@,
        s == RunnerStatus::Stale ==> r@ == "Stale"@,
        s == RunnerStatus::NeverContacted ==> r@ == "NeverContacted"@,
        s == RunnerStatus::Unknown ==> r@ == "Unknown"@,
{
    match s {
        RunnerStatus::Online => "Online",
        RunnerStatus::Offline => "Offline",
        RunnerStatus::Stale => "Stale",
        RunnerStatus::NeverContacted => "NeverContacted",
        RunnerStatus::Unknown => "Unknown",
    }
}

/// The name of a runner type.
pub fn runner_type_name(t: RunnerType) -> (r: &'static str)
    ensures
        t == RunnerType::InstanceType ==> r@ == "InstanceType"@,
        t == RunnerType::GroupType ==> r@ == "GroupType"@,
        t == RunnerType::ProjectType ==> r@ == "ProjectType"@,
{
    match t {
        RunnerType::InstanceType => "InstanceType",
        RunnerType::GroupType => "GroupType",
        RunnerType::ProjectType => "ProjectType",
    }
}

impl UserInfo {
    /// The report entry of a user.
    pub fn from_user(u: &User) -> (r: UserInfo)
        ensures
            r.id == u.id,
            r.username@ == u.username@,
            opt_view(r.name) == Some(u.name@),
            opt_view(r.email) == opt_view(u.email),
            r.admin == u.is_admin,
    {
        UserInfo {
            id: u.id,
            username: owned(u.username.as_str()),
            name: Some(owned(u.name.as_str())),
            email: copy_opt(&u.email),
            admin: u.is_admin,
            state: owned(user_state_name(u.state)),
        }
    }
}

impl MirrorInfo {
    /// The report entry of a mirror project.
    pub fn from_project(p: &Project) -> (r: MirrorInfo)
        ensures
            r.id == p.id,
            r.name@ == p.name@,
            r.path@ == p.path_with_namespace@,
            r.url@ == p.web_url@,
            r.mirror_url is None,
            opt_view(r.import_status) == opt_view(p.import_status),
    {
        MirrorInfo {
            id: p.id,
            name: owned(p.name.as_str()),
            path: owned(p.path_with_namespace.as_str()),
            url: owned(p.web_url.as_str()),
            mirror_url: None,
            import_status: copy_opt(&p.import_status),
        }
    }
}

impl RunnerInfo {
    /// The report entry of a runner.
    pub fn from_runner(r: &Runner) -> (o: RunnerInfo)
        ensures
            o.id == r.id,
            opt_view(o.description) == opt_view(r.description),
            o.tags@.len() == r.tag_list@.len(),
            forall|i: int| 0 <= i < r.tag_list@.len() ==> #[trigger] o.tags@[i]@ == r.tag_list@[i]@,
            o.paused == r.paused,
            o.online == (r.status == RunnerStatus::Online),
    {
        RunnerInfo {
            id: r.id,
            description: copy_opt(&r.description),
            status: owned(runner_status_name(r.status)),
            runner_type: owned(runner_type_name(r.runner_type)),
            tags: copy_all(&r.tag_list),
            paused: r.paused,
            online: match r.status {
                RunnerStatus::Online => true,
                _ => false,
            },
        }
    }
}

/// The number of projects that are mirrors.
pub open spec fn count_mirrors(ps: Seq<Project>) -> nat
    decreases ps.len(),
{
    if ps.len() == 0 {
        0
    } else {
        count_mirrors(ps.drop_last()) + if ps.last().mirror {
            1nat
        } else {
            0nat
        }
    }
}

proof fn lemma_count_mirrors_bounded(ps: Seq<Project>)
    ensures
        count_mirrors(ps) <= ps.len(),
    decreases ps.len(),
{
    if ps.len() > 0 {
        lemma_count_mirrors_bounded(ps.drop_last());
    }
}

/// Counts projects and mirrors.
pub fn project_stats(projects: &Vec<Project>) -> (r: ProjectStats)
    ensures
        r.total == projects@.len(),
        r.mirrors == count_mirrors(projects@),
{
    let mut mirrors: usize = 0;
    let mut i: usize = 0;
    while i < projects.len()
        invariant
            i <= projects@.len(),
            mirrors == count_mirrors(projects@.subrange(0, i as int)),
        decreases projects@.len() - i,
    {
        proof {
            let pre = projects@.subrange(0, i + 1);
            assert(pre.drop_last() =~= projects@.subrange(0, i as int));
            lemma_count_mirrors_bounded(pre);
        }
        if projects[i].mirror {
            mirrors = mirrors + 1;
        }
        i = i + 1;
    }
    assert(projects@.subrange(0, i as int) =~= projects@);
    ProjectStats { total: projects.len(), mirrors }
}

impl StatusOutput {
    /// The report when the instance cannot be reached or no token is set:
    /// not connected, everything empty.
    pub fn disconnected(gitlab_url: &str) -> (r: StatusOutput)
        ensures
            !r.connected,
            r.gitlab_url@ == gitlab_url@,
            r.current_user is None,
            r.users@.len() == 0,
            r.projects.total == 0 && r.projects.mirrors == 0,
            r.runners.total == 0 && r.runners.online == 0 && r.runners.offline == 0
                && r.runners.paused == 0,
    {
        StatusOutput {
            connected: false,
            gitlab_url: owned(gitlab_url),
            gitlab_version: None,
            current_user: None,
            users: Vec::new(),
            projects: ProjectStats { total: 0, mirrors: 0 },
            runners: RunnerStats { total: 0, online: 0, offline: 0, paused: 0 },
        }
    }

    /// The report of a reachable instance; a list that could not be read
    /// (`None`) counts as empty rather than failing the report.
    pub fn summary(
        gitlab_url: &str,
        current_user: UserInfo,
        users: Option<Vec<User>>,
        projects: Option<Vec<Project>>,
        runners: Option<Vec<Runner>>,
    ) -> (r: StatusOutput)
        ensures
            r.connected,
            r.gitlab_url@ == gitlab_url@,
            r.current_user == Some(current_user),
            r.users@.len() == match users {
                Some(u) => u@.len(),
                None => 0,
            },
            forall|i: int|
                0 <= i < r.users@.len() ==> match users {
                    Some(u) => (#[trigger] r.users@[i]).id == u@[i].id && r.users@[i].username@
                        == u@[i].username@,
                    None => false,
                },
            r.projects.total == match projects {
                Some(p) => p@.len(),
                None => 0,
            },
            r.projects.mirrors == match projects {
                Some(p) => count_mirrors(p@),
                None => 0,
            },
            r.runners.total == match runners {
                Some(x) => x@.len(),
                None => 0,
            },
            r.runners.online == match runners {
                Some(x) => crate::gitlab::runners::count_status(x@, RunnerStatus::Online),
                None => 0,
            },
            r.runners.offline == match runners {
                Some(x) => crate::gitlab::runners::count_status(x@, RunnerStatus::Offline),
                None => 0,
            },
            r.runners.paused == match runners {
                Some(x) => crate::gitlab::runners::count_paused(x@),
                None => 0,
            },
    {
        let mut infos: Vec<UserInfo> = Vec::new();
        if let Some(us) = &users {
            let mut i: usize = 0;
            while i < us.len()
                invariant
                    i <= us@.len(),
                    infos@.len() == i,
                    forall|j: int|
                        0 <= j < i ==> (#[trigger] infos@[j]).id == us@[j].id && infos@[j].username@
                            == us@[j].username@,
                decreases us@.len() - i,
            {
                infos.push(UserInfo::from_user(&us[i]));
                i = i + 1;
            }
        }
        let project_counts = match &projects {
            Some(ps) => project_stats(ps),
            None => ProjectStats { total: 0, mirrors: 0 },
        };
        let runner_stats = match &runners {
            Some(rs) => {
                let c = runner_counts(rs);
                RunnerStats { total: c.total, online: c.online, offline: c.offline, paused: c.paused }
            },
            None => RunnerStats { total: 0, online: 0, offline: 0, paused: 0 },
        };
        StatusOutput {
            connected: true,
            gitlab_url: owned(gitlab_url),
            gitlab_version: None,
            current_user: Some(current_user),
            users: infos,
            projects: project_counts,
            runners: runner_stats,
        }
    }
}

/// The prompt line: `⬢` when disconnected; otherwise `⬡`, then `M:n` for
/// n mirrors and `R:n` for n active runners, each only when n is not 0.
pub open spec fn prompt_line(connected: bool, mirrors: usize, runners: usize) -> Seq<char> {
    if !connected {
        "\u{2b22}"@
    } else {
        "\u{2b21}"@ + (if mirrors > 0 {
            " M:"@ + decimal(mirrors as nat)
        } else {
            Seq::empty()
        }) + (if runners > 0 {
            " R:"@ + decimal(runners as nat)
        } else {
            Seq::empty()
        })
    }
}

/// The prompt line, as `prompt_line` states it.
pub fn prompt_status(connected: bool, mirrors: usize, runners: usize) -> (r: String)
    ensures
        r@ == prompt_line(connected, mirrors, runners),
{
    if !connected {
        return owned("\u{2b22}");
    }
    let mut r = owned("\u{2b21}");
    let ghost head = r@;
    let ghost m = if mirrors > 0 {
        " M:"@ + decimal(mirrors as nat)
    } else {
        Seq::<char>::empty()
    };
    if mirrors > 0 {
        r.append(" M:");
        push_decimal(&mut r, mirrors as u64);
    }
    assert(r@ =~= head + m);
    let ghost mid = r@;
    if runners > 0 {
        r.append(" R:");
        push_decimal(&mut r, runners as u64);
    }
    assert(r@ =~= mid + if runners > 0 {
        " R:"@ + decimal(runners as nat)
    } else {
        Seq::<char>::empty()
    });
    r
}

/// How long a cached prompt line stays fresh, in milliseconds.
pub const PROMPT_CACHE_TTL_MILLIS: u128 = 30000;

/// Whether a cached prompt line of the given age may be shown.
pub fn cache_is_fresh(age_millis: u128) -> (r: bool)
    ensures
        r == (age_millis <= PROMPT_CACHE_TTL_MILLIS),
{
    age_millis <= PROMPT_CACHE_TTL_MILLIS
}

/// A count that could not be read counts as 0.
pub fn count_or_zero(n: Option<usize>) -> (r: usize)
    ensures
        r == match n {
            Some(x) => x,
            None => 0,
        },
{
    match n {
        Some(x) => x,
        None => 0,
    }
}

/// Results that can be shown as lines of text.
pub trait TextOutput {
    /// The lines to print, in order.
    fn text_lines(&self) -> Vec<String>;
}

fn push_line(r: &mut Vec<String>, line: String)
    ensures
        views(final(r)@) == views(old(r)@).push(line@),
{
    let ghost before = r@;
    r.push(line);
    assert(views(r@) =~= views(before).push(line@));
}

/// Strings joined with a separator between neighbours.
pub open spec fn joined(ts: Seq<Seq<char>>, sep: Seq<char>) -> Seq<char>
    decreases ts.len(),
{
    if ts.len() == 0 {
        Seq::empty()
    } else if ts.len() == 1 {
        ts[0]
    } else {
        joined(ts.drop_last(), sep) + sep + ts.last()
    }
}

/// Joins strings with a separator (as `slice::join`).
pub fn join_with(v: &Vec<String>, sep: &str) -> (r: String)
    ensures
        r@ == joined(views(v@), sep@),
{
    let mut r = String::new();
    let mut i: usize = 0;
    while i < v.len()
        invariant
            i <= v@.len(),
            r@ == joined(views(v@.subrange(0, i as int)), sep@),
        decreases v@.len() - i,
    {
        proof {
            let pre = views(v@.subrange(0, i + 1));
            assert(pre.drop_last() =~= views(v@.subrange(0, i as int)));
            assert(pre.last() == v@[i as int]@);
        }
        if i > 0 {
            r.append(sep);
        }
        r.append(v[i].as_str());
        proof {
            if i == 0 {
                assert(r@ =~= views(v@.subrange(0, 1))[0]);
            }
        }
        i = i + 1;
    }
    assert(v@.subrange(0, i as int) =~= v@);
    r
}

/// The lines shown for one mirror.
pub open spec fn mirror_block(m: MirrorInfo) -> Seq<Seq<char>> {
    seq![
        "  \u{1f4e6} "@ + m.path@,
        "     ID: "@ + decimal(m.id as nat),
        "     URL: "@ + m.url@,
    ] + match m.import_status {
        Some(st) => seq!["     Import Status: "@ + st@],
        None => Seq::empty(),
    } + seq![Seq::<char>::empty()]
}

/// The lines shown for mirrors, in order.
pub open spec fn mirror_blocks(ms: Seq<MirrorInfo>) -> Seq<Seq<char>>
    decreases ms.len(),
{
    if ms.len() == 0 {
        Seq::empty()
    } else {
        mirror_blocks(ms.drop_last()) + mirror_block(ms.last())
    }
}

/// The text of a mirror list.
pub open spec fn mirror_list_text(ms: Seq<MirrorInfo>) -> Seq<Seq<char>> {
    if ms.len() == 0 {
        seq!["  No mirrors configured"@]
    } else {
        seq!["Found "@ + decimal(ms.len() as nat) + " mirror(s):\n"@] + mirror_blocks(ms)
    }
}

impl MirrorListOutput {
    /// The lines of the list, as `mirror_list_text` states them.
    pub fn lines(&self) -> (r: Vec<String>)
        ensures
            views(r@) == mirror_list_text(self.mirrors@),
    {
        let mut r: Vec<String> = Vec::new();
        let n = self.mirrors.len();
        if n == 0 {
            push_line(&mut r, owned("  No mirrors configured"));
            assert(views(r@) =~= seq!["  No mirrors configured"@]);
            return r;
        }
        let mut head = owned("Found ");
        push_decimal(&mut head, n as u64);
        head.append(" mirror(s):\n");
        push_line(&mut r, head);
        let ghost header = views(r@);
        assert(views(r@) =~= header + mirror_blocks(self.mirrors@.subrange(0, 0)));
        let mut i: usize = 0;
        while i < n
            invariant
                n == self.mirrors@.len(),
                i <= n,
                header == seq!["Found "@ + decimal(n as nat) + " mirror(s):\n"@],
                views(r@) == header + mirror_blocks(self.mirrors@.subrange(0, i as int)),
            decreases n - i,
        {
            let m = &self.mirrors[i];
            let ghost before = views(r@);
            push_line(&mut r, join2("  \u{1f4e6} ", m.path.as_str()));
            push_line(&mut r, join2("     ID: ", decimal_string(m.id).as_str()));
            push_line(&mut r, join2("     URL: ", m.url.as_str()));
            if let Some(st) = &m.import_status {
                push_line(&mut r, join2("     Import Status: ", st.as_str()));
            }
            push_line(&mut r, String::new());
            proof {
                assert(views(r@) =~= before + mirror_block(*m));
                let pre = self.mirrors@.subrange(0, i + 1);
                assert(pre.drop_last() =~= self.mirrors@.subrange(0, i as int));
                assert(pre.last() == *m);
                assert(views(r@) =~= header + mirror_blocks(pre));
            }
            i = i + 1;
        }
        assert(self.mirrors@.subrange(0, n as int) =~= self.mirrors@);
        r
    }
}

impl TextOutput for MirrorListOutput {
    fn text_lines(&self) -> Vec<String> {
        self.lines()
    }
}

/// The lines shown for one runner.
pub open spec fn runner_block(x: RunnerInfo) -> Seq<Seq<char>> {
    seq![
        "  "@ + (if x.online {
            "\u{1f7e2}"@
        } else {
            "\u{1f534}"@
        }) + " "@ + match x.description {
            Some(d) => d@,
            None => "unnamed"@,
        } + " (ID: "@ + decimal(x.id as nat) + ")"@,
        "     Type: "@ + x.runner_type@,
    ] + (if x.tags@.len() > 0 {
        seq!["     Tags: "@ + joined(views(x.tags@), ", "@)]
    } else {
        Seq::empty()
    }) + (if x.paused {
        seq!["     \u{23f8}\u{fe0f}  PAUSED"@]
    } else {
        Seq::empty()
    }) + seq![Seq::<char>::empty()]
}

/// The lines shown for runners, in order.
pub open spec fn runner_blocks(xs: Seq<RunnerInfo>) -> Seq<Seq<char>>
    decreases xs.len(),
{
    if xs.len() == 0 {
        Seq::empty()
    } else {
        runner_blocks(xs.drop_last()) + runner_block(xs.last())
    }
}

/// The text of a runner list.
pub open spec fn runner_list_text(xs: Seq<RunnerInfo>) -> Seq<Seq<char>> {
    if xs.len() == 0 {
        seq!["  No runners found"@]
    } else {
        seq!["Found "@ + decimal(xs.len() as nat) + " runner(s):\n"@] + runner_blocks(xs)
    }
}

impl RunnerListOutput {
    /// The lines of the list, as `runner_list_text` states them.
    pub fn lines(&self) -> (r: Vec<String>)
        ensures
            views(r@) == runner_list_text(self.runners@),
    {
        let mut r: Vec<String> = Vec::new();
        let n = self.runners.len();
        if n == 0 {
            push_line(&mut r, owned("  No runners found"));
            assert(views(r@) =~= seq!["  No runners found"@]);
            return r;
        }
        let mut head = owned("Found ");
        push_decimal(&mut head, n as u64);
        head.append(" runner(s):\n");
        push_line(&mut r, head);
        let ghost header = views(r@);
        assert(views(r@) =~= header + runner_blocks(self.runners@.subrange(0, 0)));
        let mut i: usize = 0;
        while i < n
            invariant
                n == self.runners@.len(),
                i <= n,
                header == seq!["Found "@ + decimal(n as nat) + " runner(s):\n"@],
                views(r@) == header + runner_blocks(self.runners@.subrange(0, i as int)),
            decreases n - i,
        {
            let x = &self.runners[i];
            let ghost before = views(r@);
            let icon = if x.online {
                "\u{1f7e2}"
            } else {
                "\u{1f534}"
            };
            let desc = match &x.description {
                Some(d) => d.as_str(),
                None => "unnamed",
            };
            let mut first = crate::text::join3("  ", icon, " ");
            first.append(desc);
            first.append(" (ID: ");
            push_decimal(&mut first, x.id);
            first.append(")");
            push_line(&mut r, first);
            push_line(&mut r, join2("     Type: ", x.runner_type.as_str()));
            if x.tags.len() > 0 {
                push_line(&mut r, join2("     Tags: ", join_with(&x.tags, ", ").as_str()));
            }
            if x.paused {
                push_line(&mut r, owned("     \u{23f8}\u{fe0f}  PAUSED"));
            }
            push_line(&mut r, String::new());
            proof {
                assert(views(r@) =~= before + runner_block(*x));
                let pre = self.runners@.subrange(0, i + 1);
                assert(pre.drop_last() =~= self.runners@.subrange(0, i as int));
                assert(pre.last() == *x);
                assert(views(r@) =~= header + runner_blocks(pre));
            }
            i = i + 1;
        }
        assert(self.runners@.subrange(0, n as int) =~= self.runners@);
        r
    }
}

impl TextOutput for RunnerListOutput {
    fn text_lines(&self) -> Vec<String> {
        self.lines()
    }
}

/// The line shown for one user of the instance.
pub open spec fn user_line(u: UserInfo) -> Seq<char> {
    "   "@ + (if u.admin {
        "\u{1f451}"@
    } else {
        "\u{1f464}"@
    }) + " "@ + u.username@ + " ("@ + u.state@ + ")"@
}

/// The text of a status report.
pub open spec fn status_text(s: StatusOutput) -> Seq<Seq<char>> {
    if !s.connected {
        seq!["\u{274c} Failed to connect to GitLab: "@ + s.gitlab_url@]
    } else {
        seq!["\u{2705} Connected to GitLab: "@ + s.gitlab_url@] + match s.current_user {
            Some(u) => seq![
                "   Authenticated as: "@ + u.username@ + " ("@ + (if u.admin {
                    "admin"@
                } else {
                    "user"@
                }) + ")"@,
            ],
            None => Seq::empty(),
        } + seq![Seq::<char>::empty(), "\u{1f465} Users: "@ + decimal(s.users@.len())]
            + s.users@.map_values(|u: UserInfo| user_line(u)) + seq![
            Seq::<char>::empty(),
            "\u{1f4e6} Projects: "@ + decimal(s.projects.total as nat) + " ("@ + decimal(
                s.projects.mirrors as nat,
            ) + " mirrors)"@,
            Seq::<char>::empty(),
            "\u{1f3c3} Runners: "@ + decimal(s.runners.total as nat) + " total"@,
            "   \u{1f7e2} Online: "@ + decimal(s.runners.online as nat),
            "   \u{1f534} Offline: "@ + decimal(s.runners.offline as nat),
            "   \u{23f8}\u{fe0f}  Paused: "@ + decimal(s.runners.paused as nat),
        ]
    }
}

fn count_line(prefix: &str, n: usize, suffix: &str) -> (r: String)
    ensures
        r@ == prefix@ + decimal(n as nat) + suffix@,
{
    let mut r = owned(prefix);
    push_decimal(&mut r, n as u64);
    r.append(suffix);
    r
}

fn count_only(prefix: &str, n: usize) -> (r: String)
    ensures
        r@ == prefix@ + decimal(n as nat),
{
    let mut r = owned(prefix);
    push_decimal(&mut r, n as u64);
    r
}

impl StatusOutput {
    /// The lines of the report, as `status_text` states them.
    pub fn lines(&self) -> (r: Vec<String>)
        ensures
            views(r@) == status_text(*self),
    {
        let mut r: Vec<String> = Vec::new();
        if !self.connected {
            push_line(&mut r, join2("\u{274c} Failed to connect to GitLab: ", self.gitlab_url.as_str()));
            assert(views(r@) =~= status_text(*self));
            return r;
        }
        push_line(&mut r, join2("\u{2705} Connected to GitLab: ", self.gitlab_url.as_str()));
        if let Some(u) = &self.current_user {
            let mut line = join2("   Authenticated as: ", u.username.as_str());
            line.append(" (");
            line.append(if u.admin { "admin" } else { "user" });
            line.append(")");
            push_line(&mut r, line);
        }
        push_line(&mut r, String::new());
        push_line(&mut r, count_only("\u{1f465} Users: ", self.users.len()));
        proof {
            reveal_strlit("");
            assert(""@ =~= Seq::<char>::empty());
        }
        let ghost head = views(r@);
        let mut i: usize = 0;
        while i < self.users.len()
            invariant
                i <= self.users@.len(),
                views(r@) == head + self.users@.subrange(0, i as int).map_values(
                    |u: UserInfo| user_line(u),
                ),
            decreases self.users@.len() - i,
        {
            let u = &self.users[i];
            let mut line = crate::text::join3("   ", if u.admin { "\u{1f451}" } else { "\u{1f464}" }, " ");
            line.append(u.username.as_str());
            line.append(" (");
            line.append(u.state.as_str());
            line.append(")");
            push_line(&mut r, line);
            proof {
                assert(views(r@) =~= head + self.users@.subrange(0, i + 1).map_values(
                    |u: UserInfo| user_line(u),
                ));
            }
            i = i + 1;
        }
        assert(self.users@.subrange(0, i as int) =~= self.users@);
        let ghost body = views(r@);
        push_line(&mut r, String::new());
        let mut projects = count_line("\u{1f4e6} Projects: ", self.projects.total, " (");
        push_decimal(&mut projects, self.projects.mirrors as u64);
        projects.append(" mirrors)");
        push_line(&mut r, projects);
        push_line(&mut r, String::new());
        push_line(&mut r, count_line("\u{1f3c3} Runners: ", self.runners.total, " total"));
        push_line(&mut r, count_only("   \u{1f7e2} Online: ", self.runners.online));
        push_line(&mut r, count_only("   \u{1f534} Offline: ", self.runners.offline));
        push_line(&mut r, count_only("   \u{23f8}\u{fe0f}  Paused: ", self.runners.paused));
        proof {
            assert(""@ =~= Seq::<char>::empty());
            let tail = seq![
                Seq::<char>::empty(),
                "\u{1f4e6} Projects: "@ + decimal(self.projects.total as nat) + " ("@ + decimal(
                    self.projects.mirrors as nat,
                ) + " mirrors)"@,
                Seq::<char>::empty(),
                "\u{1f3c3} Runners: "@ + decimal(self.runners.total as nat) + " total"@,
                "   \u{1f7e2} Online: "@ + decimal(self.runners.online as nat),
                "   \u{1f534} Offline: "@ + decimal(self.runners.offline as nat),
                "   \u{23f8}\u{fe0f}  Paused: "@ + decimal(self.runners.paused as nat),
            ];
            assert(body == head + self.users@.map_values(|u: UserInfo| user_line(u)));
            assert(views(r@) =~= body + tail);
            assert(views(r@) =~= status_text(*self));
        }
        r
    }
}

impl TextOutput for StatusOutput {
    fn text_lines(&self) -> Vec<String> {
        self.lines()
    }
}

} // verus!
