//! Runner types, registration and update requests, and runner counts.

use crate::gitlab::auth::Token;
use crate::gitlab::projects::opt_view;
use crate::text::owned;
use vstd::prelude::*;

verus! {

/// A runner as the platform lists it.
#[derive(Debug)]
pub struct Runner {
    pub id: u64,
    pub description: Option<String>,
    pub ip_address: Option<String>,
    pub active: bool,
    pub paused: bool,
    pub is_shared: bool,
    pub runner_type: RunnerType,
    pub name: Option<String>,
    pub online: bool,
    pub status: RunnerStatus,
    pub tag_list: Vec<String>,
}

/// A runner with its extended details.
#[derive(Debug)]
pub struct RunnerDetail {
    pub id: u64,
    pub description: Option<String>,
    pub ip_address: Option<String>,
    pub active: bool,
    pub paused: bool,
    pub is_shared: bool,
    pub runner_type: RunnerType,
    pub name: Option<String>,
    pub online: bool,
    pub status: RunnerStatus,
    pub tag_list: Vec<String>,
    pub version: Option<String>,
    pub revision: Option<String>,
    pub platform: Option<String>,
    pub architecture: Option<String>,
    /// Time of last contact, RFC 3339.
    pub contacted_at: Option<String>,
    pub projects: Vec<RunnerProject>,
}

/// A project a runner serves.
#[derive(Debug)]
pub struct RunnerProject {
    pub id: u64,
    pub name: String,
    pub name_with_namespace: String,
    pub path: String,
    pub path_with_namespace: String,
}

/// Scope of a runner.
#[derive(Debug, Clone, Copy, PartialEq, Eq, Structural)]
pub enum RunnerType {
    InstanceType,
    GroupType,
    ProjectType,
}

/// Connection status of a runner.
#[derive(Debug, Clone, Copy, PartialEq, Eq, Structural)]
pub enum RunnerStatus {
    Online,
    Offline,
    Stale,
    NeverContacted,
    /// Any status this library does not know.
    Unknown,
}

/// Request to register a runner; the registration token travels in the
/// body.
#[derive(Debug)]
pub struct RegisterRunnerRequest {
    pub token: String,
    pub description: Option<String>,
    pub info: Option<RunnerInfo>,
    pub run_untagged: bool,
    pub locked: bool,
    pub tag_list: Vec<String>,
    /// `ref_protected` or `not_protected`.
    pub access_level: Option<String>,
    /// Maximum job timeout, seconds.
    pub maximum_timeout: Option<u64>,
}

/// System information a runner reports about itself.
#[derive(Debug)]
pub struct RunnerInfo {
    pub name: Option<String>,
    pub version: Option<String>,
    pub revision: Option<String>,
    pub platform: Option<String>,
    pub architecture: Option<String>,
}

impl RegisterRunnerRequest {
    /// A request with the registration token and nothing else.
    pub fn new(token: &str) -> (r: RegisterRunnerRequest)
        ensures
            r.token@ == token@,
            r.description is None,
            r.info is None,
            !r.run_untagged,
            !r.locked,
            r.tag_list@.len() == 0,
            r.access_level is None,
            r.maximum_timeout is None,
    {
        RegisterRunnerRequest {
            token: owned(token),
            description: None,
            info: None,
            run_untagged: false,
            locked: false,
            tag_list: Vec::new(),
            access_level: None,
            maximum_timeout: None,
        }
    }

    /// Sets the description.
    pub fn description(self, desc: &str) -> (r: RegisterRunnerRequest)
        ensures
            opt_view(r.description) == Some(desc@),
            r == (RegisterRunnerRequest { description: r.description, ..self }),
    {
        RegisterRunnerRequest { description: Some(owned(desc)), ..self }
    }

    /// Sets the system information.
    pub fn info(self, info: RunnerInfo) -> (r: RegisterRunnerRequest)
        ensures
            r == (RegisterRunnerRequest { info: Some(info), ..self }),
    {
        RegisterRunnerRequest { info: Some(info), ..self }
    }

    /// Sets whether the runner takes untagged jobs.
    pub fn run_untagged(self, enabled: bool) -> (r: RegisterRunnerRequest)
        ensures
            r == (RegisterRunnerRequest { run_untagged: enabled, ..self }),
    {
        RegisterRunnerRequest { run_untagged: enabled, ..self }
    }

    /// Sets whether the runner is locked to its projects.
    pub fn locked(self, locked: bool) -> (r: RegisterRunnerRequest)
        ensures
            r == (RegisterRunnerRequest { locked: locked, ..self }),
    {
        RegisterRunnerRequest { locked, ..self }
    }

    /// Replaces the tags.
    pub fn tags(self, tags: Vec<String>) -> (r: RegisterRunnerRequest)
        ensures
            r == (RegisterRunnerRequest { tag_list: tags, ..self }),
    {
        RegisterRunnerRequest { tag_list: tags, ..self }
    }

    /// Adds one tag after the others.
    pub fn add_tag(self, tag: &str) -> (r: RegisterRunnerRequest)
        ensures
            r.tag_list@.len() == self.tag_list@.len() + 1,
            r.tag_list@.drop_last() == self.tag_list@,
            r.tag_list@.last()@ == tag@,
            r == (RegisterRunnerRequest { tag_list: r.tag_list, ..self }),
    {
        let mut tags = self.tag_list;
        let ghost before = tags@;
        tags.push(owned(tag));
        assert(tags@.drop_last() =~= before);
        RegisterRunnerRequest { tag_list: tags, ..self }
    }

    /// Restricts the runner to protected refs.
    pub fn protected_only(self) -> (r: RegisterRunnerRequest)
        ensures
            opt_view(r.access_level) == Some("ref_protected"@),
            r == (RegisterRunnerRequest { access_level: r.access_level, ..self }),
    {
        RegisterRunnerRequest { access_level: Some(owned("ref_protected")), ..self }
    }

    /// Sets the maximum job timeout, in seconds.
    pub fn timeout(self, seconds: u64) -> (r: RegisterRunnerRequest)
        ensures
            r == (RegisterRunnerRequest { maximum_timeout: Some(seconds), ..self }),
    {
        RegisterRunnerRequest { maximum_timeout: Some(seconds), ..self }
    }
}

/// What registration returns: the runner's id and its authentication
/// token, a secret from the moment it is received.
#[derive(Debug)]
pub struct RegisterRunnerResponse {
    pub id: u64,
    pub token: Token,
    /// Expiry time of the token, RFC 3339.
    pub token_expires_at: Option<String>,
}

/// Request to change runner settings; absent fields stay as they are.
#[derive(Debug)]
pub struct UpdateRunnerRequest {
    pub description: Option<String>,
    pub active: Option<bool>,
    pub paused: Option<bool>,
    pub tag_list: Option<Vec<String>>,
    pub run_untagged: Option<bool>,
    pub locked: Option<bool>,
    pub access_level: Option<String>,
    pub maximum_timeout: Option<u64>,
}

impl Default for UpdateRunnerRequest {
    fn default() -> (r: UpdateRunnerRequest)
        ensures
            r.description is None,
            r.active is None,
            r.paused is None,
            r.tag_list is None,
            r.run_untagged is None,
            r.locked is None,
            r.access_level is None,
            r.maximum_timeout is None,
    {
        UpdateRunnerRequest {
            description: None,
            active: None,
            paused: None,
            tag_list: None,
            run_untagged: None,
            locked: None,
            access_level: None,
            maximum_timeout: None,
        }
    }
}

impl UpdateRunnerRequest {
    /// Only pauses the runner.
    pub fn pause() -> (r: UpdateRunnerRequest)
        ensures
            r == (UpdateRunnerRequest { paused: Some(true), ..UpdateRunnerRequest::empty() }),
    {
        UpdateRunnerRequest { paused: Some(true), ..UpdateRunnerRequest::default() }
    }

    /// Only resumes the runner.
    pub fn unpause() -> (r: UpdateRunnerRequest)
        ensures
            r == (UpdateRunnerRequest { paused: Some(false), ..UpdateRunnerRequest::empty() }),
    {
        UpdateRunnerRequest { paused: Some(false), ..UpdateRunnerRequest::default() }
    }

    /// Only deactivates the runner.
    pub fn deactivate() -> (r: UpdateRunnerRequest)
        ensures
            r == (UpdateRunnerRequest { active: Some(false), ..UpdateRunnerRequest::empty() }),
    {
        UpdateRunnerRequest { active: Some(false), ..UpdateRunnerRequest::default() }
    }

    /// The request that changes nothing.
    pub open spec fn empty() -> UpdateRunnerRequest {
        UpdateRunnerRequest {
            description: None,
            active: None,
            paused: None,
            tag_list: None,
            run_untagged: None,
            locked: None,
            access_level: None,
            maximum_timeout: None,
        }
    }
}

/// Tallies of a runner list.
pub struct RunnerCounts {
    pub total: usize,
    pub online: usize,
    pub offline: usize,
    pub paused: usize,
    pub active: usize,
}

/// The number of runners with the given status.
pub open spec fn count_status(rs: Seq<Runner>, s: RunnerStatus) -> nat
    decreases rs.len(),
{
    if rs.len() == 0 {
        0
    } else {
        count_status(rs.drop_last(), s) + if rs.last().status == s {
            1nat
        } else {
            0nat
        }
    }
}

/// The number of paused runners.
pub open spec fn count_paused(rs: Seq<Runner>) -> nat
    decreases rs.len(),
{
    if rs.len() == 0 {
        0
    } else {
        count_paused(rs.drop_last()) + if rs.last().paused {
            1nat
        } else {
            0nat
        }
    }
}

/// The number of active runners.
pub open spec fn count_active(rs: Seq<Runner>) -> nat
    decreases rs.len(),
{
    if rs.len() == 0 {
        0
    } else {
        count_active(rs.drop_last()) + if rs.last().active {
            1nat
        } else {
            0nat
        }
    }
}

proof fn lemma_counts_bounded(rs: Seq<Runner>)
    ensures
        count_status(rs, RunnerStatus::Online) <= rs.len(),
        count_status(rs, RunnerStatus::Offline) <= rs.len(),
        count_paused(rs) <= rs.len(),
        count_active(rs) <= rs.len(),
    decreases rs.len(),
{
    if rs.len() > 0 {
        lemma_counts_bounded(rs.drop_last());
    }
}

/// Counts runners: all of them, online, offline, paused and active.
pub fn runner_counts(runners: &Vec<Runner>) -> (r: RunnerCounts)
    ensures
        r.total == runners@.len(),
        r.online == count_status(runners@, RunnerStatus::Online),
        r.offline == count_status(runners@, RunnerStatus::Offline),
        r.paused == count_paused(runners@),
        r.active == count_active(runners@),
{
    let mut c = RunnerCounts { total: 0, online: 0, offline: 0, paused: 0, active: 0 };
    let mut i: usize = 0;
    while i < runners.len()
        invariant
            i <= runners@.len(),
            c.total == i,
            c.online == count_status(runners@.subrange(0, i as int), RunnerStatus::Online),
            c.offline == count_status(runners@.subrange(0, i as int), RunnerStatus::Offline),
            c.paused == count_paused(runners@.subrange(0, i as int)),
            c.active == count_active(runners@.subrange(0, i as int)),
        decreases runners@.len() - i,
    {
        let ghost pre = runners@.subrange(0, i + 1);
        proof {
            assert(pre.drop_last() =~= runners@.subrange(0, i as int));
            lemma_counts_bounded(pre);
        }
        let r = &runners[i];
        match r.status {
            RunnerStatus::Online => {
                c.online = c.online + 1;
            },
            RunnerStatus::Offline => {
                c.offline = c.offline + 1;
            },
            _ => {},
        }
        if r.paused {
            c.paused = c.paused + 1;
        }
        if r.active {
            c.active = c.active + 1;
        }
        c.total = c.total + 1;
        i = i + 1;
    }
    assert(runners@.subrange(0, i as int) =~= runners@);
    c
}

/// The runners that are online, in the order given.
pub fn online_runners(runners: Vec<Runner>) -> (r: Vec<Runner>)
    ensures
        r@ == runners@.filter(|x: Runner| x.status == RunnerStatus::Online),
{
    let ghost all = runners@;
    let mut r: Vec<Runner> = Vec::new();
    let mut rest = runners;
    let mut taken: usize = 0;
    let n = rest.len();
    while rest.len() > 0
        invariant
            taken + rest@.len() == n,
            n == all.len(),
            rest@ == all.subrange(taken as int, n as int),
            r@ == all.subrange(0, taken as int).filter(
                |x: Runner| x.status == RunnerStatus::Online,
            ),
        decreases rest@.len(),
    {
        let x = rest.remove(0);
        proof {
            assert(x == all[taken as int]);
            assert(rest@ =~= all.subrange(taken + 1, n as int));
            let pre = all.subrange(0, taken + 1);
            assert(pre.drop_last() =~= all.subrange(0, taken as int));
            assert(pre.last() == x);
            reveal(Seq::filter);
        }
        let online = match x.status {
            RunnerStatus::Online => true,
            _ => false,
        };
        if online {
            r.push(x);
        }
        taken = taken + 1;
    }
    assert(all.subrange(0, n as int) =~= all);
    r
}

} // verus!
