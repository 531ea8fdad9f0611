//! Mirror orchestration: what to do to make one target project mirror a
//! source repository, and the checks that guard removal and sync.
//!
//! Each decision is a function from the inputs and the project's current
//! state (as the platform reported it) to the actions to perform; the
//! caller performs them in order.

use crate::error::Error;
use crate::gitlab::projects::{opt_view, CreateProjectRequest, MirrorConfig, Project, Visibility};
use crate::text::{
    contains_char, ends_with, find, join2, join3, owned, rfind, rfind_char, split, split_all,
    split_once, strip_prefix,
};
use vstd::prelude::*;

verus! {

/// Namespace that mirrors go into unless a target is given.
pub const DEFAULT_MIRROR_GROUP: &'static str = "mirrors/";

/// The refusal of an unconfirmed purge: it warns that the deletion
/// cannot be undone.
pub const PURGE_WARNING: &'static str =
    "DESTRUCTIVE OPERATION: --purge will permanently delete the GitLab project and ALL its data.\nUse --yes --purge to confirm complete removal.";

/// The group part of a target path: what precedes its last `/`.
pub open spec fn group_of(t: Seq<char>) -> Option<Seq<char>> {
    if rfind(t, '/') >= 0 {
        Some(t.subrange(0, rfind(t, '/')))
    } else {
        None
    }
}

/// `p` with every trailing `.git` removed (as `str::trim_end_matches`).
pub open spec fn strip_git(p: Seq<char>) -> Seq<char>
    decreases p.len(),
{
    if ".git"@.len() <= p.len() && p.subrange(p.len() - ".git"@.len(), p.len() as int) == ".git"@
        && ".git"@.len() > 0 {
        strip_git(p.subrange(0, p.len() - ".git"@.len()))
    } else {
        p
    }
}

/// Owner and repository of `owner/repo`; the repository keeps any
/// further `/`.
pub open spec fn owner_repo(p: Seq<char>) -> Option<(Seq<char>, Seq<char>)> {
    let i = find(p, '/');
    if i < p.len() {
        Some((p.subrange(0, i as int), p.subrange(i as int + 1, p.len() as int)))
    } else {
        None
    }
}

/// Whether `s` starts with `p`.
pub open spec fn has_prefix(s: Seq<char>, p: Seq<char>) -> bool {
    p.len() <= s.len() && s.subrange(0, p.len() as int) == p
}

/// `s` after the prefix `p`.
pub open spec fn after(s: Seq<char>, p: Seq<char>) -> Seq<char> {
    s.subrange(p.len() as int, s.len() as int)
}

/// Provider, owner and repository of a source descriptor:
/// `github:owner/repo`, `gitlab:owner/repo`, or an `https://github.com/`
/// or `https://gitlab.com/` URL, with any `.git` ending removed.
pub open spec fn source_parts(s: Seq<char>) -> Option<(Seq<char>, Seq<char>, Seq<char>)> {
    let (provider, rest) = if has_prefix(s, "github:"@) {
        ("github"@, Some(after(s, "github:"@)))
    } else if has_prefix(s, "gitlab:"@) {
        ("gitlab"@, Some(after(s, "gitlab:"@)))
    } else if has_prefix(s, "https://github.com/"@) {
        ("github"@, Some(strip_git(after(s, "https://github.com/"@))))
    } else if has_prefix(s, "https://gitlab.com/"@) {
        ("gitlab"@, Some(strip_git(after(s, "https://gitlab.com/"@))))
    } else {
        (Seq::empty(), None)
    };
    match rest {
        Some(p) => match owner_repo(p) {
            Some((o, r)) => Some((provider, o, r)),
            None => None,
        },
        None => None,
    }
}

/// The HTTPS clone URL of a repository of a known provider.
pub open spec fn mirror_url_spec(provider: Seq<char>, owner: Seq<char>, repo: Seq<char>) -> Option<
    Seq<char>,
> {
    if provider == "github"@ {
        Some("https://github.com/"@ + owner + "/"@ + repo + ".git"@)
    } else if provider == "gitlab"@ {
        Some("https://gitlab.com/"@ + owner + "/"@ + repo + ".git"@)
    } else {
        None
    }
}

/// The target project path: the explicit one, or `mirrors/{owner}-{repo}`.
pub open spec fn target_path_spec(owner: Seq<char>, repo: Seq<char>, target: Option<Seq<char>>) -> Seq<
    char,
> {
    match target {
        Some(t) => t,
        None => DEFAULT_MIRROR_GROUP@ + owner + "-"@ + repo,
    }
}

/// The last `/`-separated segment of a path.
pub open spec fn last_segment(p: Seq<char>) -> Seq<char> {
    split(p, '/').last()
}

/// `p` without `.git` endings.
fn strip_git_text(p: &str) -> (r: &str)
    ensures
        r@ == strip_git(p@),
{
    let mut r = p;
    while ends_with(r, ".git")
        invariant
            strip_git(r@) == strip_git(p@),
        decreases r@.len(),
    {
        proof {
            reveal_strlit(".git");
        }
        let n = r.unicode_len();
        r = r.substring_char(0, n - 4);
    }
    proof {
        reveal_strlit(".git");
    }
    r
}

fn split_owner(p: &str) -> (r: Option<(&str, &str)>)
    ensures
        match r {
            Some((o, rp)) => owner_repo(p@) == Some((o@, rp@)),
            None => owner_repo(p@) is None,
        },
{
    split_once(p, '/')
}

/// Reads a source descriptor into provider (`github` or `gitlab`), owner
/// and repository; any other form is a configuration error.
pub fn parse_source(source: &str) -> (r: Result<(&str, &str, &str), Error>)
    ensures
        match r {
            Ok((p, o, rp)) => source_parts(source@) == Some((p@, o@, rp@)),
            Err(e) => source_parts(source@) is None && e is Config && e->Config_0@
                == "Invalid source format: "@ + source@
                + ". Use 'github:owner/repo' or 'https://github.com/owner/repo'"@,
        },
{
    let (provider, rest): (&str, Option<&str>) = match strip_prefix(source, "github:") {
        Some(rest) => ("github", Some(rest)),
        None => match strip_prefix(source, "gitlab:") {
            Some(rest) => ("gitlab", Some(rest)),
            None => match strip_prefix(source, "https://github.com/") {
                Some(rest) => ("github", Some(strip_git_text(rest))),
                None => match strip_prefix(source, "https://gitlab.com/") {
                    Some(rest) => ("gitlab", Some(strip_git_text(rest))),
                    None => ("", None),
                },
            },
        },
    };
    if let Some(rest) = rest {
        if let Some((owner, repo)) = split_owner(rest) {
            return Ok((provider, owner, repo));
        }
    }
    let mut msg = join2("Invalid source format: ", source);
    msg.append(". Use 'github:owner/repo' or 'https://github.com/owner/repo'");
    Err(Error::Config(msg))
}

/// The HTTPS URL to mirror from; a configuration error for an unknown
/// provider.
pub fn build_mirror_url(provider: &str, owner: &str, repo: &str) -> (r: Result<String, Error>)
    ensures
        match r {
            Ok(u) => mirror_url_spec(provider@, owner@, repo@) == Some(u@),
            Err(e) => mirror_url_spec(provider@, owner@, repo@) is None && e is Config,
        },
{
    let host = if crate::text::same_text(provider, "github") {
        "https://github.com/"
    } else if crate::text::same_text(provider, "gitlab") {
        "https://gitlab.com/"
    } else {
        return Err(Error::Config(join2("Unsupported provider: ", provider)));
    };
    let mut u = join3(host, owner, "/");
    u.append(repo);
    u.append(".git");
    Ok(u)
}

/// The target project path: `target` when given, else
/// `mirrors/{owner}-{repo}`.
pub fn target_path(owner: &str, repo: &str, target: Option<&str>) -> (r: String)
    ensures
        r@ == target_path_spec(
            owner@,
            repo@,
            match target {
                Some(t) => Some(t@),
                None => None,
            },
        ),
{
    match target {
        Some(t) => owned(t),
        None => {
            let mut p = join3(DEFAULT_MIRROR_GROUP, owner, "-");
            p.append(repo);
            p
        },
    }
}

/// The last `/`-separated segment of a path: the project's name.
pub fn project_name(path: &str) -> (r: String)
    ensures
        r@ == last_segment(path@),
{
    let parts = split_all(path, '/');
    proof {
        lemma_split_nonempty(path@, '/');
    }
    let n = parts.len();
    owned(parts[n - 1].as_str())
}

proof fn lemma_split_nonempty(s: Seq<char>, sep: char)
    ensures
        split(s, sep).len() >= 1,
    decreases s.len(),
{
    crate::text::lemma_find(s, sep);
    let i = find(s, sep);
    if i < s.len() {
        lemma_split_nonempty(s.subrange(i as int + 1, s.len() as int), sep);
    }
}

/// One step against the platform.
#[derive(Debug)]
pub enum MirrorAction {
    /// Create a project; with an import URL and the mirror flag the
    /// platform starts the first sync itself.
    CreateProject(CreateProjectRequest),
    /// Apply mirror settings to an existing project.
    ConfigureMirror { project_id: u64, config: MirrorConfig },
    /// Start a pull of the mirror.
    TriggerPull(u64),
    /// Delete the project and all its data.
    DeleteProject(u64),
}

/// A project's id and mirror flag, when it exists.
pub open spec fn status_of(p: Option<&Project>) -> Option<(u64, bool)> {
    match p {
        Some(p) => Some((p.id, p.mirror)),
        None => None,
    }
}

/// The project state after the platform performs `acts` on `st`; a
/// created project gets the id `new_id`.
pub open spec fn after_actions(st: Option<(u64, bool)>, acts: Seq<MirrorAction>, new_id: u64) -> Option<
    (u64, bool),
>
    decreases acts.len(),
{
    if acts.len() == 0 {
        st
    } else {
        let prev = after_actions(st, acts.drop_last(), new_id);
        match acts.last() {
            MirrorAction::CreateProject(req) => Some((new_id, req.mirror)),
            MirrorAction::ConfigureMirror { project_id, config } => match prev {
                Some((id, m)) => if id == project_id {
                    Some((id, config.enabled))
                } else {
                    Some((id, m))
                },
                None => None,
            },
            MirrorAction::TriggerPull(_) => prev,
            MirrorAction::DeleteProject(id) => match prev {
                Some((pid, m)) => if pid == id {
                    None
                } else {
                    Some((pid, m))
                },
                None => None,
            },
        }
    }
}

/// A resolved mirror request: where from, where to, and under what name.
#[derive(Debug)]
pub struct MirrorPlan {
    pub provider: String,
    pub owner: String,
    pub repo: String,
    pub mirror_url: String,
    pub target_path: String,
    pub project_name: String,
    pub direction: String,
    /// The namespace of the target's group, once looked up.
    pub namespace_id: Option<u64>,
}

impl MirrorPlan {
    /// The create request's placement: the path is set, to the project
    /// name, exactly when the target path has a group prefix; the
    /// namespace is the plan's; no description or README is requested.
    pub open spec fn request_path_ok(&self, req: CreateProjectRequest) -> bool {
        &&& (req.path is Some <==> self.target_path@.contains('/'))
        &&& req.path is Some ==> req.path->0@ == self.project_name@
        &&& req.namespace_id == self.namespace_id
        &&& req.description is None
        &&& !req.initialize_with_readme
    }

    /// The actions `add_actions` returns for a project in state `st`: a
    /// missing project is created as a mirror of the source; an existing
    /// mirror is left alone; an existing project that is not a mirror is
    /// configured as one and then pulled.
    pub open spec fn add_actions_ok(&self, st: Option<(u64, bool)>, acts: Seq<MirrorAction>) -> bool {
        match st {
            None => acts.len() == 1 && match acts[0] {
                MirrorAction::CreateProject(req) => {
                    &&& req.name@ == self.project_name@
                    &&& opt_view(req.import_url) == Some(self.mirror_url@)
                    &&& req.mirror
                    &&& req.visibility == Visibility::Private
                    &&& self.request_path_ok(req)
                },
                _ => false,
            },
            Some((_, true)) => acts.len() == 0,
            Some((id, false)) => acts.len() == 2 && match acts[0] {
                MirrorAction::ConfigureMirror { project_id, config } => {
                    &&& project_id == id
                    &&& config.url@ == self.mirror_url@
                    &&& config.enabled
                    &&& !config.only_protected_branches
                    &&& !config.keep_divergent_refs
                },
                _ => false,
            } && acts[1] == MirrorAction::TriggerPull(id),
        }
    }

    /// Resolves a source descriptor, an optional target path and a
    /// direction: errors as `parse_source` and `build_mirror_url` give them.
    pub fn new(source: &str, target: Option<&str>, direction: &str) -> (r: Result<MirrorPlan, Error>)
        ensures
            match r {
                Ok(p) => match source_parts(source@) {
                    Some((pv, o, rp)) => {
                        &&& p.provider@ == pv
                        &&& p.owner@ == o
                        &&& p.repo@ == rp
                        &&& mirror_url_spec(pv, o, rp) == Some(p.mirror_url@)
                        &&& p.target_path@ == target_path_spec(
                            o,
                            rp,
                            match target {
                                Some(t) => Some(t@),
                                None => None,
                            },
                        )
                        &&& p.project_name@ == last_segment(p.target_path@)
                        &&& p.direction@ == direction@
                        &&& p.namespace_id is None
                    },
                    None => false,
                },
                Err(e) => e is Config && source_parts(source@) is None,
            },
    {
        let (provider, owner, repo) = parse_source(source)?;
        proof {
            reveal_strlit("github");
            reveal_strlit("gitlab");
        }
        let mirror_url = build_mirror_url(provider, owner, repo)?;
        let target_path = target_path(owner, repo, target);
        let project_name = project_name(target_path.as_str());
        Ok(
            MirrorPlan {
                provider: owned(provider),
                owner: owned(owner),
                repo: owned(repo),
                mirror_url,
                target_path,
                project_name,
                direction: owned(direction),
                namespace_id: None,
            },
        )
    }

    /// The group part of the target path (before its last `/`), when it
    /// has one: the namespace the project is created in.
    pub fn group_path(&self) -> (r: Option<String>)
        ensures
            match r {
                Some(g) => group_of(self.target_path@) == Some(g@),
                None => group_of(self.target_path@) is None,
            },
    {
        match rfind_char(self.target_path.as_str(), '/') {
            Some(i) => Some(owned(self.target_path.as_str().substring_char(0, i))),
            None => None,
        }
    }

    /// The plan with the namespace of its target's group, as the platform
    /// reports it (`found`); a configuration error naming the group when
    /// the target has one that does not exist.
    pub fn with_namespace(self, found: Option<u64>) -> (r: Result<MirrorPlan, Error>)
        ensures
            match group_of(self.target_path@) {
                None => r is Ok && r->Ok_0 == (MirrorPlan { namespace_id: None, ..self }),
                Some(g) => match found {
                    Some(id) => r is Ok && r->Ok_0 == (MirrorPlan { namespace_id: Some(id), ..self }),
                    None => r is Err && r->Err_0 is Config && r->Err_0->Config_0@
                        == "Namespace not found: "@ + g,
                },
            },
    {
        match self.group_path() {
            None => Ok(MirrorPlan { namespace_id: None, ..self }),
            Some(g) => match found {
                Some(id) => Ok(MirrorPlan { namespace_id: Some(id), ..self }),
                None => Err(Error::Config(join2("Namespace not found: ", g.as_str()))),
            },
        }
    }

    /// The request that creates the target project as a private pull
    /// mirror in the plan's namespace; the path is set when the target has a
    /// group prefix.
    pub fn create_request(&self) -> (r: CreateProjectRequest)
        ensures
            r.name@ == self.project_name@,
            opt_view(r.import_url) == Some(self.mirror_url@),
            r.mirror,
            r.visibility == Visibility::Private,
            self.request_path_ok(r),
    {
        let mut req = CreateProjectRequest::new(self.project_name.as_str()).visibility(
            Visibility::Private,
        ).import_url(self.mirror_url.as_str()).mirror(true);
        if let Some(id) = self.namespace_id {
            req = req.namespace_id(id);
        }
        if contains_char(self.target_path.as_str(), '/') {
            req.path(self.project_name.as_str())
        } else {
            req
        }
    }

    /// What adding the mirror takes, given the target project as the
    /// platform reports it: nothing in a dry run or when it already
    /// mirrors, otherwise as `add_actions_ok` states.
    pub fn add_actions(&self, dry_run: bool, existing: Option<&Project>) -> (r: Vec<MirrorAction>)
        ensures
            dry_run ==> r@.len() == 0,
            !dry_run ==> self.add_actions_ok(status_of(existing), r@),
    {
        let mut acts: Vec<MirrorAction> = Vec::new();
        if dry_run {
            return acts;
        }
        match existing {
            None => {
                acts.push(MirrorAction::CreateProject(self.create_request()));
            },
            Some(p) => {
                if !p.mirror {
                    let config = MirrorConfig {
                        url: owned(self.mirror_url.as_str()),
                        enabled: true,
                        only_protected_branches: false,
                        keep_divergent_refs: false,
                    };
                    acts.push(MirrorAction::ConfigureMirror { project_id: p.id, config });
                    acts.push(MirrorAction::TriggerPull(p.id));
                }
            },
        }
        acts
    }
}

/// Adding a mirror twice with no change in between: whatever the first
/// call did, the second call finds the project mirrored and does nothing.
pub proof fn lemma_add_idempotent(
    plan: MirrorPlan,
    st: Option<(u64, bool)>,
    first: Seq<MirrorAction>,
    second: Seq<MirrorAction>,
    new_id: u64,
)
    requires
        plan.add_actions_ok(st, first),
        plan.add_actions_ok(after_actions(st, first, new_id), second),
    ensures
        second.len() == 0,
{
    match st {
        None => {
            assert(first.drop_last().len() == 0);
            assert(first.last() == first[0]);
        },
        Some((id, true)) => {},
        Some((id, false)) => {
            let f1 = first.drop_last();
            assert(f1.len() == 1 && f1[0] == first[0]);
            assert(f1.drop_last().len() == 0);
            assert(f1.last() == first[0]);
            assert(after_actions(st, f1.drop_last(), new_id) == st);
            assert(after_actions(st, f1, new_id) == Some((id, true)));
            assert(first.last() == first[1]);
            assert(after_actions(st, first, new_id) == Some((id, true)));
        },
    }
}

/// Decides whether a removal may proceed. Outside a dry run both purge
/// and disabling require the `confirmed` flag; `Ok(true)` means look the
/// project up and act, `Ok(false)` means a dry run that only reports.
pub fn removal_allowed(confirmed: bool, purge: bool, dry_run: bool) -> (r: Result<bool, Error>)
    ensures
        !confirmed && !dry_run ==> r is Err && r->Err_0 is Config,
        purge && !confirmed && !dry_run ==> r->Err_0->Config_0@ == PURGE_WARNING@,
        !purge && !confirmed && !dry_run ==> r->Err_0->Config_0@
            == "Use --yes to confirm mirror removal"@,
        confirmed || dry_run ==> r == Ok::<bool, Error>(!dry_run),
{
    if purge && !confirmed && !dry_run {
        return Err(Error::Config(owned(PURGE_WARNING)));
    }
    if !confirmed && !dry_run {
        return Err(Error::Config(owned("Use --yes to confirm mirror removal")));
    }
    Ok(!dry_run)
}

/// The configuration error for a project that does not exist.
fn project_not_found(repo: &str) -> (r: Error)
    ensures
        r is Config,
        r->Config_0@ == "Project not found: "@ + repo@,
{
    Error::Config(join2("Project not found: ", repo))
}

/// What removal does to the project found at `repo`: purge deletes it,
/// otherwise its mirroring is switched off and the project kept; a
/// missing project is a configuration error naming it.
pub fn remove_action(repo: &str, purge: bool, existing: Option<&Project>) -> (r: Result<
    MirrorAction,
    Error,
>)
    ensures
        match existing {
            None => r is Err && r->Err_0 is Config && r->Err_0->Config_0@ == "Project not found: "@
                + repo@,
            Some(p) => r is Ok && if purge {
                r->Ok_0 == MirrorAction::DeleteProject(p.id)
            } else {
                match r->Ok_0 {
                    MirrorAction::ConfigureMirror { project_id, config } => project_id == p.id
                        && !config.enabled && config.url@.len() == 0
                        && !config.only_protected_branches && !config.keep_divergent_refs,
                    _ => false,
                }
            },
        },
{
    match existing {
        None => Err(project_not_found(repo)),
        Some(p) => {
            if purge {
                Ok(MirrorAction::DeleteProject(p.id))
            } else {
                Ok(
                    MirrorAction::ConfigureMirror {
                        project_id: p.id,
                        config: MirrorConfig {
                            url: String::new(),
                            enabled: false,
                            only_protected_branches: false,
                            keep_divergent_refs: false,
                        },
                    },
                )
            }
        },
    }
}

/// The project to pull for a sync of `repo`: a configuration error naming
/// the project when it does not exist or is not a mirror.
pub fn sync_target(repo: &str, existing: Option<&Project>) -> (r: Result<u64, Error>)
    ensures
        match existing {
            None => r is Err && r->Err_0 is Config && r->Err_0->Config_0@ == "Project not found: "@
                + repo@,
            Some(p) => if p.mirror {
                r == Ok::<u64, Error>(p.id)
            } else {
                r is Err && r->Err_0 is Config && r->Err_0->Config_0@ == "Project '"@ + repo@
                    + "' is not configured as a mirror"@
            },
        },
{
    match existing {
        None => Err(project_not_found(repo)),
        Some(p) => {
            if !p.mirror {
                return Err(
                    Error::Config(join3("Project '", repo, "' is not configured as a mirror")),
                );
            }
            Ok(p.id)
        },
    }
}

} // verus!
