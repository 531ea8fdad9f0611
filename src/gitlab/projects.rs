//! Project types and the requests that create and configure projects.

use crate::text::owned;
use vstd::prelude::*;

verus! {

/// A project as the platform reports it.
#[derive(Debug)]
pub struct Project {
    pub id: u64,
    pub name: String,
    pub path: String,
    pub path_with_namespace: String,
    pub description: Option<String>,
    pub visibility: Visibility,
    /// Creation time, RFC 3339.
    pub created_at: String,
    pub default_branch: Option<String>,
    pub ssh_url_to_repo: String,
    pub http_url_to_repo: String,
    pub web_url: String,
    pub namespace: Option<ProjectNamespace>,
    pub mirror: bool,
    pub import_status: Option<String>,
}

/// The namespace a project belongs to.
#[derive(Debug)]
pub struct ProjectNamespace {
    pub id: u64,
    pub name: String,
    pub path: String,
    pub kind: String,
    pub full_path: String,
}

/// Project visibility level.
#[derive(Debug, Clone, Copy, PartialEq, Eq, Structural)]
pub enum Visibility {
    Private,
    Internal,
    Public,
}

impl Default for Visibility {
    fn default() -> (r: Visibility)
        ensures
            r == Visibility::Private,
    {
        Visibility::Private
    }
}

/// Request to create a project.
#[derive(Debug)]
pub struct CreateProjectRequest {
    pub name: String,
    pub path: Option<String>,
    pub namespace_id: Option<u64>,
    pub description: Option<String>,
    pub visibility: Visibility,
    pub import_url: Option<String>,
    pub mirror: bool,
    pub initialize_with_readme: bool,
}

/// The view of an optional string.
pub open spec fn opt_view(o: Option<String>) -> Option<Seq<char>> {
    match o {
        Some(s) => Some(s@),
        None => None,
    }
}

impl CreateProjectRequest {
    /// A private project named `name`, with no other settings.
    pub fn new(name: &str) -> (r: CreateProjectRequest)
        ensures
            r.name@ == name@,
            r.path is None,
            r.namespace_id is None,
            r.description is None,
            r.visibility == Visibility::Private,
            r.import_url is None,
            !r.mirror,
            !r.initialize_with_readme,
    {
        CreateProjectRequest {
            name: owned(name),
            path: None,
            namespace_id: None,
            description: None,
            visibility: Visibility::Private,
            import_url: None,
            mirror: false,
            initialize_with_readme: false,
        }
    }

    /// Sets the path (by default the platform derives it from the name).
    pub fn path(self, path: &str) -> (r: CreateProjectRequest)
        ensures
            opt_view(r.path) == Some(path@),
            r == (CreateProjectRequest { path: r.path, ..self }),
    {
        CreateProjectRequest { path: Some(owned(path)), ..self }
    }

    /// Sets the namespace (group) the project goes into.
    pub fn namespace_id(self, id: u64) -> (r: CreateProjectRequest)
        ensures
            r == (CreateProjectRequest { namespace_id: Some(id), ..self }),
    {
        CreateProjectRequest { namespace_id: Some(id), ..self }
    }

    /// Sets the description.
    pub fn description(self, desc: &str) -> (r: CreateProjectRequest)
        ensures
            opt_view(r.description) == Some(desc@),
            r == (CreateProjectRequest { description: r.description, ..self }),
    {
        CreateProjectRequest { description: Some(owned(desc)), ..self }
    }

    /// Sets the visibility.
    pub fn visibility(self, vis: Visibility) -> (r: CreateProjectRequest)
        ensures
            r == (CreateProjectRequest { visibility: vis, ..self }),
    {
        CreateProjectRequest { visibility: vis, ..self }
    }

    /// Sets the URL the project is imported (mirrored) from.
    pub fn import_url(self, url: &str) -> (r: CreateProjectRequest)
        ensures
            opt_view(r.import_url) == Some(url@),
            r == (CreateProjectRequest { import_url: r.import_url, ..self }),
    {
        CreateProjectRequest { import_url: Some(owned(url)), ..self }
    }

    /// Sets whether the project is a pull mirror of its import URL.
    pub fn mirror(self, enabled: bool) -> (r: CreateProjectRequest)
        ensures
            r == (CreateProjectRequest { mirror: enabled, ..self }),
    {
        CreateProjectRequest { mirror: enabled, ..self }
    }

    /// Creates the project with a README.
    pub fn with_readme(self) -> (r: CreateProjectRequest)
        ensures
            r == (CreateProjectRequest { initialize_with_readme: true, ..self }),
    {
        CreateProjectRequest { initialize_with_readme: true, ..self }
    }
}

/// Mirror settings of one project.
#[derive(Debug)]
pub struct MirrorConfig {
    /// Source URL for a pull mirror, target for a push mirror.
    pub url: String,
    pub enabled: bool,
    pub only_protected_branches: bool,
    pub keep_divergent_refs: bool,
}

/// Pull mirror settings update.
#[derive(Debug)]
pub struct UpdatePullMirrorRequest {
    pub mirror: bool,
    pub import_url: Option<String>,
    pub mirror_user_id: Option<u64>,
    pub mirror_trigger_builds: Option<bool>,
    pub only_mirror_protected_branches: Option<bool>,
}

impl UpdatePullMirrorRequest {
    /// Turns pull mirroring on from `import_url`, triggering builds, for
    /// all branches.
    pub fn enable(import_url: &str) -> (r: UpdatePullMirrorRequest)
        ensures
            r.mirror,
            opt_view(r.import_url) == Some(import_url@),
            r.mirror_user_id is None,
            r.mirror_trigger_builds == Some(true),
            r.only_mirror_protected_branches == Some(false),
    {
        UpdatePullMirrorRequest {
            mirror: true,
            import_url: Some(owned(import_url)),
            mirror_user_id: None,
            mirror_trigger_builds: Some(true),
            only_mirror_protected_branches: Some(false),
        }
    }

    /// Turns pull mirroring off and leaves every other setting alone.
    pub fn disable() -> (r: UpdatePullMirrorRequest)
        ensures
            !r.mirror,
            r.import_url is None,
            r.mirror_user_id is None,
            r.mirror_trigger_builds is None,
            r.only_mirror_protected_branches is None,
    {
        UpdatePullMirrorRequest {
            mirror: false,
            import_url: None,
            mirror_user_id: None,
            mirror_trigger_builds: None,
            only_mirror_protected_branches: None,
        }
    }
}

/// A namespace or group.
#[derive(Debug)]
pub struct Namespace {
    pub id: u64,
    pub name: String,
    pub path: String,
    pub kind: String,
    pub full_path: String,
    pub parent_id: Option<u64>,
}

/// Request to create a group.
#[derive(Debug)]
pub struct CreateGroupRequest {
    pub name: String,
    pub path: String,
    pub visibility: Visibility,
    pub description: Option<String>,
    pub parent_id: Option<u64>,
}

impl CreateGroupRequest {
    /// A private top-level group.
    pub fn new(name: &str, path: &str) -> (r: CreateGroupRequest)
        ensures
            r.name@ == name@,
            r.path@ == path@,
            r.visibility == Visibility::Private,
            r.description is None,
            r.parent_id is None,
    {
        CreateGroupRequest {
            name: owned(name),
            path: owned(path),
            visibility: Visibility::Private,
            description: None,
            parent_id: None,
        }
    }

    /// Sets the visibility.
    pub fn visibility(self, vis: Visibility) -> (r: CreateGroupRequest)
        ensures
            r == (CreateGroupRequest { visibility: vis, ..self }),
    {
        CreateGroupRequest { visibility: vis, ..self }
    }

    /// Sets the description.
    pub fn description(self, desc: &str) -> (r: CreateGroupRequest)
        ensures
            opt_view(r.description) == Some(desc@),
            r == (CreateGroupRequest { description: r.description, ..self }),
    {
        CreateGroupRequest { description: Some(owned(desc)), ..self }
    }

    /// Makes the group a subgroup of `parent_id`.
    pub fn parent(self, parent_id: u64) -> (r: CreateGroupRequest)
        ensures
            r == (CreateGroupRequest { parent_id: Some(parent_id), ..self }),
    {
        CreateGroupRequest { parent_id: Some(parent_id), ..self }
    }
}

/// The projects that are mirrors, in the order given.
pub fn mirror_projects(projects: Vec<Project>) -> (r: Vec<Project>)
    ensures
        r@ == projects@.filter(|p: Project| p.mirror),
{
    let ghost all = projects@;
    let mut r: Vec<Project> = Vec::new();
    let mut rest = projects;
    let mut taken: usize = 0;
    let n = rest.len();
    while rest.len() > 0
        invariant
            taken + rest@.len() == n,
            n == all.len(),
            rest@ == all.subrange(taken as int, n as int),
            r@ == all.subrange(0, taken as int).filter(|p: Project| p.mirror),
        decreases rest@.len(),
    {
        let p = rest.remove(0);
        proof {
            assert(p == all[taken as int]);
            assert(rest@ =~= all.subrange(taken + 1, n as int));
            let pre = all.subrange(0, taken + 1);
            assert(pre.drop_last() =~= all.subrange(0, taken as int));
            assert(pre.last() == p);
            reveal(Seq::filter);
        }
        if p.mirror {
            r.push(p);
        }
        taken = taken + 1;
    }
    assert(all.subrange(0, n as int) =~= all);
    r
}

} // verus!
