use autogit_core::gitlab::{Project, Visibility};
use autogit_core::mirror::{
    build_mirror_url, parse_source, project_name, remove_action, removal_allowed, sync_target,
    target_path, MirrorAction, MirrorPlan,
};
use autogit_core::Error;

fn project(id: u64, path: &str, mirror: bool) -> Project {
    Project {
        id,
        name: path.rsplit('/').next().unwrap().to_string(),
        path: path.rsplit('/').next().unwrap().to_string(),
        path_with_namespace: path.to_string(),
        description: None,
        visibility: Visibility::Private,
        created_at: "2024-01-01T00:00:00Z".to_string(),
        default_branch: None,
        ssh_url_to_repo: String::new(),
        http_url_to_repo: String::new(),
        web_url: String::new(),
        namespace: None,
        mirror,
        import_status: None,
    }
}

#[test]
fn default_target_path() {
    let (provider, owner, repo) = parse_source("github:acme/widgets").unwrap();
    assert_eq!((provider, owner, repo), ("github", "acme", "widgets"));
    assert_eq!(target_path(owner, repo, None), "mirrors/acme-widgets");
    assert_eq!(target_path(owner, repo, Some("group/w")), "group/w");
    let plan = MirrorPlan::new("github:acme/widgets", None, "pull").unwrap();
    assert_eq!(plan.target_path, "mirrors/acme-widgets");
    assert_eq!(plan.project_name, "acme-widgets");
    assert_eq!(plan.mirror_url, "https://github.com/acme/widgets.git");
}

#[test]
fn source_forms() {
    assert_eq!(parse_source("gitlab:grp/sub/proj").unwrap(), ("gitlab", "grp", "sub/proj"));
    assert_eq!(parse_source("https://github.com/o/r.git").unwrap(), ("github", "o", "r"));
    assert_eq!(parse_source("https://github.com/o/r.git.git").unwrap(), ("github", "o", "r"));
    assert_eq!(parse_source("https://gitlab.com/o/r").unwrap(), ("gitlab", "o", "r"));
    assert!(matches!(parse_source("github:noslash"), Err(Error::Config(_))));
    match parse_source("svn:repo") {
        Err(Error::Config(m)) => assert!(m.contains("svn:repo")),
        other => panic!("unexpected {:?}", other),
    }
    assert!(matches!(parse_source("bitbucket:o/r"), Err(Error::Config(_))));
    assert!(matches!(parse_source(""), Err(Error::Config(_))));
}

#[test]
fn mirror_urls() {
    assert_eq!(build_mirror_url("gitlab", "o", "r").unwrap(), "https://gitlab.com/o/r.git");
    assert!(matches!(build_mirror_url("gitea", "o", "r"), Err(Error::Config(_))));
}

#[test]
fn project_names() {
    assert_eq!(project_name("mirrors/acme-widgets"), "acme-widgets");
    assert_eq!(project_name("plain"), "plain");
    assert_eq!(project_name("a/b/"), "");
}

#[test]
fn add_creates_missing_project() {
    let plan = MirrorPlan::new("github:acme/widgets", None, "pull").unwrap();
    let acts = plan.add_actions(false, None);
    assert_eq!(acts.len(), 1);
    match &acts[0] {
        MirrorAction::CreateProject(req) => {
            assert_eq!(req.name, "acme-widgets");
            assert_eq!(req.path.as_deref(), Some("acme-widgets"));
            assert_eq!(req.import_url.as_deref(), Some("https://github.com/acme/widgets.git"));
            assert!(req.mirror);
            assert_eq!(req.visibility, Visibility::Private);
        }
        other => panic!("unexpected {:?}", other),
    }
    let flat = MirrorPlan::new("github:acme/widgets", Some("widgets"), "pull").unwrap();
    match &flat.add_actions(false, None)[0] {
        MirrorAction::CreateProject(req) => {
            assert!(req.path.is_none());
            assert!(req.namespace_id.is_none());
        }
        other => panic!("unexpected {:?}", other),
    }
}

#[test]
fn add_configures_existing_project() {
    let plan = MirrorPlan::new("github:acme/widgets", None, "pull").unwrap();
    let existing = project(9, "mirrors/acme-widgets", false);
    let acts = plan.add_actions(false, Some(&existing));
    assert_eq!(acts.len(), 2);
    match &acts[0] {
        MirrorAction::ConfigureMirror { project_id, config } => {
            assert_eq!(*project_id, 9);
            assert_eq!(config.url, "https://github.com/acme/widgets.git");
            assert!(config.enabled);
        }
        other => panic!("unexpected {:?}", other),
    }
    assert!(matches!(acts[1], MirrorAction::TriggerPull(9)));
}

#[test]
fn add_twice_is_noop_second_time() {
    let plan = MirrorPlan::new("github:acme/widgets", None, "pull").unwrap();
    let first = plan.add_actions(false, None);
    let mirror_flag = match &first[0] {
        MirrorAction::CreateProject(req) => req.mirror,
        _ => false,
    };
    let created = project(11, "mirrors/acme-widgets", mirror_flag);
    assert!(plan.add_actions(false, Some(&created)).is_empty());

    let existing = project(12, "mirrors/acme-widgets", false);
    let first = plan.add_actions(false, Some(&existing));
    let enabled = match &first[0] {
        MirrorAction::ConfigureMirror { config, .. } => config.enabled,
        _ => false,
    };
    let configured = project(12, "mirrors/acme-widgets", enabled);
    assert!(plan.add_actions(false, Some(&configured)).is_empty());
}

#[test]
fn dry_run_add_does_nothing() {
    let plan = MirrorPlan::new("github:acme/widgets", None, "pull").unwrap();
    assert!(plan.add_actions(true, None).is_empty());
}

#[test]
fn purge_without_confirmation_refused() {
    assert!(matches!(removal_allowed(false, true, false), Err(Error::Config(_))));
    assert!(matches!(removal_allowed(false, false, false), Err(Error::Config(_))));
    assert!(matches!(removal_allowed(false, true, true), Ok(false)));
    assert!(matches!(removal_allowed(true, true, false), Ok(true)));
}

#[test]
fn remove_disables_or_deletes() {
    let p = project(3, "mirrors/x", true);
    assert!(matches!(remove_action("mirrors/x", true, Some(&p)), Ok(MirrorAction::DeleteProject(3))));
    match remove_action("mirrors/x", false, Some(&p)) {
        Ok(MirrorAction::ConfigureMirror { project_id, config }) => {
            assert_eq!(project_id, 3);
            assert!(!config.enabled);
            assert_eq!(config.url, "");
        }
        other => panic!("unexpected {:?}", other),
    }
    match remove_action("mirrors/none", true, None) {
        Err(Error::Config(m)) => assert_eq!(m, "Project not found: mirrors/none"),
        other => panic!("unexpected {:?}", other),
    }
}

#[test]
fn sync_of_non_mirror_refused() {
    let p = project(4, "team/app", false);
    match sync_target("team/app", Some(&p)) {
        Err(Error::Config(m)) => {
            assert!(m.contains("team/app"));
            assert_eq!(m, "Project 'team/app' is not configured as a mirror");
        }
        other => panic!("unexpected {:?}", other),
    }
    let m = project(5, "mirrors/y", true);
    assert_eq!(sync_target("mirrors/y", Some(&m)).unwrap(), 5);
    assert!(matches!(sync_target("nope", None), Err(Error::Config(_))));
}

#[test]
fn group_namespace_for_target() {
    let plan = MirrorPlan::new("github:acme/widgets", None, "pull").unwrap();
    assert_eq!(plan.group_path().as_deref(), Some("mirrors"));
    assert!(plan.namespace_id.is_none());
    match MirrorPlan::new("github:acme/widgets", None, "pull").unwrap().with_namespace(None) {
        Err(Error::Config(m)) => assert_eq!(m, "Namespace not found: mirrors"),
        other => panic!("unexpected {:?}", other),
    }
    let placed = plan.with_namespace(Some(42)).unwrap();
    assert_eq!(placed.namespace_id, Some(42));
    match &placed.add_actions(false, None)[0] {
        MirrorAction::CreateProject(req) => {
            assert_eq!(req.namespace_id, Some(42));
            assert_eq!(req.path.as_deref(), Some("acme-widgets"));
        }
        other => panic!("unexpected {:?}", other),
    }
    let nested = MirrorPlan::new("github:o/r", Some("a/b/c"), "pull").unwrap();
    assert_eq!(nested.group_path().as_deref(), Some("a/b"));
    let flat = MirrorPlan::new("github:o/r", Some("flat"), "pull").unwrap();
    assert!(flat.group_path().is_none());
    assert!(flat.with_namespace(None).unwrap().namespace_id.is_none());
}

#[test]
fn purge_refusal_warns() {
    match removal_allowed(false, true, false) {
        Err(Error::Config(m)) => assert!(m.contains("permanently delete")),
        other => panic!("unexpected {:?}", other),
    }
}
