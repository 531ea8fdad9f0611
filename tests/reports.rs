use autogit_core::output::{
    join_with, MirrorInfo, MirrorListOutput, ProjectStats, RunnerInfo, RunnerListOutput,
    RunnerStats, StatusOutput, TextOutput, UserInfo,
};

#[test]
fn mirror_list_lines() {
    let empty = MirrorListOutput { mirrors: vec![] };
    assert_eq!(empty.text_lines(), vec!["  No mirrors configured"]);
    let list = MirrorListOutput {
        mirrors: vec![MirrorInfo {
            id: 7,
            name: "w".to_string(),
            path: "mirrors/acme-widgets".to_string(),
            url: "https://git.example/mirrors/acme-widgets".to_string(),
            mirror_url: None,
            import_status: Some("finished".to_string()),
        }],
    };
    assert_eq!(
        list.text_lines(),
        vec![
            "Found 1 mirror(s):\n",
            "  \u{1f4e6} mirrors/acme-widgets",
            "     ID: 7",
            "     URL: https://git.example/mirrors/acme-widgets",
            "     Import Status: finished",
            "",
        ]
    );
}

#[test]
fn runner_list_lines() {
    assert_eq!(RunnerListOutput { runners: vec![] }.text_lines(), vec!["  No runners found"]);
    let list = RunnerListOutput {
        runners: vec![
            RunnerInfo {
                id: 3,
                description: Some("gpu box".to_string()),
                status: "Online".to_string(),
                runner_type: "InstanceType".to_string(),
                tags: vec!["gpu".to_string(), "cuda".to_string()],
                paused: true,
                online: true,
            },
            RunnerInfo {
                id: 4,
                description: None,
                status: "Offline".to_string(),
                runner_type: "ProjectType".to_string(),
                tags: vec![],
                paused: false,
                online: false,
            },
        ],
    };
    assert_eq!(
        list.text_lines(),
        vec![
            "Found 2 runner(s):\n",
            "  \u{1f7e2} gpu box (ID: 3)",
            "     Type: InstanceType",
            "     Tags: gpu, cuda",
            "     \u{23f8}\u{fe0f}  PAUSED",
            "",
            "  \u{1f534} unnamed (ID: 4)",
            "     Type: ProjectType",
            "",
        ]
    );
}

#[test]
fn status_lines() {
    let down = StatusOutput::disconnected("http://localhost:8080");
    assert_eq!(down.text_lines(), vec!["\u{274c} Failed to connect to GitLab: http://localhost:8080"]);
    let me = UserInfo {
        id: 1,
        username: "root".to_string(),
        name: None,
        email: None,
        admin: true,
        state: "Active".to_string(),
    };
    let dev = UserInfo { id: 2, username: "dev".to_string(), admin: false, ..UserInfo { ..me_clone(&me) } };
    let up = StatusOutput {
        connected: true,
        gitlab_url: "http://localhost:8080".to_string(),
        gitlab_version: None,
        current_user: Some(me_clone(&me)),
        users: vec![me, dev],
        projects: ProjectStats { total: 5, mirrors: 2 },
        runners: RunnerStats { total: 3, online: 1, offline: 2, paused: 0 },
    };
    assert_eq!(
        up.text_lines(),
        vec![
            "\u{2705} Connected to GitLab: http://localhost:8080",
            "   Authenticated as: root (admin)",
            "",
            "\u{1f465} Users: 2",
            "   \u{1f451} root (Active)",
            "   \u{1f464} dev (Active)",
            "",
            "\u{1f4e6} Projects: 5 (2 mirrors)",
            "",
            "\u{1f3c3} Runners: 3 total",
            "   \u{1f7e2} Online: 1",
            "   \u{1f534} Offline: 2",
            "   \u{23f8}\u{fe0f}  Paused: 0",
        ]
    );
}

fn me_clone(u: &UserInfo) -> UserInfo {
    UserInfo {
        id: u.id,
        username: u.username.clone(),
        name: u.name.clone(),
        email: u.email.clone(),
        admin: u.admin,
        state: u.state.clone(),
    }
}

#[test]
fn joining_strings() {
    assert_eq!(join_with(&vec![], ", "), "");
    assert_eq!(join_with(&vec!["a".to_string()], ", "), "a");
    assert_eq!(join_with(&vec!["a".to_string(), "b".to_string(), "c".to_string()], "-"), "a-b-c");
}
