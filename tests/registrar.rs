use autogit_core::registrar::{
    accelerator_tags, mask_token, parse_device_list, parse_runner_id, parse_tags,
    registration_request, registration_tags, registration_token, runner_removal_allowed,
    runner_description, runner_info,
};
use autogit_core::Error;

#[test]
fn tags_are_split_and_trimmed() {
    assert_eq!(parse_tags(Some("docker, linux ,x")), vec!["docker", "linux", "x"]);
    assert_eq!(parse_tags(Some("a,,b")), vec!["a", "", "b"]);
    assert!(parse_tags(None).is_empty());
}

#[test]
fn device_list_parsing() {
    let out = "NVIDIA GeForce RTX 4090\n  \nNVIDIA A100-SXM4-40GB \r\n";
    assert_eq!(parse_device_list(out), vec!["NVIDIA GeForce RTX 4090", "NVIDIA A100-SXM4-40GB"]);
    assert!(parse_device_list("").is_empty());
}

#[test]
fn accelerator_tag_names() {
    let devices = vec!["NVIDIA GeForce RTX 4090".to_string()];
    assert_eq!(accelerator_tags(&devices), vec!["gpu:nvidia-geforce-rtx-4090", "gpu", "cuda"]);
    assert!(accelerator_tags(&Vec::new()).is_empty());
    assert_eq!(
        registration_tags(Some("docker"), &devices),
        vec!["docker", "gpu:nvidia-geforce-rtx-4090", "gpu", "cuda"]
    );
}

#[test]
fn description_defaults_to_host() {
    assert_eq!(runner_description(Some("mine"), Some("h")), "mine");
    assert_eq!(runner_description(None, Some("box1")), "autogit-runner-box1");
    assert_eq!(runner_description(None, None), "autogit-runner-unknown");
}

#[test]
fn registration_token_required() {
    match registration_token(None) {
        Err(Error::Config(m)) => {
            assert!(m.contains("GITLAB_RUNNER_TOKEN"));
            assert!(m.contains("Admin > CI/CD > Runners"));
        }
        other => panic!("unexpected {:?}", other),
    }
    assert_eq!(registration_token(Some("GR1348941abc".to_string())).unwrap(), "GR1348941abc");
}

#[test]
fn registration_request_fields() {
    let info = runner_info("desc", "0.1.0", "linux", "x86_64");
    let req = registration_request("tok", "desc", info, true, vec!["a".to_string()]);
    assert_eq!(req.token, "tok");
    assert_eq!(req.description.as_deref(), Some("desc"));
    assert!(req.run_untagged);
    assert_eq!(req.tag_list, vec!["a"]);
    let info = req.info.unwrap();
    assert_eq!(info.platform.as_deref(), Some("linux"));
    assert_eq!(info.architecture.as_deref(), Some("x86_64"));
}

#[test]
fn tokens_are_masked() {
    assert_eq!(mask_token("glrt-abcdefghijkl"), "glrt...ijkl");
    assert_eq!(mask_token("12345678"), "****");
    assert_eq!(mask_token("123456789"), "1234...6789");
    assert_eq!(mask_token(""), "****");
}

#[test]
fn runner_removal_needs_confirmation() {
    assert!(matches!(runner_removal_allowed(false, false), Err(Error::Config(_))));
    assert!(matches!(runner_removal_allowed(false, true), Ok(false)));
    assert!(matches!(runner_removal_allowed(true, false), Ok(true)));
}

#[test]
fn runner_ids() {
    assert_eq!(parse_runner_id("42").unwrap(), 42);
    assert_eq!(parse_runner_id("+7").unwrap(), 7);
    assert_eq!(parse_runner_id("18446744073709551615").unwrap(), u64::MAX);
    assert!(matches!(parse_runner_id("18446744073709551616"), Err(Error::Config(_))));
    assert!(matches!(parse_runner_id(""), Err(Error::Config(_))));
    assert!(matches!(parse_runner_id("+"), Err(Error::Config(_))));
    assert!(matches!(parse_runner_id("12a"), Err(Error::Config(_))));
    assert!(matches!(parse_runner_id("-1"), Err(Error::Config(_))));
}
