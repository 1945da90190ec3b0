use wslforge::cloud_init::{prepare_cloud_init, CloudInitInput};
use wslforge::config::{AppConfig, CloudInitSource, ImageSource};
use wslforge::errors::TemplateError;

fn ci_profile(cloud_init: Option<CloudInitSource>, password: Option<&str>) -> AppConfig {
    AppConfig {
        hostname: "Dev1".to_string(),
        username: "wsluser".to_string(),
        password: password.map(|p| p.to_string()),
        http_proxy: None,
        https_proxy: None,
        no_proxy: None,
        install_dir: "%userprofile%/VMs".to_string(),
        cloud_init,
        override_instance: false,
        image: ImageSource::Distro { name: "Ubuntu".to_string() },
    }
}

fn ci_input(userprofile: Option<&str>, cwd: Option<&str>) -> CloudInitInput {
    CloudInitInput {
        userprofile: userprofile.map(|s| s.to_string()),
        cwd: cwd.map(|s| s.to_string()),
        file_path: None,
        file_text: None,
    }
}

#[test]
fn not_configured_plans_nothing() {
    let p = ci_profile(None, Some("secret"));
    let plan = prepare_cloud_init(&p, &ci_input(None, None), false, true).unwrap();
    assert!(plan.target.is_none());
    assert!(plan.debug_copy.is_none());
}

#[test]
fn password_is_hashed_never_plaintext() {
    // The rendered artifact holds a shadow-format hash token and never
    // the plaintext password substring.
    let p = ci_profile(
        Some(CloudInitSource::Inline { content: "{{ password_hash }}".to_string() }),
        Some("secret"),
    );
    let plan = prepare_cloud_init(&p, &ci_input(Some("/home/u"), None), false, false).unwrap();
    let target = plan.target.expect("target planned");
    assert_eq!(target.path, "/home/u/.cloud-init/Dev1.user-data");
    assert!(target.content.starts_with("$6$"));
    assert!(!target.content.contains("secret"));
    assert_eq!(target.content.len(), 106);
}

#[test]
fn absent_password_renders_empty_and_succeeds() {
    let p = ci_profile(
        Some(CloudInitSource::Inline { content: "[{{ password_hash }}]".to_string() }),
        None,
    );
    let plan = prepare_cloud_init(&p, &ci_input(Some("/home/u"), None), false, false).unwrap();
    assert_eq!(plan.target.unwrap().content, "[]");
}

#[test]
fn profile_fields_are_template_addressable() {
    let mut p = ci_profile(
        Some(CloudInitSource::Inline {
            content: "host={{ cfg.hostname }} user={{ cfg.username }} proxy={{ cfg.http_proxy }}"
                .to_string(),
        }),
        None,
    );
    p.http_proxy = Some("http://proxy:3128/".to_string());
    let plan = prepare_cloud_init(&p, &ci_input(Some("/home/u"), None), false, false).unwrap();
    assert_eq!(plan.target.unwrap().content, "host=Dev1 user=wsluser proxy=http://proxy:3128/");
}

#[test]
fn whole_profile_is_template_addressable() {
    let mut p = ci_profile(
        Some(CloudInitSource::Inline {
            content: "o={{ cfg.override }} t={{ cfg.image_type }} n={{ cfg.image_name }} c={{ cfg.cloud_init_type }}"
                .to_string(),
        }),
        None,
    );
    p.override_instance = true;
    let plan = prepare_cloud_init(&p, &ci_input(Some("/home/u"), None), false, false).unwrap();
    assert_eq!(plan.target.unwrap().content, "o=true t=distro n=Ubuntu c=inline");
}

#[test]
fn dry_run_never_plans_the_real_target() {
    let p = ci_profile(
        Some(CloudInitSource::Inline { content: "x".to_string() }),
        None,
    );
    let plan = prepare_cloud_init(&p, &ci_input(Some("/home/u"), Some("/work")), true, false)
        .unwrap();
    assert!(plan.target.is_none());
    assert!(plan.debug_copy.is_none());
}

#[test]
fn debug_copy_is_planned_even_under_dry_run() {
    let p = ci_profile(
        Some(CloudInitSource::Inline { content: "x".to_string() }),
        None,
    );
    let plan = prepare_cloud_init(&p, &ci_input(Some("/home/u"), Some("/work")), true, true)
        .unwrap();
    assert!(plan.target.is_none());
    let copy = plan.debug_copy.expect("debug copy planned");
    assert_eq!(copy.path, "/work/cloud-init.Dev1.user-data");
    assert_eq!(copy.content, "x");
}

#[test]
fn debug_copy_matches_target_content() {
    let p = ci_profile(
        Some(CloudInitSource::Inline { content: "hello {{ cfg.hostname }}".to_string() }),
        None,
    );
    let plan = prepare_cloud_init(&p, &ci_input(Some("/home/u"), Some("/work")), false, true)
        .unwrap();
    let target = plan.target.unwrap();
    let copy = plan.debug_copy.unwrap();
    assert_eq!(target.content, copy.content);
    assert_eq!(target.content, "hello Dev1");
}

#[test]
fn template_parse_error_is_distinct() {
    let p = ci_profile(
        Some(CloudInitSource::Inline { content: "{% if %}".to_string() }),
        None,
    );
    let r = prepare_cloud_init(&p, &ci_input(Some("/home/u"), None), false, false);
    assert!(matches!(r, Err(TemplateError::Parse { .. })));
}

#[test]
fn template_render_error_is_distinct() {
    // Parsing succeeds, rendering fails: indexing into an undefined
    // value is a render-time error under minijinja's default behavior.
    let p = ci_profile(
        Some(CloudInitSource::Inline { content: "{{ nothing.at.all }}".to_string() }),
        None,
    );
    let r = prepare_cloud_init(&p, &ci_input(Some("/home/u"), None), false, false);
    assert!(matches!(r, Err(TemplateError::Render { .. })));
}

#[test]
fn missing_source_file_fails() {
    let p = ci_profile(
        Some(CloudInitSource::File { path: "$HOME/ci.yaml".to_string() }),
        None,
    );
    let mut input = ci_input(Some("/home/u"), None);
    input.file_path = Some("/home/u/ci.yaml".to_string());
    input.file_text = None;
    let r = prepare_cloud_init(&p, &input, false, false);
    match r {
        Err(TemplateError::SourceNotFound { path }) => assert_eq!(path, "/home/u/ci.yaml"),
        other => panic!("expected SourceNotFound, got {:?}", other),
    }
}

#[test]
fn file_source_text_is_rendered() {
    let p = ci_profile(
        Some(CloudInitSource::File { path: "ci.yaml".to_string() }),
        None,
    );
    let mut input = ci_input(Some("/home/u"), None);
    input.file_path = Some("ci.yaml".to_string());
    input.file_text = Some("name: {{ cfg.hostname }}".to_string());
    let plan = prepare_cloud_init(&p, &input, false, false).unwrap();
    assert_eq!(plan.target.unwrap().content, "name: Dev1");
}

#[test]
fn missing_userprofile_fails() {
    let p = ci_profile(
        Some(CloudInitSource::Inline { content: "x".to_string() }),
        None,
    );
    let r = prepare_cloud_init(&p, &ci_input(None, None), false, false);
    assert!(matches!(r, Err(TemplateError::NoUserProfile)));
}
