use wslforge::cloud_init::CloudInitInput;
use wslforge::config::{AppConfig, CloudInitSource, ImageSource};
use wslforge::engine::{ApiEngine, CreateOutcome, FakeEngine};
use wslforge::errors::WslError;
use wslforge::engine::WslEngine;
use wslforge::manager::{CreateStep, HostContext, WslManager};

fn orch_utf16le(s: &str) -> Vec<u8> {
    let mut out = Vec::new();
    for unit in s.encode_utf16() {
        let b = unit.to_le_bytes();
        out.push(b[0]);
        out.push(b[1]);
    }
    out
}

fn orch_catalog() -> Vec<u8> {
    orch_utf16le("NAME        FRIENDLY NAME\r\nUbuntu      Ubuntu\r\nDebian      Debian\r\n")
}

fn orch_profile(hostname: &str, override_instance: bool) -> AppConfig {
    AppConfig {
        hostname: hostname.to_string(),
        username: "wsluser".to_string(),
        password: None,
        http_proxy: None,
        https_proxy: None,
        no_proxy: None,
        install_dir: "/vms".to_string(),
        cloud_init: None,
        override_instance,
        image: ImageSource::Distro { name: "Ubuntu".to_string() },
    }
}

fn orch_host() -> HostContext {
    HostContext {
        image_file_exists: false,
        catalog_raw: Some(orch_catalog()),
        cloud_init: CloudInitInput {
            userprofile: Some("/home/u".to_string()),
            cwd: Some("/work".to_string()),
            file_path: None,
            file_text: None,
        },
    }
}

#[test]
fn scenario_a_new_instance_is_created() {
    // Instance absent, override off: validation passes, the distro
    // install is invoked once under the hostname, outcome Created.
    let mut m = WslManager::new(FakeEngine::new());
    let profile = orch_profile("Dev1", false);
    let step = m.create_instance("Dev1", &profile, &orch_host(), false, false).unwrap();
    let outcome = match step {
        CreateStep::Ready { plan, flow, warning } => {
            assert!(!warning);
            assert!(plan.target.is_none());
            m.finish_create(flow, &profile).unwrap()
        },
        CreateStep::Done { .. } => panic!("expected Ready"),
    };
    assert_eq!(outcome, CreateOutcome::Created);
    let mut e = m.into_inner_engine();
    assert_eq!(e.n_probes, 1);
    assert_eq!(e.n_deletes, 0);
    assert_eq!(e.n_creates, 1);
    assert_eq!(e.instance_exists("Dev1").unwrap(), true);
    // The instance is named by hostname, never by the distro name.
    assert_eq!(e.instance_exists("Ubuntu").unwrap(), false);
}

#[test]
fn scenario_b_existing_instance_is_left_alone() {
    // Same profile, instance present, override off: outcome
    // AlreadyExists with zero creation or deletion calls.
    let mut m = WslManager::new(FakeEngine::with_instances(vec!["Dev1".to_string()]));
    let profile = orch_profile("Dev1", false);
    let step = m.create_instance("Dev1", &profile, &orch_host(), false, false).unwrap();
    match step {
        CreateStep::Done { outcome, plan, .. } => {
            assert_eq!(outcome, CreateOutcome::AlreadyExists);
            assert!(plan.target.is_none());
            assert!(plan.debug_copy.is_none());
        },
        CreateStep::Ready { .. } => panic!("expected Done"),
    }
    let e = m.into_inner_engine();
    assert_eq!(e.n_probes, 1);
    assert_eq!(e.n_deletes, 0);
    assert_eq!(e.n_creates, 0);
}

#[test]
fn repeated_runs_stay_already_exists() {
    // Idempotence: re-running against the existing instance decides
    // AlreadyExists every time, with one probe per run and no mutations.
    let mut m = WslManager::new(FakeEngine::with_instances(vec!["Dev1".to_string()]));
    let profile = orch_profile("Dev1", false);
    for round in 1..=3u64 {
        let step = m.create_instance("Dev1", &profile, &orch_host(), false, false).unwrap();
        match step {
            CreateStep::Done { outcome, .. } => assert_eq!(outcome, CreateOutcome::AlreadyExists),
            CreateStep::Ready { .. } => panic!("expected Done"),
        }
        let e = m.engine_ref();
        assert_eq!((e.n_probes, e.n_deletes, e.n_creates), (round, 0, 0));
    }
}

#[test]
fn override_deletes_exactly_once_before_create() {
    // Override on, instance present, no dry-run: one delete, strictly
    // before the one create call.
    let mut m = WslManager::new(FakeEngine::with_instances(vec!["Dev1".to_string()]));
    let profile = orch_profile("Dev1", true);
    let step = m.create_instance("Dev1", &profile, &orch_host(), false, false).unwrap();
    // The delete has already happened by the time the create is owed.
    {
        let e = m.engine_ref();
        assert_eq!((e.n_probes, e.n_deletes, e.n_creates), (2, 1, 0));
    }
    match step {
        CreateStep::Ready { flow, .. } => {
            let outcome = m.finish_create(flow, &profile).unwrap();
            assert_eq!(outcome, CreateOutcome::Created);
        },
        CreateStep::Done { .. } => panic!("expected Ready"),
    }
    {
        let e = m.engine_ref();
        assert_eq!((e.n_probes, e.n_deletes, e.n_creates), (2, 1, 1));
    }
}

#[test]
fn override_with_absent_instance_skips_delete() {
    let mut m = WslManager::new(FakeEngine::new());
    let profile = orch_profile("Dev1", true);
    let step = m.create_instance("Dev1", &profile, &orch_host(), false, false).unwrap();
    assert!(matches!(step, CreateStep::Ready { .. }));
    {
        let e = m.engine_ref();
        assert_eq!((e.n_probes, e.n_deletes, e.n_creates), (1, 0, 0));
    }
}

#[test]
fn dry_run_issues_no_mutations() {
    // Dry run: no delete, no create, no cloud-init target write; the
    // would-be-new instance's outcome is Skipped.
    let mut m = WslManager::new(FakeEngine::new());
    let mut profile = orch_profile("Dev1", false);
    profile.cloud_init = Some(CloudInitSource::Inline { content: "x".to_string() });
    let step = m.create_instance("Dev1", &profile, &orch_host(), true, false).unwrap();
    match step {
        CreateStep::Done { outcome, plan, .. } => {
            assert_eq!(outcome, CreateOutcome::Skipped);
            assert!(plan.target.is_none());
        },
        CreateStep::Ready { .. } => panic!("expected Done"),
    }
    {
        let e = m.engine_ref();
        assert_eq!((e.n_probes, e.n_deletes, e.n_creates), (1, 0, 0));
    }
}

#[test]
fn dry_run_with_override_does_not_delete() {
    let mut m = WslManager::new(FakeEngine::with_instances(vec!["Dev1".to_string()]));
    let profile = orch_profile("Dev1", true);
    let step = m.create_instance("Dev1", &profile, &orch_host(), true, false).unwrap();
    match step {
        CreateStep::Done { outcome, .. } => assert_eq!(outcome, CreateOutcome::Skipped),
        CreateStep::Ready { .. } => panic!("expected Done"),
    }
    {
        let e = m.engine_ref();
        assert_eq!((e.n_probes, e.n_deletes, e.n_creates), (1, 0, 0));
    }
}

#[test]
fn validation_failure_stops_before_any_create() {
    // An unknown distro fails the profile before any mutation.
    let mut m = WslManager::new(FakeEngine::new());
    let profile = {
        let mut p = orch_profile("Dev1", false);
        p.image = ImageSource::Distro { name: "Arch".to_string() };
        p
    };
    let r = m.create_instance("Dev1", &profile, &orch_host(), false, false);
    assert!(matches!(r, Err(WslError::Image(_))));
    {
        let e = m.engine_ref();
        assert_eq!((e.n_probes, e.n_deletes, e.n_creates), (1, 0, 0));
    }
}

#[test]
fn file_image_creates_under_join_of_install_dir() {
    let mut m = WslManager::new(FakeEngine::new());
    let profile = {
        let mut p = orch_profile("Dev1", false);
        p.image = ImageSource::File { path: "/img/rootfs.tar".to_string() };
        p
    };
    let host = HostContext { image_file_exists: true, ..orch_host() };
    let step = m.create_instance("Dev1", &profile, &host, false, false).unwrap();
    match step {
        CreateStep::Ready { flow, .. } => {
            assert_eq!(m.finish_create(flow, &profile).unwrap(), CreateOutcome::Created);
        },
        CreateStep::Done { .. } => panic!("expected Ready"),
    }
    let mut e = m.into_inner_engine();
    assert_eq!(e.instance_exists("Dev1").unwrap(), true);
}

#[test]
fn engine_probe_failure_aborts_profile() {
    let mut m = WslManager::new(ApiEngine::new());
    let profile = orch_profile("Dev1", false);
    let r = m.create_instance("Dev1", &profile, &orch_host(), false, false);
    assert!(matches!(r, Err(WslError::Engine(_))));
}

#[test]
fn cloud_init_artifact_planned_before_create() {
    // The artifact write is owed between the decision and the create,
    // so a first boot right after creation sees it.
    let mut m = WslManager::new(FakeEngine::new());
    let mut profile = orch_profile("Dev1", false);
    profile.cloud_init = Some(CloudInitSource::Inline {
        content: "name: {{ cfg.hostname }}".to_string(),
    });
    let step = m.create_instance("Dev1", &profile, &orch_host(), false, false).unwrap();
    match step {
        CreateStep::Ready { plan, flow, warning } => {
            assert!(!warning);
            let target = plan.target.expect("target planned");
            assert_eq!(target.path, "/home/u/.cloud-init/Dev1.user-data");
            assert_eq!(target.content, "name: Dev1");
            assert_eq!(m.engine_ref().n_creates, 0);
            assert_eq!(m.finish_create(flow, &profile).unwrap(), CreateOutcome::Created);
        },
        CreateStep::Done { .. } => panic!("expected Ready"),
    }
}
