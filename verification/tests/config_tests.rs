use wslforge::config::{AppConfig, ImageSource, RootConfig};
use wslforge::engine::WslEngine;
use wslforge::engine::FakeEngine;
use wslforge::commands::{create_instance, delete_instance_if_exists};

fn cfg_profile(hostname: &str) -> AppConfig {
    AppConfig {
        hostname: hostname.to_string(),
        username: "wsluser".to_string(),
        password: None,
        http_proxy: None,
        https_proxy: None,
        no_proxy: None,
        install_dir: "/vms".to_string(),
        cloud_init: None,
        override_instance: false,
        image: ImageSource::Distro { name: "Ubuntu".to_string() },
    }
}

#[test]
fn root_config_iterates_in_sorted_key_order() {
    let mut cfg = RootConfig::new();
    assert!(!cfg.insert("zeta".to_string(), cfg_profile("zeta")));
    assert!(!cfg.insert("alpha".to_string(), cfg_profile("alpha")));
    assert!(!cfg.insert("Middle".to_string(), cfg_profile("Middle")));
    assert_eq!(cfg.len(), 3);
    // Byte order, as a byte-keyed ordered map would iterate.
    assert_eq!(cfg.entry_at(0).0, "Middle");
    assert_eq!(cfg.entry_at(1).0, "alpha");
    assert_eq!(cfg.entry_at(2).0, "zeta");
}

#[test]
fn root_config_insert_replaces_existing_key() {
    let mut cfg = RootConfig::new();
    assert!(!cfg.insert("dev".to_string(), cfg_profile("First")));
    assert!(cfg.insert("dev".to_string(), cfg_profile("Second")));
    assert_eq!(cfg.len(), 1);
    assert_eq!(cfg.get("dev").unwrap().hostname, "Second");
}

#[test]
fn root_config_get_finds_only_present_keys() {
    let mut cfg = RootConfig::new();
    cfg.insert("dev".to_string(), cfg_profile("Dev1"));
    assert!(cfg.get("dev").is_some());
    assert!(cfg.get("prod").is_none());
    assert!(cfg.get("DEV").is_none());
}

#[test]
fn command_delete_if_exists_is_a_no_op_when_absent() {
    let mut e = FakeEngine::new();
    assert!(delete_instance_if_exists(&mut e, "Ghost").is_ok());
    assert_eq!((e.n_probes, e.n_deletes), (1, 0));
    let mut e2 = FakeEngine::with_instances(vec!["Dev1".to_string()]);
    assert!(delete_instance_if_exists(&mut e2, "Dev1").is_ok());
    assert_eq!((e2.n_probes, e2.n_deletes), (1, 1));
    assert_eq!(e2.instance_exists("Dev1").unwrap(), false);
}

#[test]
fn command_create_skips_existing_instance() {
    let mut e = FakeEngine::with_instances(vec!["Dev1".to_string()]);
    assert!(create_instance(&mut e, &cfg_profile("Dev1")).is_ok());
    assert_eq!((e.n_probes, e.n_creates), (1, 0));
}

#[test]
fn command_create_builds_missing_instance() {
    let mut e = FakeEngine::new();
    assert!(create_instance(&mut e, &cfg_profile("Dev1")).is_ok());
    assert_eq!((e.n_probes, e.n_creates), (1, 1));
    assert_eq!(e.instance_exists("Dev1").unwrap(), true);
}
