use wslforge::engine::{ApiEngine, CreateOutcome, FakeEngine, WslEngine};
use wslforge::provider::WslProvider;

#[test]
fn fake_engine_probe_reports_presence() {
    let mut e = FakeEngine::with_instances(vec!["Dev1".to_string()]);
    assert_eq!(e.instance_exists("Dev1").unwrap(), true);
    assert_eq!(e.instance_exists("Other").unwrap(), false);
    assert_eq!(e.n_probes, 2);
    assert_eq!(e.n_deletes, 0);
    assert_eq!(e.n_creates, 0);
}

#[test]
fn fake_engine_delete_removes_instance() {
    let mut e = FakeEngine::with_instances(vec!["A".to_string(), "B".to_string()]);
    e.delete_instance("A").unwrap();
    assert_eq!(e.instance_exists("A").unwrap(), false);
    assert_eq!(e.instance_exists("B").unwrap(), true);
    assert_eq!(e.n_deletes, 1);
}

#[test]
fn fake_engine_create_adds_instance() {
    let mut e = FakeEngine::new();
    e.create_from_distro("Ubuntu", "Dev1").unwrap();
    assert_eq!(e.instance_exists("Dev1").unwrap(), true);
    assert_eq!(e.instance_exists("Ubuntu").unwrap(), false);
    e.create_from_file("Dev2", "/vm/Dev2", "/img/rootfs.tar").unwrap();
    assert_eq!(e.instance_exists("Dev2").unwrap(), true);
    assert_eq!(e.n_creates, 2);
}

#[test]
fn api_engine_is_unimplemented() {
    let mut e = ApiEngine::new();
    assert!(e.instance_exists("x").is_err());
    assert!(e.delete_instance("x").is_err());
    assert!(e.create_from_file("x", "d", "f").is_err());
    assert!(e.create_from_distro("Ubuntu", "x").is_err());
}

#[test]
fn provider_delete_is_idempotent() {
    // Deleting a non-existent instance is a no-op, not an error, and the
    // engine's delete is never invoked.
    let mut p = WslProvider::new(FakeEngine::new());
    assert!(p.delete_instance("Ghost").is_ok());
    let e = p.into_engine();
    assert_eq!(e.n_probes, 1);
    assert_eq!(e.n_deletes, 0);
}

#[test]
fn provider_delete_removes_existing() {
    let mut p = WslProvider::new(FakeEngine::with_instances(vec!["Dev1".to_string()]));
    assert!(p.delete_instance("Dev1").is_ok());
    let mut e = p.into_engine();
    assert_eq!(e.n_deletes, 1);
    assert_eq!(e.instance_exists("Dev1").unwrap(), false);
}

#[test]
fn provider_create_reports_created() {
    let mut p = WslProvider::new(FakeEngine::new());
    assert_eq!(p.create_from_distro("Ubuntu", "Dev1").unwrap(), CreateOutcome::Created);
    assert_eq!(p.create_from_file("Dev2", "/vm/Dev2", "/img/r.tar").unwrap(), CreateOutcome::Created);
}
