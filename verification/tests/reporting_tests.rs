use wslforge::config::{AppConfig, CloudInitSource, ImageSource};
use wslforge::engine::CreateOutcome;
use wslforge::reporting::{log_config_summary, log_create_outcome, outcome_message};

fn report_profile() -> AppConfig {
    AppConfig {
        hostname: "Dev1".to_string(),
        username: "wsluser".to_string(),
        password: Some("secret".to_string()),
        http_proxy: Some("http://proxy:3128/".to_string()),
        https_proxy: None,
        no_proxy: None,
        install_dir: "/vms/dir".to_string(),
        cloud_init: Some(CloudInitSource::Inline { content: "#cloud-config".to_string() }),
        override_instance: true,
        image: ImageSource::Distro { name: "Ubuntu".to_string() },
    }
}

#[test]
fn outcome_messages_are_exact() {
    assert_eq!(
        log_create_outcome(CreateOutcome::Created, "Dev1"),
        "WSL instance 'Dev1' created successfully."
    );
    assert_eq!(
        log_create_outcome(CreateOutcome::AlreadyExists, "Dev1"),
        "WSL instance 'Dev1' already exists."
    );
    assert_eq!(
        log_create_outcome(CreateOutcome::Skipped, "Dev1"),
        "WSL instance 'Dev1' was skipped."
    );
    assert_eq!(
        outcome_message(CreateOutcome::Created, "Dev1", true),
        "WSL instance 'Dev1' installed successfully."
    );
}

#[test]
fn summary_lists_profile_fields() {
    let lines = log_config_summary("dev", &report_profile());
    assert_eq!(
        lines,
        vec![
            "Profile: dev".to_string(),
            "Override: true".to_string(),
            "Hostname: Dev1".to_string(),
            "User: wsluser".to_string(),
            "Install dir: /vms/dir".to_string(),
            "Cloud-init: inline content".to_string(),
            "Using WSL distro 'Ubuntu'".to_string(),
            "HTTP proxy: http://proxy:3128/".to_string(),
        ]
    );
}

#[test]
fn summary_file_image_and_no_cloud_init() {
    let mut p = report_profile();
    p.cloud_init = None;
    p.http_proxy = None;
    p.override_instance = false;
    p.image = ImageSource::File { path: "/img/rootfs.tar".to_string() };
    let lines = log_config_summary("dev", &p);
    assert_eq!(
        lines,
        vec![
            "Profile: dev".to_string(),
            "Override: false".to_string(),
            "Hostname: Dev1".to_string(),
            "User: wsluser".to_string(),
            "Install dir: /vms/dir".to_string(),
            "Cloud-init: not configured".to_string(),
            "Using image file /img/rootfs.tar".to_string(),
        ]
    );
}

#[test]
fn defaults_match_documented_values() {
    assert_eq!(wslforge::config::default_hostname(), "UbuntuWSL");
    assert_eq!(wslforge::config::default_username(), "wsluser");
    assert_eq!(wslforge::config::default_install_dir(), "%userprofile%/VMs");
    assert_eq!(wslforge::config::default_cloud_init_path(), "cloud-init.yaml");
    assert_eq!(wslforge::config::default_distro(), "Ubuntu");
    let args = wslforge::cli::Args::default();
    assert_eq!(args.config, "config.yaml");
    assert!(!args.dry_run && !args.debug && !args.print_config);
    assert_eq!(args.verbose, 0);
    assert!(matches!(
        wslforge::config::ImageSource::default(),
        wslforge::config::ImageSource::Distro { .. }
    ));
}
