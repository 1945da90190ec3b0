use wslforge::config::{AppConfig, ImageSource};
use wslforge::errors::{EnvironmentError, ImageValidationError, WslError};
use wslforge::validation::{
    is_likely_rootfs_archive, is_valid_wsl_distro_name, is_windows_feature_enabled,
    required_feature_names, update_wsl_version, validate_image_source, validate_windows_features,
    validate_wsl_installed, EnvironmentReport,
};

fn utf16le_bytes(s: &str) -> Vec<u8> {
    let mut out = Vec::new();
    for unit in s.encode_utf16() {
        let b = unit.to_le_bytes();
        out.push(b[0]);
        out.push(b[1]);
    }
    out
}

fn catalog_listing() -> Vec<u8> {
    utf16le_bytes(
        "The following is a list of valid distributions.\r\n\
         Install using 'wsl.exe --install <Distro>'.\r\n\
         \r\n\
         NAME                            FRIENDLY NAME\r\n\
         Ubuntu                          Ubuntu\r\n\
         Debian                          Debian GNU/Linux\r\n\
         kali-linux                      Kali Linux Rolling\r\n",
    )
}

fn distro_profile(hostname: &str, distro: &str, override_instance: bool) -> AppConfig {
    AppConfig {
        hostname: hostname.to_string(),
        username: "wsluser".to_string(),
        password: None,
        http_proxy: None,
        https_proxy: None,
        no_proxy: None,
        install_dir: "%userprofile%/VMs".to_string(),
        cloud_init: None,
        override_instance,
        image: ImageSource::Distro { name: distro.to_string() },
    }
}

#[test]
fn catalog_match_is_case_insensitive() {
    // "ubuntu", "Ubuntu" and "UBUNTU" all match the catalog entry "Ubuntu".
    let raw = catalog_listing();
    assert!(is_valid_wsl_distro_name("ubuntu", &raw));
    assert!(is_valid_wsl_distro_name("Ubuntu", &raw));
    assert!(is_valid_wsl_distro_name("UBUNTU", &raw));
    assert!(is_valid_wsl_distro_name("KALI-LINUX", &raw));
    assert!(!is_valid_wsl_distro_name("Arch", &raw));
}

#[test]
fn catalog_header_and_tokens() {
    // Lines before the header row never match, and only the first
    // whitespace-delimited token of each line is an identifier.
    let raw = catalog_listing();
    assert!(!is_valid_wsl_distro_name("The", &raw));
    assert!(!is_valid_wsl_distro_name("Install", &raw));
    assert!(!is_valid_wsl_distro_name("FRIENDLY", &raw));
    assert!(!is_valid_wsl_distro_name("GNU/Linux", &raw));
    assert!(is_valid_wsl_distro_name("Debian", &raw));
}

#[test]
fn catalog_without_header_matches_nothing() {
    let raw = utf16le_bytes("Ubuntu\r\nDebian\r\n");
    assert!(!is_valid_wsl_distro_name("Ubuntu", &raw));
}

#[test]
fn rootfs_archive_heuristic() {
    assert!(is_likely_rootfs_archive("rootfs.tar"));
    assert!(is_likely_rootfs_archive("images/noble.tar.gz"));
    assert!(is_likely_rootfs_archive("C:\\images\\NOBLE.TGZ"));
    assert!(is_likely_rootfs_archive("ARCHIVE.TAR.GZ"));
    assert!(!is_likely_rootfs_archive("rootfs.zip"));
    assert!(!is_likely_rootfs_archive("tarball.txt"));
}

#[test]
fn image_source_file_missing_fails() {
    let mut p = distro_profile("Dev1", "Ubuntu", false);
    p.image = ImageSource::File { path: "/img/rootfs.tar".to_string() };
    let r = validate_image_source(&p, false, &None);
    match r {
        Err(ImageValidationError::FileNotFound { path }) => assert_eq!(path, "/img/rootfs.tar"),
        other => panic!("expected FileNotFound, got {:?}", other),
    }
}

#[test]
fn image_source_file_present_warns_on_odd_name() {
    let mut p = distro_profile("Dev1", "Ubuntu", false);
    p.image = ImageSource::File { path: "/img/rootfs.tar".to_string() };
    assert_eq!(validate_image_source(&p, true, &None).unwrap(), false);
    p.image = ImageSource::File { path: "/img/rootfs.img".to_string() };
    assert_eq!(validate_image_source(&p, true, &None).unwrap(), true);
}

#[test]
fn image_source_unknown_distro_fails() {
    let p = distro_profile("Dev1", "Arch", false);
    let r = validate_image_source(&p, false, &Some(catalog_listing()));
    match r {
        Err(ImageValidationError::UnknownDistro { name }) => assert_eq!(name, "Arch"),
        other => panic!("expected UnknownDistro, got {:?}", other),
    }
}

#[test]
fn image_source_catalog_unavailable_fails() {
    let p = distro_profile("Dev1", "Ubuntu", false);
    let r = validate_image_source(&p, false, &None);
    assert!(matches!(r, Err(ImageValidationError::CatalogUnavailable)));
}

#[test]
fn image_source_known_distro_passes() {
    let p = distro_profile("Dev1", "Ubuntu", false);
    assert_eq!(validate_image_source(&p, false, &Some(catalog_listing())).unwrap(), false);
}

#[test]
fn wsl_installed_check() {
    assert!(validate_wsl_installed(true).is_ok());
    assert!(matches!(validate_wsl_installed(false), Err(EnvironmentError::NotInstalled)));
}

#[test]
fn update_skipped_under_dry_run() {
    // Under dry-run the update step never runs, so no result is required.
    assert!(update_wsl_version(true, &None).is_ok());
    assert!(update_wsl_version(false, &Some(true)).is_ok());
    assert!(matches!(update_wsl_version(false, &Some(false)), Err(EnvironmentError::UpdateFailed)));
    assert!(matches!(update_wsl_version(false, &None), Err(EnvironmentError::UpdateFailed)));
}

#[test]
fn features_all_disabled_are_listed() {
    let features = vec![
        ("Microsoft-Windows-Subsystem-Linux".to_string(), false),
        ("VirtualMachinePlatform".to_string(), false),
    ];
    match validate_windows_features(&features) {
        Err(EnvironmentError::FeaturesDisabled { names }) => {
            assert_eq!(
                names,
                vec![
                    "Microsoft-Windows-Subsystem-Linux".to_string(),
                    "VirtualMachinePlatform".to_string()
                ]
            );
        },
        other => panic!("expected FeaturesDisabled, got {:?}", other),
    }
}

#[test]
fn features_partial_failure_lists_only_disabled() {
    let features = vec![
        ("Microsoft-Windows-Subsystem-Linux".to_string(), true),
        ("VirtualMachinePlatform".to_string(), false),
    ];
    match validate_windows_features(&features) {
        Err(EnvironmentError::FeaturesDisabled { names }) => {
            assert_eq!(names, vec!["VirtualMachinePlatform".to_string()]);
        },
        other => panic!("expected FeaturesDisabled, got {:?}", other),
    }
    let all_on = vec![
        ("Microsoft-Windows-Subsystem-Linux".to_string(), true),
        ("VirtualMachinePlatform".to_string(), true),
    ];
    assert!(validate_windows_features(&all_on).is_ok());
}

#[test]
fn required_features_are_the_two_flags() {
    assert_eq!(
        required_feature_names(),
        vec![
            "Microsoft-Windows-Subsystem-Linux".to_string(),
            "VirtualMachinePlatform".to_string()
        ]
    );
}

#[test]
fn feature_output_state_line() {
    let enabled = "Feature Name : VirtualMachinePlatform\r\nState : Enabled\r\n";
    let disabled = "Feature Name : VirtualMachinePlatform\r\nState : Disabled\r\n";
    let indented = "Feature Name : X\r\n   State : Enabled   \r\n";
    assert!(is_windows_feature_enabled(enabled));
    assert!(!is_windows_feature_enabled(disabled));
    assert!(is_windows_feature_enabled(indented));
    assert!(!is_windows_feature_enabled(""));
}

#[test]
fn validate_all_composes_environment_and_image_checks() {
    let profile = distro_profile("Dev1", "Ubuntu", false);
    let good_report = EnvironmentReport {
        status_ok: true,
        update_ok: Some(true),
        features: vec![("VirtualMachinePlatform".to_string(), true)],
    };
    let bad_report = EnvironmentReport { status_ok: false, update_ok: None, features: vec![] };

    let ok = wslforge::validation::validate_all(
        &profile,
        &good_report,
        false,
        &Some(catalog_listing()),
        false,
    );
    assert_eq!(ok.unwrap(), false);

    let env_err =
        wslforge::validation::validate_all(&profile, &bad_report, false, &Some(catalog_listing()), false);
    assert!(matches!(env_err, Err(WslError::Environment(_))));

    let bad_image = distro_profile("Dev1", "Arch", false);
    let img_err =
        wslforge::validation::validate_all(&bad_image, &good_report, false, &Some(catalog_listing()), false);
    assert!(matches!(img_err, Err(WslError::Image(_))));
}

#[test]
fn environment_report_order_of_errors() {
    let report = EnvironmentReport {
        status_ok: false,
        update_ok: None,
        features: vec![("VirtualMachinePlatform".to_string(), false)],
    };
    // The subsystem check decides before the update and feature checks.
    let r = wslforge::validation::validate_environment(&report, false);
    assert!(matches!(r, Err(EnvironmentError::NotInstalled)));

    let report2 = EnvironmentReport {
        status_ok: true,
        update_ok: Some(true),
        features: vec![("VirtualMachinePlatform".to_string(), true)],
    };
    assert!(wslforge::validation::validate_environment(&report2, false).is_ok());
}
