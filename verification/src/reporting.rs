//! Reporting: the terminal outcome message of one profile, and the
//! per-profile configuration summary. The library builds the lines; the
//! caller's logging sink emits them.

use vstd::prelude::*;
use vstd::string::*;

use crate::config::{AppConfig, CloudInitSource, ImageSource};
use crate::engine::CreateOutcome;
use crate::helpers::{expand_env_vars, placeholder_free};

verus! {

/// The one terminal message per profile.
pub open spec fn outcome_message_spec(
    outcome: CreateOutcome,
    hostname: Seq<char>,
    is_distro: bool,
) -> Seq<char> {
    match outcome {
        CreateOutcome::Created => if is_distro {
            "WSL instance '"@ + hostname + "' installed successfully."@
        } else {
            "WSL instance '"@ + hostname + "' created successfully."@
        },
        CreateOutcome::AlreadyExists => "WSL instance '"@ + hostname + "' already exists."@,
        CreateOutcome::Skipped => "WSL instance '"@ + hostname + "' was skipped."@,
    }
}

/// Build the outcome message, distinguishing a catalog install from an
/// archive import.
pub fn outcome_message(outcome: CreateOutcome, hostname: &str, is_distro: bool) -> (r: String)
    ensures
        r@ == outcome_message_spec(outcome, hostname@, is_distro),
{
    let mut m = String::from_str("WSL instance '");
    m.append(hostname);
    match outcome {
        CreateOutcome::Created => {
            if is_distro {
                m.append("' installed successfully.");
            } else {
                m.append("' created successfully.");
            }
        },
        CreateOutcome::AlreadyExists => {
            m.append("' already exists.");
        },
        CreateOutcome::Skipped => {
            m.append("' was skipped.");
        },
    }
    proof {
        assert(m@ =~= outcome_message_spec(outcome, hostname@, is_distro));
    }
    m
}

/// The plain outcome message, as the per-run report logs it.
pub fn log_create_outcome(outcome: CreateOutcome, hostname: &str) -> (r: String)
    ensures
        r@ == outcome_message_spec(outcome, hostname@, false),
{
    outcome_message(outcome, hostname, false)
}

/// The install directory as the summary displays it: expanded when the
/// environment resolves its placeholders, the configured text when the
/// expansion fails — and always exactly the configured text when it holds
/// no placeholders.
pub fn expand_install_dir(profile: &AppConfig) -> (r: String)
    ensures
        placeholder_free(profile.install_dir@) ==> r@ == profile.install_dir@,
{
    match expand_env_vars(profile.install_dir.as_str()) {
        Ok(s) => s,
        Err(_) => profile.install_dir.clone(),
    }
}

/// The summary lines of one profile, in report order; `install_dir_shown`
/// is the displayed (possibly expanded) install directory.
pub open spec fn summary_lines_spec(
    profile_name: Seq<char>,
    p: AppConfig,
    install_dir_shown: Seq<char>,
) -> Seq<Seq<char>> {
    let base = seq![
        "Profile: "@ + profile_name,
        "Override: "@ + (if p.override_instance {
            "true"@
        } else {
            "false"@
        }),
        "Hostname: "@ + p.hostname@,
        "User: "@ + p.username@,
        "Install dir: "@ + install_dir_shown,
        match p.cloud_init {
            None => "Cloud-init: not configured"@,
            Some(CloudInitSource::File { path }) => "Cloud-init: file "@ + path@,
            Some(CloudInitSource::Inline { content }) => "Cloud-init: inline content"@,
        },
        match p.image {
            ImageSource::Distro { name } => "Using WSL distro '"@ + name@ + "'"@,
            ImageSource::File { path } => "Using image file "@ + path@,
        },
    ];
    let b1 = match p.http_proxy {
        Some(u) => base.push("HTTP proxy: "@ + u@),
        None => base,
    };
    match p.https_proxy {
        Some(u) => b1.push("HTTPS proxy: "@ + u@),
        None => b1,
    }
}

fn prefixed(prefix: &str, rest: &str) -> (r: String)
    ensures
        r@ == prefix@ + rest@,
{
    let mut m = String::from_str(prefix);
    m.append(rest);
    m
}

/// Build the per-profile summary, per [`summary_lines_spec`]: the lines
/// show the expanded install directory (environment-dependent, so it is
/// bound existentially), which is the configured text itself whenever
/// that holds no placeholders.
pub fn log_config_summary(profile_name: &str, profile: &AppConfig) -> (r: Vec<String>)
    ensures
        exists|shown: Seq<char>|
            {
                &&& #[trigger] r.deep_view() == summary_lines_spec(profile_name@, *profile, shown)
                &&& (placeholder_free(profile.install_dir@) ==> shown == profile.install_dir@)
            },
{
    let shown_dir = expand_install_dir(profile);
    let mut lines: Vec<String> = Vec::new();
    lines.push(prefixed("Profile: ", profile_name));
    if profile.override_instance {
        lines.push(prefixed("Override: ", "true"));
    } else {
        lines.push(prefixed("Override: ", "false"));
    }
    lines.push(prefixed("Hostname: ", profile.hostname.as_str()));
    lines.push(prefixed("User: ", profile.username.as_str()));
    lines.push(prefixed("Install dir: ", shown_dir.as_str()));
    match &profile.cloud_init {
        None => {
            lines.push("Cloud-init: not configured".to_owned());
        },
        Some(CloudInitSource::File { path }) => {
            lines.push(prefixed("Cloud-init: file ", path.as_str()));
        },
        Some(CloudInitSource::Inline { content }) => {
            lines.push("Cloud-init: inline content".to_owned());
        },
    }
    match &profile.image {
        ImageSource::Distro { name } => {
            let mut m = String::from_str("Using WSL distro '");
            m.append(name.as_str());
            m.append("'");
            proof {
                assert(m@ =~= "Using WSL distro '"@ + name@ + "'"@);
            }
            lines.push(m);
        },
        ImageSource::File { path } => {
            lines.push(prefixed("Using image file ", path.as_str()));
        },
    }
    if let Some(u) = &profile.http_proxy {
        lines.push(prefixed("HTTP proxy: ", u.as_str()));
    }
    if let Some(u) = &profile.https_proxy {
        lines.push(prefixed("HTTPS proxy: ", u.as_str()));
    }
    proof {
        assert(lines.deep_view() =~~= summary_lines_spec(profile_name@, *profile, shown_dir@));
    }
    lines
}

} // verus!
