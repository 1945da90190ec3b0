//! Host readiness and image-source validation.
//!
//! The catalog of installable distributions arrives as raw subprocess
//! bytes, possibly in a 16-bit little-endian encoding depending on host
//! locale; all decoding and line parsing is confined here, so callers
//! never touch raw bytes.

use vstd::prelude::*;

use crate::config::{AppConfig, ImageSource};
use crate::errors::{EnvironmentError, ImageValidationError, WslError};
use crate::text::{
    chars_eq, ci_eq, copy_range, first_token, first_token_spec, seq_ci_eq, split_lines,
    split_lines_spec, starts_with, starts_with_spec, str_chars, trim, trim_spec,
};

verus! {

/// The decoded form of the catalog query's output. Relied-on fact: the
/// decoder is a pure function of the bytes it is given.
pub uninterp spec fn utf16le_chars_of(bytes: Seq<u8>) -> Seq<char>;

/// Relies on `encoding_rs::UTF_16LE.decode`: decoding (including its BOM
/// sniffing) is deterministic in the input bytes alone.
#[verifier::external_body]
fn decode_utf16le(bytes: &Vec<u8>) -> (r: Vec<char>)
    ensures
        r@ == utf16le_chars_of(bytes@),
{
    let (text, _, _) = encoding_rs::UTF_16LE.decode(bytes);
    text.chars().collect()
}

/// Lines after the header row: everything up to and including the first
/// line that starts with "NAME" is dropped; with no header row, nothing
/// is left.
pub open spec fn skip_past_header(lines: Seq<Seq<char>>) -> Seq<Seq<char>>
    decreases lines.len(),
{
    if lines.len() == 0 {
        Seq::empty()
    } else if starts_with_spec(lines[0], "NAME"@) {
        lines.drop_first()
    } else {
        skip_past_header(lines.drop_first())
    }
}

/// The first whitespace-delimited token of each non-empty line.
pub open spec fn tokens_of(lines: Seq<Seq<char>>) -> Seq<Seq<char>>
    decreases lines.len(),
{
    if lines.len() == 0 {
        Seq::empty()
    } else if lines[0].len() == 0 {
        tokens_of(lines.drop_first())
    } else {
        seq![first_token_spec(lines[0])] + tokens_of(lines.drop_first())
    }
}

/// The distro identifiers of a decoded catalog listing: lines are
/// trimmed, everything up to the header row is skipped, and each
/// remaining non-empty line contributes its first token.
pub open spec fn catalog_entries(text: Seq<char>) -> Seq<Seq<char>> {
    tokens_of(skip_past_header(split_lines_spec(text).map_values(|l: Seq<char>| trim_spec(l))))
}

/// A name matches the catalog when some entry equals it up to ASCII case.
pub open spec fn catalog_matches(entries: Seq<Seq<char>>, name: Seq<char>) -> bool {
    exists|i: int| 0 <= i < entries.len() && seq_ci_eq(entries[i], name)
}

/// Catalog matching is case-insensitive: names that agree up to ASCII
/// case match exactly the same catalogs.
pub proof fn lemma_catalog_match_case_insensitive(
    entries: Seq<Seq<char>>,
    a: Seq<char>,
    b: Seq<char>,
)
    requires
        seq_ci_eq(a, b),
    ensures
        catalog_matches(entries, a) == catalog_matches(entries, b),
{
    if catalog_matches(entries, a) {
        let i = choose|i: int| 0 <= i < entries.len() && seq_ci_eq(entries[i], a);
        assert(seq_ci_eq(entries[i], b));
    }
    if catalog_matches(entries, b) {
        let i = choose|i: int| 0 <= i < entries.len() && seq_ci_eq(entries[i], b);
        assert(seq_ci_eq(entries[i], a));
    }
}

fn tokens_from(lines: &Vec<Vec<char>>, start: usize) -> (r: Vec<Vec<char>>)
    requires
        start <= lines@.len(),
    ensures
        r.deep_view() == tokens_of(lines.deep_view().skip(start as int)),
    decreases lines@.len() - start,
{
    let ghost s = lines.deep_view().skip(start as int);
    if start == lines.len() {
        let r: Vec<Vec<char>> = Vec::new();
        proof {
            assert(r.deep_view() =~~= tokens_of(s));
        }
        return r;
    }
    let mut rest = tokens_from(lines, start + 1);
    proof {
        assert(s.drop_first() =~~= lines.deep_view().skip(start as int + 1));
    }
    if lines[start].len() == 0 {
        proof {
            assert(s[0].len() == 0);
            assert(rest.deep_view() =~~= tokens_of(s));
        }
        rest
    } else {
        let tok = first_token(&lines[start]);
        let mut r: Vec<Vec<char>> = Vec::new();
        r.push(tok);
        r.append(&mut rest);
        proof {
            assert(s[0].len() != 0);
            assert(s[0] =~= lines@[start as int]@);
            assert(r.deep_view() =~~= seq![first_token_spec(s[0])] + tokens_of(s.drop_first()));
        }
        r
    }
}

proof fn lemma_skip_past_header_at(lines: Seq<Seq<char>>, h: int)
    requires
        0 <= h <= lines.len(),
        forall|t: int| 0 <= t < h ==> !starts_with_spec(#[trigger] lines[t], "NAME"@),
        h < lines.len() ==> starts_with_spec(lines[h], "NAME"@),
    ensures
        skip_past_header(lines) == if h == lines.len() {
            Seq::<Seq<char>>::empty()
        } else {
            lines.skip(h + 1)
        },
    decreases lines.len(),
{
    if lines.len() == 0 {
    } else if starts_with_spec(lines[0], "NAME"@) {
        assert(h == 0);
        assert(lines.drop_first() =~~= lines.skip(1));
    } else {
        assert(!starts_with_spec(lines[0], "NAME"@));
        assert(h > 0);
        lemma_skip_past_header_at(lines.drop_first(), h - 1);
        assert forall|t: int| 0 <= t < h - 1 implies !starts_with_spec(
            #[trigger] lines.drop_first()[t],
            "NAME"@,
        ) by {
            assert(lines.drop_first()[t] == lines[t + 1]);
        }
        if h < lines.len() {
            assert(lines.drop_first()[h - 1] == lines[h]);
            assert(lines.drop_first().skip(h) =~~= lines.skip(h + 1));
        }
    }
}

/// Parse a decoded catalog listing into its distro identifiers, per
/// [`catalog_entries`].
pub fn parse_catalog(text: &Vec<char>) -> (entries: Vec<Vec<char>>)
    ensures
        entries.deep_view() == catalog_entries(text@),
{
    let lines = split_lines(text);
    let mut trimmed: Vec<Vec<char>> = Vec::new();
    let mut i: usize = 0;
    while i < lines.len()
        invariant
            0 <= i <= lines@.len(),
            trimmed@.len() == i,
            forall|t: int|
                0 <= t < i ==> trimmed.deep_view()[t] == trim_spec(#[trigger] lines.deep_view()[t]),
            lines.deep_view() == split_lines_spec(text@),
        decreases lines@.len() - i,
    {
        proof {
            assert(lines.deep_view()[i as int] =~= lines@[i as int]@);
        }
        trimmed.push(trim(&lines[i]));
        i += 1;
    }
    proof {
        assert(trimmed.deep_view() =~~= split_lines_spec(text@).map_values(
            |l: Seq<char>| trim_spec(l),
        ));
    }
    let header = str_chars("NAME");
    let mut h: usize = 0;
    while h < trimmed.len() && !starts_with(&trimmed[h], &header)
        invariant
            0 <= h <= trimmed@.len(),
            header@ == "NAME"@,
            forall|t: int|
                0 <= t < h ==> !starts_with_spec(#[trigger] trimmed.deep_view()[t], "NAME"@),
        decreases trimmed@.len() - h,
    {
        proof {
            assert(trimmed.deep_view()[h as int] =~= trimmed@[h as int]@);
        }
        h += 1;
    }
    proof {
        if h < trimmed@.len() {
            assert(trimmed.deep_view()[h as int] =~= trimmed@[h as int]@);
        }
        lemma_skip_past_header_at(trimmed.deep_view(), h as int);
    }
    if h == trimmed.len() {
        let entries: Vec<Vec<char>> = Vec::new();
        proof {
            assert(entries.deep_view() =~~= tokens_of(skip_past_header(trimmed.deep_view())));
        }
        entries
    } else {
        let entries = tokens_from(&trimmed, h + 1);
        proof {
            assert(trimmed.deep_view().skip(h + 1 as int) == skip_past_header(
                trimmed.deep_view(),
            ));
        }
        entries
    }
}

/// Whether `name` names an entry of `entries`, up to ASCII case.
pub fn matches_catalog(entries: &Vec<Vec<char>>, name: &Vec<char>) -> (r: bool)
    ensures
        r == catalog_matches(entries.deep_view(), name@),
{
    let mut i: usize = 0;
    while i < entries.len()
        invariant
            0 <= i <= entries@.len(),
            forall|t: int| 0 <= t < i ==> !seq_ci_eq(#[trigger] entries.deep_view()[t], name@),
        decreases entries@.len() - i,
    {
        proof {
            assert(entries.deep_view()[i as int] =~= entries@[i as int]@);
        }
        if ci_eq(&entries[i], name) {
            return true;
        }
        i += 1;
    }
    false
}

/// Whether the host's catalog, as raw query output, holds `name`:
/// decode as 16-bit little-endian text, parse the listing, match
/// case-insensitively.
pub fn is_valid_wsl_distro_name(name: &str, catalog_raw: &Vec<u8>) -> (r: bool)
    ensures
        r == catalog_matches(catalog_entries(utf16le_chars_of(catalog_raw@)), name@),
{
    let text = decode_utf16le(catalog_raw);
    let entries = parse_catalog(&text);
    let name_chars = str_chars(name);
    matches_catalog(&entries, &name_chars)
}

/// Whether a feature-status query's output reports the feature enabled:
/// some line, trimmed, reads exactly "State : Enabled".
pub open spec fn feature_enabled_in_output(text: Seq<char>) -> bool {
    exists|i: int|
        0 <= i < split_lines_spec(text).len() && trim_spec(split_lines_spec(text)[i])
            == "State : Enabled"@
}

/// Read a feature-status query's output, per [`feature_enabled_in_output`].
pub fn is_windows_feature_enabled(output: &str) -> (r: bool)
    ensures
        r == feature_enabled_in_output(output@),
{
    let text = str_chars(output);
    let lines = split_lines(&text);
    let wanted = str_chars("State : Enabled");
    let mut i: usize = 0;
    while i < lines.len()
        invariant
            0 <= i <= lines@.len(),
            wanted@ == "State : Enabled"@,
            lines.deep_view() == split_lines_spec(output@),
            forall|t: int|
                0 <= t < i ==> trim_spec(#[trigger] lines.deep_view()[t]) != "State : Enabled"@,
        decreases lines@.len() - i,
    {
        proof {
            assert(lines.deep_view()[i as int] =~= lines@[i as int]@);
        }
        let trimmed = trim(&lines[i]);
        if chars_eq(&trimmed, &wanted) {
            return true;
        }
        i += 1;
    }
    false
}

/// A path separator as the host writes them.
pub open spec fn is_sep_char(c: char) -> bool {
    c == '/' || c == '\\'
}

/// The final path component: everything after the last separator.
pub open spec fn file_name_spec(s: Seq<char>) -> Seq<char>
    decreases s.len(),
{
    if s.len() == 0 {
        s
    } else if is_sep_char(s.last()) {
        Seq::empty()
    } else {
        file_name_spec(s.drop_last()).push(s.last())
    }
}

proof fn lemma_file_name_at(s: Seq<char>, k: int)
    requires
        0 <= k <= s.len(),
        forall|t: int| k <= t < s.len() ==> !is_sep_char(#[trigger] s[t]),
        k > 0 ==> is_sep_char(s[k - 1]),
    ensures
        file_name_spec(s) == s.skip(k),
    decreases s.len(),
{
    if s.len() == 0 {
        assert(s.skip(0) =~= s);
    } else if k == s.len() {
        assert(is_sep_char(s.last()));
        assert(s.skip(k) =~= Seq::<char>::empty());
    } else {
        assert(!is_sep_char(s.last()));
        lemma_file_name_at(s.drop_last(), k);
        assert(s.drop_last().skip(k).push(s.last()) =~= s.skip(k));
    }
}

fn file_name(path: &Vec<char>) -> (r: Vec<char>)
    ensures
        r@ == file_name_spec(path@),
{
    let mut k: usize = path.len();
    while k > 0 && !(path[k - 1] == '/' || path[k - 1] == '\\')
        invariant
            0 <= k <= path@.len(),
            forall|t: int| k <= t < path@.len() ==> !is_sep_char(#[trigger] path@[t]),
        decreases k,
    {
        k -= 1;
    }
    proof {
        lemma_file_name_at(path@, k as int);
        assert(path@.subrange(k as int, path@.len() as int) =~= path@.skip(k as int));
    }
    copy_range(path, k, path.len())
}

/// `s` ends with `suffix`, up to ASCII case.
pub open spec fn ends_with_ci(s: Seq<char>, suffix: Seq<char>) -> bool {
    s.len() >= suffix.len() && seq_ci_eq(s.skip(s.len() - suffix.len()), suffix)
}

fn has_suffix_ci(v: &Vec<char>, suffix: &Vec<char>) -> (r: bool)
    ensures
        r == ends_with_ci(v@, suffix@),
{
    if v.len() < suffix.len() {
        return false;
    }
    let tail = copy_range(v, v.len() - suffix.len(), v.len());
    proof {
        assert(tail@ =~= v@.skip(v@.len() - suffix@.len()));
    }
    ci_eq(&tail, suffix)
}

/// The non-fatal heuristic: a file image whose name does not look like a
/// root-filesystem archive earns a warning.
pub open spec fn archive_like(path: Seq<char>) -> bool {
    ||| ends_with_ci(file_name_spec(path), ".tar"@)
    ||| ends_with_ci(file_name_spec(path), ".tar.gz"@)
    ||| ends_with_ci(file_name_spec(path), ".tgz"@)
}

/// Whether the file name looks like a rootfs archive (.tar/.tar.gz/.tgz,
/// matched case-insensitively).
pub fn is_likely_rootfs_archive(path: &str) -> (r: bool)
    ensures
        r == archive_like(path@),
{
    let chars = str_chars(path);
    let name = file_name(&chars);
    has_suffix_ci(&name, &str_chars(".tar")) || has_suffix_ci(&name, &str_chars(".tar.gz"))
        || has_suffix_ci(&name, &str_chars(".tgz"))
}

/// Whether the image source is valid against what the host reported: a
/// file image must exist on disk, a distro image must name a catalog
/// entry of an obtained catalog.
pub open spec fn image_source_valid(
    image: ImageSource,
    file_exists: bool,
    catalog: Option<Seq<u8>>,
) -> bool {
    match image {
        ImageSource::File { path } => file_exists,
        ImageSource::Distro { name } => catalog matches Some(bytes) && catalog_matches(
            catalog_entries(utf16le_chars_of(bytes)),
            name@,
        ),
    }
}

/// Whether a valid image source still earns the archive-name warning.
pub open spec fn image_warning(image: ImageSource) -> bool {
    match image {
        ImageSource::File { path } => !archive_like(path@),
        ImageSource::Distro { name } => false,
    }
}

/// Validate the profile's image source against the host's answers:
/// `image_file_exists` is the existence probe of a file image, and
/// `catalog_raw` the raw catalog query output (absent when the query
/// failed). Returns whether the archive-name warning applies.
pub fn validate_image_source(
    profile: &AppConfig,
    image_file_exists: bool,
    catalog_raw: &Option<Vec<u8>>,
) -> (r: Result<bool, ImageValidationError>)
    ensures
        r is Ok <==> image_source_valid(
            profile.image,
            image_file_exists,
            catalog_view(*catalog_raw),
        ),
        r matches Ok(warn) ==> warn == image_warning(profile.image),
        profile.image matches ImageSource::File { path } ==> (!image_file_exists ==> (
        r matches Err(e) && e matches ImageValidationError::FileNotFound { path: p } && p@
            == path@)),
        profile.image is Distro ==> (catalog_raw is None ==> (r matches Err(e)
            && e is CatalogUnavailable)),
        profile.image matches ImageSource::Distro { name } ==> (*catalog_raw matches Some(bytes)
            ==> (!catalog_matches(catalog_entries(utf16le_chars_of(bytes@)), name@) ==> (
        r matches Err(e) && e matches ImageValidationError::UnknownDistro { name: n } && n@
            == name@))),
{
    match &profile.image {
        ImageSource::File { path } => {
            if !image_file_exists {
                Err(ImageValidationError::FileNotFound { path: path.clone() })
            } else {
                Ok(!is_likely_rootfs_archive(path.as_str()))
            }
        },
        ImageSource::Distro { name } => {
            match catalog_raw {
                None => Err(ImageValidationError::CatalogUnavailable),
                Some(bytes) => {
                    if is_valid_wsl_distro_name(name.as_str(), bytes) {
                        Ok(false)
                    } else {
                        Err(ImageValidationError::UnknownDistro { name: name.clone() })
                    }
                },
            }
        },
    }
}

/// The bytes of an optional raw catalog, at the spec level.
pub open spec fn catalog_view(catalog_raw: Option<Vec<u8>>) -> Option<Seq<u8>> {
    match catalog_raw {
        Some(bytes) => Some(bytes@),
        None => None,
    }
}

/// What the host answered to the environment probes: the subsystem
/// status query, the self-update (absent when it was not attempted), and
/// one enabled-flag per required feature, in probe order.
pub struct EnvironmentReport {
    pub status_ok: bool,
    pub update_ok: Option<bool>,
    pub features: Vec<(String, bool)>,
}

/// The names of the disabled features, in report order.
pub open spec fn disabled_of(fs: Seq<(Seq<char>, bool)>) -> Seq<Seq<char>>
    decreases fs.len(),
{
    if fs.len() == 0 {
        Seq::empty()
    } else if fs[0].1 {
        disabled_of(fs.drop_first())
    } else {
        seq![fs[0].0] + disabled_of(fs.drop_first())
    }
}

fn collect_disabled(fs: &Vec<(String, bool)>, start: usize) -> (r: Vec<String>)
    requires
        start <= fs@.len(),
    ensures
        r.deep_view() == disabled_of(fs.deep_view().skip(start as int)),
    decreases fs@.len() - start,
{
    let ghost s = fs.deep_view().skip(start as int);
    if start == fs.len() {
        let r: Vec<String> = Vec::new();
        proof {
            assert(r.deep_view() =~~= disabled_of(s));
        }
        return r;
    }
    let mut rest = collect_disabled(fs, start + 1);
    proof {
        assert(s.drop_first() =~~= fs.deep_view().skip(start as int + 1));
        assert(s[0] == fs.deep_view()[start as int]);
    }
    if fs[start].1 {
        proof {
            assert(rest.deep_view() =~~= disabled_of(s));
        }
        rest
    } else {
        let name = fs[start].0.clone();
        let mut r: Vec<String> = Vec::new();
        r.push(name);
        r.append(&mut rest);
        proof {
            assert(r.deep_view() =~~= seq![s[0].0] + disabled_of(s.drop_first()));
        }
        r
    }
}

/// Check every required feature flag, collecting all that are disabled;
/// the failure names the full list, not just the first.
pub fn validate_windows_features(features: &Vec<(String, bool)>) -> (r: Result<
    (),
    EnvironmentError,
>)
    ensures
        r is Ok <==> disabled_of(features.deep_view()).len() == 0,
        r matches Err(e) ==> e matches EnvironmentError::FeaturesDisabled { names }
            && names.deep_view() == disabled_of(features.deep_view()),
{
    let disabled = collect_disabled(features, 0);
    proof {
        assert(features.deep_view().skip(0) =~~= features.deep_view());
    }
    if disabled.len() == 0 {
        proof {
            assert(disabled.deep_view().len() == 0);
        }
        Ok(())
    } else {
        Err(EnvironmentError::FeaturesDisabled { names: disabled })
    }
}

/// Interpret the subsystem status probe.
pub fn validate_wsl_installed(status_ok: bool) -> (r: Result<(), EnvironmentError>)
    ensures
        r is Ok <==> status_ok,
        r matches Err(e) ==> e is NotInstalled,
{
    if status_ok {
        Ok(())
    } else {
        Err(EnvironmentError::NotInstalled)
    }
}

/// Interpret the self-update step: skipped entirely under dry-run, and
/// otherwise owed a successful run.
pub fn update_wsl_version(dry_run: bool, update_ok: &Option<bool>) -> (r: Result<
    (),
    EnvironmentError,
>)
    ensures
        r is Ok <==> (dry_run || *update_ok == Some(true)),
        r matches Err(e) ==> e is UpdateFailed,
{
    if dry_run {
        Ok(())
    } else {
        match update_ok {
            Some(true) => Ok(()),
            _ => Err(EnvironmentError::UpdateFailed),
        }
    }
}

/// The host features the subsystem requires.
pub fn required_feature_names() -> (r: Vec<String>)
    ensures
        r.deep_view() == seq!["Microsoft-Windows-Subsystem-Linux"@, "VirtualMachinePlatform"@],
{
    let mut r: Vec<String> = Vec::new();
    r.push("Microsoft-Windows-Subsystem-Linux".to_owned());
    r.push("VirtualMachinePlatform".to_owned());
    proof {
        assert(r.deep_view() =~~= seq![
            "Microsoft-Windows-Subsystem-Linux"@,
            "VirtualMachinePlatform"@,
        ]);
    }
    r
}

/// The whole environment is ready: subsystem present, updated (or the
/// update skipped under dry-run), every required feature enabled.
pub open spec fn env_ok(report: EnvironmentReport, dry_run: bool) -> bool {
    &&& report.status_ok
    &&& (dry_run || report.update_ok == Some(true))
    &&& disabled_of(report.features.deep_view()).len() == 0
}

/// The environment checks, in order: subsystem status, self-update,
/// required features. The first failing check decides the error.
pub fn validate_environment(report: &EnvironmentReport, dry_run: bool) -> (r: Result<
    (),
    EnvironmentError,
>)
    ensures
        r is Ok <==> env_ok(*report, dry_run),
        !report.status_ok ==> r == Result::<(), EnvironmentError>::Err(
            EnvironmentError::NotInstalled,
        ),
        report.status_ok && !(dry_run || report.update_ok == Some(true)) ==> r == Result::<
            (),
            EnvironmentError,
        >::Err(EnvironmentError::UpdateFailed),
        report.status_ok && (dry_run || report.update_ok == Some(true)) && disabled_of(
            report.features.deep_view(),
        ).len() != 0 ==> (r matches Err(e) && e matches EnvironmentError::FeaturesDisabled {
            names,
        } && names.deep_view() == disabled_of(report.features.deep_view())),
{
    match validate_wsl_installed(report.status_ok) {
        Err(e) => {
            return Err(e);
        },
        Ok(()) => {},
    }
    match update_wsl_version(dry_run, &report.update_ok) {
        Err(e) => {
            return Err(e);
        },
        Ok(()) => {},
    }
    validate_windows_features(&report.features)
}

/// The full validation of one profile: the environment checks, then the
/// image source. Returns whether the archive-name warning applies.
pub fn validate_all(
    profile: &AppConfig,
    report: &EnvironmentReport,
    image_file_exists: bool,
    catalog_raw: &Option<Vec<u8>>,
    dry_run: bool,
) -> (r: Result<bool, WslError>)
    ensures
        r is Ok <==> env_ok(*report, dry_run) && image_source_valid(
            profile.image,
            image_file_exists,
            catalog_view(*catalog_raw),
        ),
        r matches Ok(warn) ==> warn == image_warning(profile.image),
        !env_ok(*report, dry_run) ==> (r matches Err(e) && e is Environment),
        !report.status_ok ==> r == Result::<bool, WslError>::Err(
            WslError::Environment(EnvironmentError::NotInstalled),
        ),
        report.status_ok && !(dry_run || report.update_ok == Some(true)) ==> r == Result::<
            bool,
            WslError,
        >::Err(WslError::Environment(EnvironmentError::UpdateFailed)),
        report.status_ok && (dry_run || report.update_ok == Some(true)) && disabled_of(
            report.features.deep_view(),
        ).len() != 0 ==> (r matches Err(e) && e matches WslError::Environment(inner)
            && inner matches EnvironmentError::FeaturesDisabled { names } && names.deep_view()
            == disabled_of(report.features.deep_view())),
        env_ok(*report, dry_run) && !image_source_valid(
            profile.image,
            image_file_exists,
            catalog_view(*catalog_raw),
        ) ==> (r matches Err(e) && e is Image),
        env_ok(*report, dry_run) ==> (profile.image matches ImageSource::File { path } ==> (
        !image_file_exists ==> (r matches Err(e) && e matches WslError::Image(inner)
            && inner matches ImageValidationError::FileNotFound { path: p } && p@ == path@))),
        env_ok(*report, dry_run) ==> (profile.image is Distro ==> (catalog_raw is None ==> (
        r matches Err(e) && e matches WslError::Image(inner) && inner is CatalogUnavailable))),
        env_ok(*report, dry_run) ==> (profile.image matches ImageSource::Distro { name } ==> (
        *catalog_raw matches Some(bytes) ==> (!catalog_matches(
            catalog_entries(utf16le_chars_of(bytes@)),
            name@,
        ) ==> (r matches Err(e) && e matches WslError::Image(inner)
            && inner matches ImageValidationError::UnknownDistro { name: n } && n@ == name@)))),
{
    match validate_environment(report, dry_run) {
        Err(e) => {
            return Err(WslError::Environment(e));
        },
        Ok(()) => {},
    }
    match validate_image_source(profile, image_file_exists, catalog_raw) {
        Err(e) => Err(WslError::Image(e)),
        Ok(warn) => Ok(warn),
    }
}

} // verus!
