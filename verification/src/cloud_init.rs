//! The cloud-init preparer: resolve the configured source, render the
//! first-boot template with the profile's bindings and a hashed secret,
//! and plan the writes. The plaintext password never enters the template
//! context: only its salted hash is bound.
//!
//! No file is written here; the preparer returns a [`CloudInitPlan`] that
//! says exactly which writes the caller must perform. Under dry-run the
//! plan never holds the real target; the debug copy is planned whenever
//! debug mode asks for one, independent of dry-run.

use vstd::prelude::*;
use vstd::string::*;

use crate::config::{AppConfig, CloudInitSource, ImageSource};
use crate::errors::TemplateError;
use crate::helpers::{expand_env_vars, hash_password_sha512, shadow_sha512_format};

verus! {

/// Whether minijinja accepts the template text. Relied-on fact: parsing
/// is deterministic in the source text alone.
pub uninterp spec fn tpl_parses(tpl: Seq<char>) -> bool;

/// What minijinja renders for a template under a context of `cfg`
/// bindings plus a `password_hash` binding, or `None` when rendering
/// fails. Relied-on fact: rendering is deterministic in these inputs
/// alone.
pub uninterp spec fn render_of(
    tpl: Seq<char>,
    cfg: Seq<(Seq<char>, Seq<char>)>,
    password_hash: Option<Seq<char>>,
) -> Option<Seq<char>>;

/// Relies on `minijinja::Environment::add_template`: template parsing is
/// deterministic in the source text; the error carries minijinja's
/// message.
#[verifier::external_body]
fn mj_parse(tpl: &str) -> (r: Result<(), String>)
    ensures
        r is Ok <==> tpl_parses(tpl@),
{
    let mut env = minijinja::Environment::new();
    env.add_template("cloud-init.user-data", tpl).map(|_| ()).map_err(|e| e.to_string())
}

/// Relies on `minijinja::Environment::render_named_str`: rendering is
/// deterministic in the template text and the context, which is built
/// here as `{ cfg: <the bindings>, password_hash: <the hash> }` — with
/// the hash binding simply absent when there is no hash, so that it
/// renders empty and `default` filters apply; the error carries
/// minijinja's message.
#[verifier::external_body]
fn mj_render(tpl: &str, cfg: &Vec<(String, String)>, password_hash: &Option<String>) -> (r: Result<
    String,
    String,
>)
    ensures
        r is Ok <==> render_of(tpl@, cfg.deep_view(), password_hash.deep_view()) is Some,
        r matches Ok(s) ==> Some(s@) == render_of(tpl@, cfg.deep_view(), password_hash.deep_view()),
{
    let pairs: std::collections::BTreeMap<String, String> = cfg.iter().cloned().collect();
    let mut root: std::collections::BTreeMap<&str, minijinja::Value> =
        std::collections::BTreeMap::new();
    root.insert("cfg", minijinja::Value::from_serialize(&pairs));
    if let Some(h) = password_hash {
        root.insert("password_hash", minijinja::Value::from_serialize(h));
    }
    let env = minijinja::Environment::new();
    env.render_named_str("cloud-init.user-data", tpl, minijinja::Value::from_serialize(&root))
        .map_err(|e| e.to_string())
}

/// The bindings the image source contributes: its variant tag, then its
/// name or path.
pub open spec fn image_bindings(image: ImageSource) -> Seq<(Seq<char>, Seq<char>)> {
    match image {
        ImageSource::Distro { name } => seq![("image_type"@, "distro"@), ("image_name"@, name@)],
        ImageSource::File { path } => seq![("image_type"@, "file"@), ("image_path"@, path@)],
    }
}

/// The bindings the cloud-init source contributes: nothing when none is
/// configured, else its variant tag and its path or inline text.
pub open spec fn cloud_init_bindings(source: Option<CloudInitSource>) -> Seq<
    (Seq<char>, Seq<char>),
> {
    match source {
        None => Seq::empty(),
        Some(CloudInitSource::File { path }) => seq![
            ("cloud_init_type"@, "file"@),
            ("cloud_init_path"@, path@),
        ],
        Some(CloudInitSource::Inline { content }) => seq![
            ("cloud_init_type"@, "inline"@),
            ("cloud_init_content"@, content@),
        ],
    }
}

/// The template bindings a profile exposes as `cfg`: every profile field
/// is template-addressable — identity, environment, override flag, image
/// and cloud-init source — with each absent option simply unbound. The
/// plaintext password is deliberately not among them.
pub open spec fn bindings_of(p: AppConfig) -> Seq<(Seq<char>, Seq<char>)> {
    let base = seq![
        ("hostname"@, p.hostname@),
        ("username"@, p.username@),
        ("install_dir"@, p.install_dir@),
        ("override"@, if p.override_instance {
            "true"@
        } else {
            "false"@
        }),
    ];
    let b1 = match p.http_proxy {
        Some(u) => base.push(("http_proxy"@, u@)),
        None => base,
    };
    let b2 = match p.https_proxy {
        Some(u) => b1.push(("https_proxy"@, u@)),
        None => b1,
    };
    let b3 = match p.no_proxy {
        Some(u) => b2.push(("no_proxy"@, u@)),
        None => b2,
    };
    b3 + image_bindings(p.image) + cloud_init_bindings(p.cloud_init)
}

/// Build the `cfg` bindings of a profile, per [`bindings_of`].
pub fn build_bindings(p: &AppConfig) -> (r: Vec<(String, String)>)
    ensures
        r.deep_view() == bindings_of(*p),
{
    let mut r: Vec<(String, String)> = Vec::new();
    r.push(("hostname".to_owned(), p.hostname.clone()));
    r.push(("username".to_owned(), p.username.clone()));
    r.push(("install_dir".to_owned(), p.install_dir.clone()));
    if p.override_instance {
        r.push(("override".to_owned(), "true".to_owned()));
    } else {
        r.push(("override".to_owned(), "false".to_owned()));
    }
    if let Some(u) = &p.http_proxy {
        r.push(("http_proxy".to_owned(), u.clone()));
    }
    if let Some(u) = &p.https_proxy {
        r.push(("https_proxy".to_owned(), u.clone()));
    }
    if let Some(u) = &p.no_proxy {
        r.push(("no_proxy".to_owned(), u.clone()));
    }
    match &p.image {
        ImageSource::Distro { name } => {
            r.push(("image_type".to_owned(), "distro".to_owned()));
            r.push(("image_name".to_owned(), name.clone()));
        },
        ImageSource::File { path } => {
            r.push(("image_type".to_owned(), "file".to_owned()));
            r.push(("image_path".to_owned(), path.clone()));
        },
    }
    match &p.cloud_init {
        None => {},
        Some(CloudInitSource::File { path }) => {
            r.push(("cloud_init_type".to_owned(), "file".to_owned()));
            r.push(("cloud_init_path".to_owned(), path.clone()));
        },
        Some(CloudInitSource::Inline { content }) => {
            r.push(("cloud_init_type".to_owned(), "inline".to_owned()));
            r.push(("cloud_init_content".to_owned(), content.clone()));
        },
    }
    proof {
        assert(r.deep_view() =~~= bindings_of(*p));
    }
    r
}

/// Two image sources expose the same bindings.
pub open spec fn same_image(a: ImageSource, b: ImageSource) -> bool {
    match (a, b) {
        (ImageSource::Distro { name: n1 }, ImageSource::Distro { name: n2 }) => n1@ == n2@,
        (ImageSource::File { path: p1 }, ImageSource::File { path: p2 }) => p1@ == p2@,
        _ => false,
    }
}

/// Two cloud-init configurations expose the same bindings.
pub open spec fn same_cloud_init(a: Option<CloudInitSource>, b: Option<CloudInitSource>) -> bool {
    match (a, b) {
        (None, None) => true,
        (
            Some(CloudInitSource::File { path: p1 }),
            Some(CloudInitSource::File { path: p2 }),
        ) => p1@ == p2@,
        (
            Some(CloudInitSource::Inline { content: c1 }),
            Some(CloudInitSource::Inline { content: c2 }),
        ) => c1@ == c2@,
        _ => false,
    }
}

/// The context is a function of what the bindings expose, never of the
/// plaintext password: profiles that agree on those fields have equal
/// bindings, whatever their passwords.
pub proof fn lemma_bindings_password_free(p1: AppConfig, p2: AppConfig)
    requires
        p1.hostname@ == p2.hostname@,
        p1.username@ == p2.username@,
        p1.install_dir@ == p2.install_dir@,
        p1.override_instance == p2.override_instance,
        p1.http_proxy.deep_view() == p2.http_proxy.deep_view(),
        p1.https_proxy.deep_view() == p2.https_proxy.deep_view(),
        p1.no_proxy.deep_view() == p2.no_proxy.deep_view(),
        same_image(p1.image, p2.image),
        same_cloud_init(p1.cloud_init, p2.cloud_init),
    ensures
        bindings_of(p1) == bindings_of(p2),
{
    assert(bindings_of(p1) =~~= bindings_of(p2));
}

/// Target path of the first-boot artifact: a fixed subdirectory of the
/// user's home, with a per-hostname file name.
pub open spec fn cloud_init_target_spec(userprofile: Seq<char>, hostname: Seq<char>) -> Seq<char> {
    userprofile + "/.cloud-init/"@ + hostname + ".user-data"@
}

/// Path of the operator-inspectable debug copy in the working directory.
pub open spec fn debug_copy_path_spec(cwd: Seq<char>, hostname: Seq<char>) -> Seq<char> {
    cwd + "/cloud-init."@ + hostname + ".user-data"@
}

/// The target path for a hostname, per [`cloud_init_target_spec`].
pub fn cloud_init_target(userprofile: &str, hostname: &str) -> (r: String)
    ensures
        r@ == cloud_init_target_spec(userprofile@, hostname@),
{
    let mut r = String::from_str(userprofile);
    r.append("/.cloud-init/");
    r.append(hostname);
    r.append(".user-data");
    proof {
        assert(r@ =~= cloud_init_target_spec(userprofile@, hostname@));
    }
    r
}

fn debug_copy_path(cwd: &str, hostname: &str) -> (r: String)
    ensures
        r@ == debug_copy_path_spec(cwd@, hostname@),
{
    let mut r = String::from_str(cwd);
    r.append("/cloud-init.");
    r.append(hostname);
    r.append(".user-data");
    proof {
        assert(r@ =~= debug_copy_path_spec(cwd@, hostname@));
    }
    r
}

/// One file the caller must write.
#[derive(Clone, Debug)]
pub struct FileWrite {
    pub path: String,
    pub content: String,
}

/// The writes that preparing one profile's cloud-init asks for. `target`
/// is the real artifact (never planned under dry-run); `debug_copy` is
/// the working-directory copy (planned exactly when debug mode is on and
/// a working directory is known).
#[derive(Clone, Debug)]
pub struct CloudInitPlan {
    pub target: Option<FileWrite>,
    pub debug_copy: Option<FileWrite>,
}

/// What the host handed the preparer: the home-directory locator, the
/// working directory, and — for a file-sourced cloud-init — the expanded
/// source path and the text read from it (absent when the file is
/// missing).
pub struct CloudInitInput {
    pub userprofile: Option<String>,
    pub cwd: Option<String>,
    pub file_path: Option<String>,
    pub file_text: Option<String>,
}

/// The template text the profile's cloud-init source denotes, given the
/// host's input: inline content verbatim, or the text read from the
/// expanded file path.
pub open spec fn source_text(profile: AppConfig, input: CloudInitInput) -> Option<Seq<char>> {
    match profile.cloud_init {
        None => None,
        Some(CloudInitSource::Inline { content }) => Some(content@),
        Some(CloudInitSource::File { path }) => match input.file_text {
            Some(t) => Some(t@),
            None => None,
        },
    }
}

/// A rendered artifact is correct when it is minijinja's output for the
/// profile's template under the profile's bindings and a hash binding
/// that is present exactly when a password is set — and then is a
/// shadow-format hash, never the plaintext.
pub open spec fn content_renders(profile: AppConfig, tpl: Seq<char>, s: Seq<char>) -> bool {
    exists|h: Option<Seq<char>>|
        {
            &&& (profile.password is Some <==> h is Some)
            &&& (h matches Some(hs) ==> shadow_sha512_format(hs))
            &&& Some(s) == render_of(tpl, bindings_of(profile), h)
        }
}

/// A witness that rendering really failed for the profile: under some
/// hash binding consistent with the password (present exactly when a
/// password is set, and then shadow-formatted), minijinja's named render
/// comes back empty. Since `render_of` is uninterpreted, only a body that
/// made the call and saw it fail can prove this.
pub open spec fn render_failure_witness(profile: AppConfig, tpl: Seq<char>) -> bool {
    exists|h: Option<Seq<char>>|
        {
            &&& (profile.password is Some <==> h is Some)
            &&& (h matches Some(hs) ==> shadow_sha512_format(hs))
            &&& render_of(tpl, bindings_of(profile), h) is None
        }
}

/// A witness that the template parsed and rendered for the profile, under
/// a hash binding consistent with the password.
pub open spec fn render_success_witness(profile: AppConfig, tpl: Seq<char>) -> bool {
    tpl_parses(tpl) && exists|h: Option<Seq<char>>|
        {
            &&& (profile.password is Some <==> h is Some)
            &&& (h matches Some(hs) ==> shadow_sha512_format(hs))
            &&& render_of(tpl, bindings_of(profile), h) is Some
        }
}

/// Every preparer error is owed its cause: hashing and template-store
/// loading never fail here, a missing source file or home locator is
/// really missing, a parse error means the text does not parse, and a
/// render error carries a real failure of the named render.
pub open spec fn template_error_witness(
    e: TemplateError,
    profile: AppConfig,
    input: CloudInitInput,
) -> bool {
    &&& !(e is Hash)
    &&& !(e is Load)
    &&& (e is SourceNotFound ==> (profile.cloud_init matches Some(CloudInitSource::File { path })
        && input.file_text is None))
    &&& (e is NoUserProfile ==> input.userprofile is None)
    &&& (e is Parse ==> (source_text(profile, input) matches Some(tpl) && !tpl_parses(tpl)))
    &&& (e is Render ==> (source_text(profile, input) matches Some(tpl) && tpl_parses(tpl)
        && render_failure_witness(profile, tpl)))
}

/// Prepare one profile's cloud-init: a no-op plan if none is configured;
/// otherwise resolve the source text, hash the password if one is set,
/// render, and plan the writes.
pub fn prepare_cloud_init(
    profile: &AppConfig,
    input: &CloudInitInput,
    dry_run: bool,
    debug: bool,
) -> (r: Result<CloudInitPlan, TemplateError>)
    ensures
        profile.cloud_init is None ==> (r matches Ok(plan) && plan.target is None
            && plan.debug_copy is None),
        r matches Ok(plan) ==> {
            &&& dry_run ==> plan.target is None
            &&& profile.cloud_init is Some && !dry_run ==> (plan.target matches Some(w)
                && input.userprofile matches Some(up) && w.path@ == cloud_init_target_spec(
                up@,
                profile.hostname@,
            ))
            &&& plan.target matches Some(w) ==> (source_text(*profile, *input) matches Some(tpl)
                && content_renders(*profile, tpl, w.content@))
            &&& profile.cloud_init is Some && debug && input.cwd is Some ==> plan.debug_copy
                is Some
            &&& !debug ==> plan.debug_copy is None
            &&& plan.debug_copy matches Some(w) ==> ((input.cwd matches Some(c) && w.path@
                == debug_copy_path_spec(c@, profile.hostname@)) && (source_text(
                *profile,
                *input,
            ) matches Some(tpl) && content_renders(*profile, tpl, w.content@)))
            &&& plan.target matches Some(w1) ==> (plan.debug_copy matches Some(w2)
                ==> w1.content@ == w2.content@)
        },
        r is Ok && profile.cloud_init is Some ==> (source_text(*profile, *input) matches Some(tpl)
            && render_success_witness(*profile, tpl)),
        r matches Err(e) ==> profile.cloud_init is Some,
        r matches Err(e) ==> template_error_witness(e, *profile, *input),
{
    let source = match &profile.cloud_init {
        None => {
            return Ok(CloudInitPlan { target: None, debug_copy: None });
        },
        Some(s) => s,
    };
    let userprofile = match &input.userprofile {
        Some(up) => up.clone(),
        None => {
            return Err(TemplateError::NoUserProfile);
        },
    };
    let target_path = cloud_init_target(userprofile.as_str(), profile.hostname.as_str());
    let tpl: String = match source {
        CloudInitSource::Inline { content } => content.clone(),
        CloudInitSource::File { path } => {
            match &input.file_text {
                Some(t) => t.clone(),
                None => {
                    let shown = match &input.file_path {
                        Some(p) => p.clone(),
                        None => path.clone(),
                    };
                    return Err(TemplateError::SourceNotFound { path: shown });
                },
            }
        },
    };
    if let Err(message) = mj_parse(tpl.as_str()) {
        return Err(TemplateError::Parse { message });
    }
    let password_hash: Option<String> = match &profile.password {
        Some(pw) => {
            match hash_password_sha512(pw.as_str()) {
                Ok(h) => Some(h),
                Err(e) => {
                    return Err(e);
                },
            }
        },
        None => None,
    };
    let bindings = build_bindings(profile);
    let rendered = match mj_render(tpl.as_str(), &bindings, &password_hash) {
        Ok(s) => s,
        Err(message) => {
            proof {
                assert(source_text(*profile, *input) == Some(tpl@));
                assert(render_failure_witness(*profile, tpl@)) by {
                    let h = password_hash.deep_view();
                    assert((profile.password is Some <==> h is Some) && (h matches Some(hs)
                        ==> shadow_sha512_format(hs)) && render_of(
                        tpl@,
                        bindings_of(*profile),
                        h,
                    ) is None);
                }
            }
            return Err(TemplateError::Render { message });
        },
    };
    proof {
        assert(source_text(*profile, *input) == Some(tpl@));
        assert(content_renders(*profile, tpl@, rendered@) && render_success_witness(
            *profile,
            tpl@,
        )) by {
            let h = password_hash.deep_view();
            assert((profile.password is Some <==> h is Some) && (h matches Some(hs)
                ==> shadow_sha512_format(hs)) && Some(rendered@) == render_of(
                tpl@,
                bindings_of(*profile),
                h,
            ));
        }
    }
    let debug_copy: Option<FileWrite> = if debug {
        match &input.cwd {
            Some(c) => Some(
                FileWrite {
                    path: debug_copy_path(c.as_str(), profile.hostname.as_str()),
                    content: rendered.clone(),
                },
            ),
            None => None,
        }
    } else {
        None
    };
    let target: Option<FileWrite> = if dry_run {
        None
    } else {
        Some(FileWrite { path: target_path, content: rendered })
    };
    Ok(CloudInitPlan { target, debug_copy })
}

/// For a file-sourced cloud-init, the source path after environment
/// expansion; nothing for inline or unconfigured cloud-init.
pub fn cloud_init_file_path(profile: &AppConfig) -> (r: Result<Option<String>, TemplateError>)
    ensures
        !(profile.cloud_init matches Some(CloudInitSource::File { path })) ==> (r matches Ok(o)
            && o is None),
        profile.cloud_init matches Some(CloudInitSource::File { path }) ==> (r matches Ok(o)
            ==> o is Some),
        r matches Err(e) ==> e is Render,
{
    match &profile.cloud_init {
        Some(CloudInitSource::File { path }) => {
            match expand_env_vars(path.as_str()) {
                Ok(p) => Ok(Some(p)),
                Err(e) => Err(e),
            }
        },
        _ => Ok(None),
    }
}

} // verus!
