//! Error taxonomy of the provisioner.

use vstd::prelude::*;

verus! {

/// Host readiness failures. Fatal for the whole run, surfaced before any
/// profile is touched.
#[derive(Clone, Debug)]
pub enum EnvironmentError {
    /// The virtualization subsystem is missing or unreachable.
    NotInstalled,
    /// The subsystem self-update was attempted and did not succeed.
    UpdateFailed,
    /// One or more required host features are disabled; all of them are
    /// listed, not just the first.
    FeaturesDisabled { names: Vec<String> },
}

/// Image-source failures. Fatal for one profile, before any mutation.
#[derive(Clone, Debug)]
pub enum ImageValidationError {
    /// A file image does not exist on disk.
    FileNotFound { path: String },
    /// The catalog of installable distributions could not be obtained.
    CatalogUnavailable,
    /// A distro image names no entry of the catalog.
    UnknownDistro { name: String },
}

/// Cloud-init preparation failures, distinguished by stage.
#[derive(Clone, Debug)]
pub enum TemplateError {
    /// The configured source file is absent after expansion.
    SourceNotFound { path: String },
    /// The template text did not parse.
    Parse { message: String },
    /// The template could not be loaded back from the template store.
    /// With the in-memory store the pipeline uses, a parsed template
    /// always loads, so this stage never fails here; the variant keeps
    /// the stage distinguishable to callers.
    Load { message: String },
    /// The template parsed but did not render.
    Render { message: String },
    /// The home-directory locator is not set, so the artifact has no
    /// target path.
    NoUserProfile,
    /// Hashing the profile password failed.
    Hash { message: String },
}

/// Backend failures: an external tool invocation did not succeed.
#[derive(Clone, Debug)]
pub enum EngineError {
    /// The native-API backend is reserved and unimplemented.
    NotImplemented,
    /// The external tool returned a failure; its name, reported status and
    /// captured output are kept for the user-visible report.
    ToolFailed { tool: String, status: String, output: String },
}

/// The terminal error of one run.
#[derive(Clone, Debug)]
pub enum WslError {
    Environment(EnvironmentError),
    Image(ImageValidationError),
    Template(TemplateError),
    Engine(EngineError),
}

} // verus!
