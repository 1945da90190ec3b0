//! Provisioning of named WSL instances from declarative profiles.
//!
//! The library holds the decision logic of the provisioner: the environment
//! validator, the catalog matcher, the cloud-init preparation pipeline and the
//! per-profile orchestrator. Instance mechanics are delegated to a backend
//! behind the [`engine::WslEngine`] trait; every call into that backend is
//! recorded in a ghost call log, and the orchestrator's contracts pin the
//! exact sequence of calls that a run may issue.

pub mod cli;
pub mod cloud_init;
pub mod commands;
pub mod config;
pub mod engine;
pub mod errors;
pub mod helpers;
pub mod manager;
pub mod provider;
pub mod reporting;
pub mod text;
pub mod validation;
