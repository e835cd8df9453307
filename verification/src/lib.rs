//! Provisioning of local Linux environments from a versioned catalog: the
//! choice of the artifact for a backend, resumable download, integrity
//! check, decompression, the directive handed to the backend, and the
//! registry of what was installed.
//!
//! Nothing here touches the network, the disk or a process. The pipelines in
//! [`downloader`] and [`install`] take what the caller observed and answer
//! with what to do next; the backends in [`backends`] name the invocations
//! of their tools; [`env_manager`] works on the list of records that the
//! caller loads and persists.

pub mod backends;
pub mod distro_registry;
pub mod downloader;
pub mod env_manager;
pub mod error;
pub mod hash;
pub mod health;
pub mod install;
pub mod models;
pub mod text;

pub use crate::models::{
    Artifact, BackendKind, DistributionsIndex, Distro, DistroVersion, InstalledEnv, Timestamp,
};
