//! The catalog of distributions and the record of an installed environment.

use vstd::prelude::*;
use crate::text::str_eq;

verus! {

/// The execution technology an environment runs on.
#[derive(Debug, Clone, Copy, PartialEq, Eq, Structural)]
pub enum BackendKind {
    /// Import of a root filesystem archive.
    Wsl,
    /// A container runtime that resolves image references.
    Docker,
}

/// The kind that a request names: `wsl` asks for the import backend, and
/// every other word for the container runtime.
pub open spec fn backend_named(word: Seq<char>) -> BackendKind {
    if word == "wsl"@ {
        BackendKind::Wsl
    } else {
        BackendKind::Docker
    }
}

impl BackendKind {
    /// The kind that the word of a request names.
    pub fn from_name(word: &str) -> (kind: BackendKind)
        ensures
            kind == backend_named(word@),
    {
        if str_eq(word, "wsl") {
            BackendKind::Wsl
        } else {
            BackendKind::Docker
        }
    }
}

/// One distributable payload of a version.
#[derive(Debug, Clone, PartialEq, Eq)]
pub enum Artifact {
    /// A root filesystem archive, raw or gzip-compressed, with the expected
    /// digest given directly or through a checksum manifest.
    Rootfs { download_url: String, sha256: Option<String>, sha256_url: Option<String> },
    /// A reference that a container runtime resolves.
    DockerImage { image: String },
}

/// Where the expected digest of a root filesystem archive comes from.
pub enum DigestSource {
    /// The artifact carries the digest.
    Direct(Seq<char>),
    /// The digest is looked up in the checksum manifest at this address.
    Manifest(Seq<char>),
    /// Nothing is declared: the archive is not checked.
    Unchecked,
}

/// An artifact as mathematical text.
pub enum ArtifactView {
    Rootfs { download_url: Seq<char>, sha256: Option<Seq<char>>, sha256_url: Option<Seq<char>> },
    DockerImage { image: Seq<char> },
}

/// The text of an optional string.
pub open spec fn opt_text(s: Option<String>) -> Option<Seq<char>> {
    match s {
        Some(t) => Some(t@),
        None => None,
    }
}

impl View for Artifact {
    type V = ArtifactView;

    open spec fn view(&self) -> ArtifactView {
        match *self {
            Artifact::Rootfs { download_url, sha256, sha256_url } => ArtifactView::Rootfs {
                download_url: download_url@,
                sha256: opt_text(sha256),
                sha256_url: opt_text(sha256_url),
            },
            Artifact::DockerImage { image } => ArtifactView::DockerImage { image: image@ },
        }
    }
}

impl Artifact {
    /// Whether a backend of this kind consumes the artifact: a container
    /// runtime takes image references, an import takes root filesystems.
    pub open spec fn fits(&self, kind: BackendKind) -> bool {
        match kind {
            BackendKind::Docker => *self is DockerImage,
            BackendKind::Wsl => *self is Rootfs,
        }
    }

    /// Tells whether a backend of the given kind consumes this artifact.
    pub fn matches_backend(&self, kind: BackendKind) -> (r: bool)
        ensures
            r == self.fits(kind),
    {
        match kind {
            BackendKind::Docker => match self {
                Artifact::DockerImage { .. } => true,
                Artifact::Rootfs { .. } => false,
            },
            BackendKind::Wsl => match self {
                Artifact::Rootfs { .. } => true,
                Artifact::DockerImage { .. } => false,
            },
        }
    }
}

/// One released version of a distribution.
#[derive(Debug, Clone, PartialEq, Eq)]
pub struct DistroVersion {
    pub version: String,
    pub channel: Option<String>,
    pub artifacts: Vec<Artifact>,
}

/// A distribution of the catalog.
#[derive(Debug, Clone, PartialEq, Eq)]
pub struct Distro {
    pub id: String,
    pub name: String,
    pub vendor: Option<String>,
    pub website: Option<String>,
    pub backends: Vec<BackendKind>,
    pub versions: Vec<DistroVersion>,
}

/// A point in time: seconds since the Unix epoch and the nanoseconds within
/// that second.
#[derive(Debug, Clone, Copy, PartialEq, Eq, Structural)]
pub struct Timestamp {
    pub secs: i64,
    pub nanos: u32,
}

/// The catalog: when it was last updated and its distributions in order.
#[derive(Debug, Clone, PartialEq, Eq)]
pub struct DistributionsIndex {
    pub updated_at: Timestamp,
    pub distributions: Vec<Distro>,
}

/// The durable record of one installed environment.
#[derive(Debug, Clone, PartialEq, Eq)]
pub struct InstalledEnv {
    pub name: String,
    pub distro_id: String,
    pub version: String,
    pub backend: BackendKind,
    pub install_dir: Option<String>,
}

/// An environment record as mathematical text.
pub struct InstalledEnvView {
    pub name: Seq<char>,
    pub distro_id: Seq<char>,
    pub version: Seq<char>,
    pub backend: BackendKind,
    pub install_dir: Option<Seq<char>>,
}

impl View for InstalledEnv {
    type V = InstalledEnvView;

    open spec fn view(&self) -> InstalledEnvView {
        InstalledEnvView {
            name: self.name@,
            distro_id: self.distro_id@,
            version: self.version@,
            backend: self.backend,
            install_dir: opt_text(self.install_dir),
        }
    }
}

} // verus!
