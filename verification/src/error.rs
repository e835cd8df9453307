//! The failures the library reports.

use vstd::prelude::*;
use vstd::string::StringExecFns;
use crate::models::BackendKind;
use crate::text::{decimal, decimal_string};

verus! {

/// A lifecycle operation of a backend.
#[derive(Debug, Clone, Copy, PartialEq, Eq, Structural)]
pub enum BackendOp {
    Install,
    Start,
    Stop,
    Remove,
}

/// Why an operation did not succeed.
#[derive(Debug, Clone, PartialEq, Eq)]
pub enum Error {
    /// The catalog has no distribution with this identifier.
    DistroNotFound { id: String },
    /// The distribution has no version with this version string.
    VersionNotFound { version: String },
    /// The registry has no environment with this name.
    EnvNotFound { name: String },
    /// The version has no artifact that the backend consumes.
    NoCompatibleArtifact { backend: BackendKind },
    /// Two distributions of the catalog share this identifier.
    DuplicateDistro { id: String },
    /// The catalog document is malformed.
    CatalogFormat { detail: String },
    /// The transfer failed below the level of a status code.
    Network { detail: String },
    /// The server answered with a status that is neither full nor partial
    /// content.
    UnexpectedStatus { code: u16 },
    /// A local file could not be read or written.
    Io { detail: String },
    /// The digest of the file is not the expected one.
    ChecksumMismatch { got: String, expected: String },
    /// The checksum manifest names no digest for the file.
    NotFoundInManifest { file_name: String },
    /// The archive is not valid gzip data.
    Decompress,
    /// The install directive does not have the shape the backend needs.
    InvalidInstallSpec { backend: BackendKind },
    /// The backend's tool reported a failure.
    BackendOperationFailed { op: BackendOp, detail: String },
    /// The volume has less free space than required.
    InsufficientDiskSpace { available: u64, required: u64 },
    /// A pipeline was handed an event that its current phase does not await.
    UnexpectedEvent,
}

/// A failure as mathematical text.
pub enum ErrorView {
    DistroNotFound { id: Seq<char> },
    VersionNotFound { version: Seq<char> },
    EnvNotFound { name: Seq<char> },
    NoCompatibleArtifact { backend: BackendKind },
    DuplicateDistro { id: Seq<char> },
    CatalogFormat { detail: Seq<char> },
    Network { detail: Seq<char> },
    UnexpectedStatus { code: u16 },
    Io { detail: Seq<char> },
    ChecksumMismatch { got: Seq<char>, expected: Seq<char> },
    NotFoundInManifest { file_name: Seq<char> },
    Decompress,
    InvalidInstallSpec { backend: BackendKind },
    BackendOperationFailed { op: BackendOp, detail: Seq<char> },
    InsufficientDiskSpace { available: u64, required: u64 },
    UnexpectedEvent,
}

impl View for Error {
    type V = ErrorView;

    open spec fn view(&self) -> ErrorView {
        match *self {
            Error::DistroNotFound { id } => ErrorView::DistroNotFound { id: id@ },
            Error::VersionNotFound { version } => ErrorView::VersionNotFound { version: version@ },
            Error::EnvNotFound { name } => ErrorView::EnvNotFound { name: name@ },
            Error::NoCompatibleArtifact { backend } => ErrorView::NoCompatibleArtifact { backend },
            Error::DuplicateDistro { id } => ErrorView::DuplicateDistro { id: id@ },
            Error::CatalogFormat { detail } => ErrorView::CatalogFormat { detail: detail@ },
            Error::Network { detail } => ErrorView::Network { detail: detail@ },
            Error::UnexpectedStatus { code } => ErrorView::UnexpectedStatus { code },
            Error::Io { detail } => ErrorView::Io { detail: detail@ },
            Error::ChecksumMismatch { got, expected } => ErrorView::ChecksumMismatch {
                got: got@,
                expected: expected@,
            },
            Error::NotFoundInManifest { file_name } => ErrorView::NotFoundInManifest {
                file_name: file_name@,
            },
            Error::Decompress => ErrorView::Decompress,
            Error::InvalidInstallSpec { backend } => ErrorView::InvalidInstallSpec { backend },
            Error::BackendOperationFailed { op, detail } => ErrorView::BackendOperationFailed {
                op,
                detail: detail@,
            },
            Error::InsufficientDiskSpace { available, required } => ErrorView::InsufficientDiskSpace {
                available,
                required,
            },
            Error::UnexpectedEvent => ErrorView::UnexpectedEvent,
        }
    }
}

/// The word for an operation.
pub open spec fn op_text(op: BackendOp) -> Seq<char> {
    match op {
        BackendOp::Install => "install"@,
        BackendOp::Start => "start"@,
        BackendOp::Stop => "stop"@,
        BackendOp::Remove => "remove"@,
    }
}

/// The sentence that tells a person what went wrong.
pub open spec fn message_text(e: ErrorView) -> Seq<char> {
    match e {
        ErrorView::DistroNotFound { id } => "distro not found: "@ + id,
        ErrorView::VersionNotFound { version } => "version not found: "@ + version,
        ErrorView::EnvNotFound { name } => "env not found: "@ + name,
        ErrorView::NoCompatibleArtifact { backend } => match backend {
            BackendKind::Docker => "no docker image artifact"@,
            BackendKind::Wsl => "no rootfs artifact"@,
        },
        ErrorView::DuplicateDistro { id } => "duplicate distribution id: "@ + id,
        ErrorView::CatalogFormat { detail } => "malformed catalog: "@ + detail,
        ErrorView::Network { detail } => "request failed: "@ + detail,
        ErrorView::UnexpectedStatus { code } => "http status "@ + decimal(code as nat),
        ErrorView::Io { detail } => "i/o error: "@ + detail,
        ErrorView::ChecksumMismatch { got, expected } => "sha256 mismatch: got "@ + got
            + ", expected "@ + expected,
        ErrorView::NotFoundInManifest { file_name } => "hash for "@ + file_name
            + " not found in sums file"@,
        ErrorView::Decompress => "decompressing gz"@,
        ErrorView::InvalidInstallSpec { backend } => match backend {
            BackendKind::Docker => "install spec does not name a docker image"@,
            BackendKind::Wsl => "install spec does not name a rootfs path"@,
        },
        ErrorView::BackendOperationFailed { op, detail } => op_text(op) + ": "@ + detail,
        ErrorView::InsufficientDiskSpace { available, required } =>
            "Insufficient disk space. Available: "@ + decimal(available as nat)
            + " bytes, required: "@ + decimal(required as nat) + " bytes"@,
        ErrorView::UnexpectedEvent => "event out of order"@,
    }
}

/// `head` followed by `tail`.
fn joined(head: &str, tail: &str) -> (s: String)
    ensures
        s@ == head@ + tail@,
{
    let mut s = String::from_str(head);
    s.append(tail);
    s
}

impl BackendOp {
    /// The word for the operation.
    pub fn name(&self) -> (s: &'static str)
        ensures
            s@ == op_text(*self),
    {
        match self {
            BackendOp::Install => "install",
            BackendOp::Start => "start",
            BackendOp::Stop => "stop",
            BackendOp::Remove => "remove",
        }
    }
}

impl Error {
    /// The sentence that tells a person what went wrong.
    pub fn message(&self) -> (s: String)
        ensures
            s@ == message_text(self@),
    {
        match self {
            Error::DistroNotFound { id } => joined("distro not found: ", id.as_str()),
            Error::VersionNotFound { version } => joined("version not found: ", version.as_str()),
            Error::EnvNotFound { name } => joined("env not found: ", name.as_str()),
            Error::NoCompatibleArtifact { backend } => match backend {
                BackendKind::Docker => String::from_str("no docker image artifact"),
                BackendKind::Wsl => String::from_str("no rootfs artifact"),
            },
            Error::DuplicateDistro { id } => joined("duplicate distribution id: ", id.as_str()),
            Error::CatalogFormat { detail } => joined("malformed catalog: ", detail.as_str()),
            Error::Network { detail } => joined("request failed: ", detail.as_str()),
            Error::UnexpectedStatus { code } => {
                let n = decimal_string(*code as u64);
                joined("http status ", n.as_str())
            },
            Error::Io { detail } => joined("i/o error: ", detail.as_str()),
            Error::ChecksumMismatch { got, expected } => {
                let mut s = joined("sha256 mismatch: got ", got.as_str());
                s.append(", expected ");
                s.append(expected.as_str());
                s
            },
            Error::NotFoundInManifest { file_name } => {
                let mut s = joined("hash for ", file_name.as_str());
                s.append(" not found in sums file");
                s
            },
            Error::Decompress => String::from_str("decompressing gz"),
            Error::InvalidInstallSpec { backend } => match backend {
                BackendKind::Docker => String::from_str("install spec does not name a docker image"),
                BackendKind::Wsl => String::from_str("install spec does not name a rootfs path"),
            },
            Error::BackendOperationFailed { op, detail } => {
                let mut s = joined(op.name(), ": ");
                s.append(detail.as_str());
                s
            },
            Error::InsufficientDiskSpace { available, required } => {
                let a = decimal_string(*available);
                let r = decimal_string(*required);
                let mut s = joined("Insufficient disk space. Available: ", a.as_str());
                s.append(" bytes, required: ");
                s.append(r.as_str());
                s.append(" bytes");
                s
            },
            Error::UnexpectedEvent => String::from_str("event out of order"),
        }
    }
}

} // verus!
