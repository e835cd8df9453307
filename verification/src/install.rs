//! From a catalog entry to an install directive: the choice of version and
//! artifact, the names of the files involved, and the pipeline that leads a
//! root filesystem archive through download, integrity check and
//! decompression.

use vstd::prelude::*;
use vstd::string::StringExecFns;
use crate::backends::{InstallSpec, InstallSpecView};
use crate::error::{Error, ErrorView};
use crate::hash::{
    check_digest, check_digest_spec, digest_hex, hex_lower, manifest_digest, sha256_digest,
    sha256_from_sumfile,
};
use crate::distro_registry::{get_distro, is_first_with_id};
use crate::models::{
    opt_text, Artifact, ArtifactView, BackendKind, DigestSource, DistributionsIndex, Distro,
    DistroVersion, InstalledEnv, InstalledEnvView,
};
use crate::text::{chars_end_with, str_chars, str_eq, string_from_chars};

verus! {

/// Whether `i` is the first position of `versions` that holds the version
/// string `version`.
pub open spec fn is_first_with_version(versions: Seq<DistroVersion>, version: Seq<char>, i: int) -> bool {
    &&& 0 <= i < versions.len()
    &&& versions[i].version@ == version
    &&& forall|j: int| 0 <= j < i ==> (#[trigger] versions[j]).version@ != version
}

/// The version of `distro` with the version string `version`: the first one
/// in catalog order.
pub fn find_version<'a>(distro: &'a Distro, version: &str) -> (r: Result<&'a DistroVersion, Error>)
    ensures
        match r {
            Ok(v) => exists|i: int| #[trigger]
                is_first_with_version(distro.versions@, version@, i) && *v == distro.versions@[i],
            Err(e) => {
                &&& forall|i: int|
                    0 <= i < distro.versions@.len() ==> (#[trigger] distro.versions@[i]).version@
                        != version@
                &&& e@ == ErrorView::VersionNotFound { version: version@ }
            },
        },
{
    let mut i: usize = 0;
    while i < distro.versions.len()
        invariant
            i <= distro.versions@.len(),
            forall|j: int| 0 <= j < i ==> (#[trigger] distro.versions@[j]).version@ != version@,
        decreases distro.versions@.len() - i,
    {
        if str_eq(distro.versions[i].version.as_str(), version) {
            proof {
                assert(is_first_with_version(distro.versions@, version@, i as int));
            }
            return Ok(&distro.versions[i]);
        }
        i += 1;
    }
    Err(Error::VersionNotFound { version: version.to_owned() })
}

/// Whether `i` is the first position of `artifacts` whose artifact a backend
/// of `kind` consumes.
pub open spec fn is_first_fit(artifacts: Seq<Artifact>, kind: BackendKind, i: int) -> bool {
    &&& 0 <= i < artifacts.len()
    &&& artifacts[i].fits(kind)
    &&& forall|j: int| 0 <= j < i ==> !(#[trigger] artifacts[j]).fits(kind)
}

/// The artifact of `ver` for a backend of kind `backend`: the first one in
/// declaration order of the matching variant. There is no fallback to the
/// other variant.
pub fn pick_artifact<'a>(ver: &'a DistroVersion, backend: BackendKind) -> (r: Result<
    &'a Artifact,
    Error,
>)
    ensures
        match r {
            Ok(a) => exists|i: int| #[trigger]
                is_first_fit(ver.artifacts@, backend, i) && *a == ver.artifacts@[i],
            Err(e) => {
                &&& forall|i: int|
                    0 <= i < ver.artifacts@.len() ==> !(#[trigger] ver.artifacts@[i]).fits(backend)
                &&& e@ == ErrorView::NoCompatibleArtifact { backend }
            },
        },
{
    let mut i: usize = 0;
    while i < ver.artifacts.len()
        invariant
            i <= ver.artifacts@.len(),
            forall|j: int| 0 <= j < i ==> !(#[trigger] ver.artifacts@[j]).fits(backend),
        decreases ver.artifacts@.len() - i,
    {
        if ver.artifacts[i].matches_backend(backend) {
            proof {
                assert(is_first_fit(ver.artifacts@, backend, i as int));
            }
            return Ok(&ver.artifacts[i]);
        }
        i += 1;
    }
    Err(Error::NoCompatibleArtifact { backend })
}

/// The choice does not depend on the order of the list where only one
/// artifact fits: if the artifact at `k` is the only one a backend of `kind`
/// consumes, then `k` is the first fit, wherever in the list it stands.
pub proof fn lemma_only_fit_is_picked(artifacts: Seq<Artifact>, kind: BackendKind, k: int)
    requires
        0 <= k < artifacts.len(),
        artifacts[k].fits(kind),
        forall|j: int| 0 <= j < artifacts.len() && j != k ==> !(#[trigger] artifacts[j]).fits(kind),
    ensures
        is_first_fit(artifacts, kind, k),
        forall|i: int| is_first_fit(artifacts, kind, i) ==> i == k,
{
}

/// The name of the file that an address ends with: what follows its last
/// `/`, or all of it where it has none.
pub open spec fn file_name_spec(url: Seq<char>) -> Seq<char>
    decreases url.len(),
{
    if url.len() == 0 || url.last() == '/' {
        Seq::empty()
    } else {
        file_name_spec(url.drop_last()).push(url.last())
    }
}

/// The file name is the longest tail of the address that holds no `/`.
pub proof fn lemma_file_name(url: Seq<char>)
    ensures
        file_name_spec(url).is_suffix_of(url),
        forall|i: int| 0 <= i < file_name_spec(url).len() ==> file_name_spec(url)[i] != '/',
        file_name_spec(url).len() < url.len() ==> url[url.len() - file_name_spec(url).len() - 1]
            == '/',
    decreases url.len(),
{
    if url.len() == 0 || url.last() == '/' {
        assert(file_name_spec(url) =~= url.subrange(url.len() as int, url.len() as int));
    } else {
        let head = url.drop_last();
        lemma_file_name(head);
        let n = file_name_spec(head);
        assert(file_name_spec(url) =~= url.subrange(url.len() - n.len() - 1, url.len() as int));
    }
}

/// The name of the file that `url` ends with.
pub fn file_name_from_url(url: &str) -> (name: String)
    ensures
        name@ == file_name_spec(url@),
{
    let chars = str_chars(url);
    let n = chars.len();
    let mut start: usize = n;
    proof {
        assert(chars@.take(n as int) == chars@);
        assert(file_name_spec(chars@) + chars@.skip(n as int) =~= file_name_spec(chars@));
    }
    while start > 0 && chars[start - 1] != '/'
        invariant
            start <= n,
            n == chars@.len(),
            file_name_spec(chars@) == file_name_spec(chars@.take(start as int)) + chars@.skip(
                start as int,
            ),
        decreases start,
    {
        proof {
            let head = chars@.take(start as int);
            assert(head.drop_last() == chars@.take(start - 1));
            assert(seq![head.last()] + chars@.skip(start as int) =~= chars@.skip(start - 1));
            assert(file_name_spec(head.drop_last()).push(head.last()) + chars@.skip(start as int)
                =~= file_name_spec(head.drop_last()) + (seq![head.last()] + chars@.skip(
                start as int,
            )));
        }
        start -= 1;
    }
    proof {
        assert(file_name_spec(chars@.take(start as int)) =~= Seq::<char>::empty());
        assert(Seq::<char>::empty() + chars@.skip(start as int) =~= chars@.skip(start as int));
        assert(chars@.subrange(start as int, n as int) =~= chars@.skip(start as int));
    }
    string_from_chars(vstd::slice::slice_subrange(chars.as_slice(), start, n))
}

/// The path of the file `name` in the directory `dir`. Paths are text whose
/// components `/` separates; an empty directory stands for the current one.
pub open spec fn join_path_spec(dir: Seq<char>, name: Seq<char>) -> Seq<char> {
    if dir.len() == 0 {
        name
    } else if dir.last() == '/' {
        dir + name
    } else {
        dir + seq!['/'] + name
    }
}

/// The path of the file `name` in the directory `dir`.
pub fn join_path(dir: &str, name: &str) -> (path: String)
    ensures
        path@ == join_path_spec(dir@, name@),
{
    let d = str_chars(dir);
    if d.len() == 0 {
        return name.to_owned();
    }
    let mut path = dir.to_owned();
    if d[d.len() - 1] != '/' {
        proof {
            reveal_strlit("/");
            assert("/"@ =~= seq!['/']);
        }
        path.append("/");
    }
    path.append(name);
    path
}

/// The text `.gz`.
pub open spec fn gz_suffix() -> Seq<char> {
    seq!['.', 'g', 'z']
}

/// Where the decompressed form of an archive goes, if the archive is gzip
/// data by its name: the file name ends with `.gz` behind a stem that is
/// not empty, and the target is the path without that suffix.
pub open spec fn gunzip_target_spec(path: Seq<char>) -> Option<Seq<char>> {
    let name = file_name_spec(path);
    if name.len() > 3 && gz_suffix().is_suffix_of(name) {
        Some(path.take(path.len() - 3))
    } else {
        None
    }
}

/// Where the decompressed form of the archive at `path` goes, if its name
/// says that it is gzip data.
pub fn gunzip_target(path: &str) -> (target: Option<String>)
    ensures
        opt_text(target) == gunzip_target_spec(path@),
{
    let name = file_name_from_url(path);
    let name_chars = str_chars(name.as_str());
    let mut suffix: Vec<char> = Vec::new();
    suffix.push('.');
    suffix.push('g');
    suffix.push('z');
    proof {
        assert(suffix@ =~= gz_suffix());
    }
    if name_chars.len() > 3 && chars_end_with(name_chars.as_slice(), suffix.as_slice()) {
        let chars = str_chars(path);
        proof {
            lemma_file_name(path@);
            assert(chars@.subrange(0, chars@.len() - 3) =~= path@.take(path@.len() - 3));
        }
        let n = chars.len();
        Some(string_from_chars(vstd::slice::slice_subrange(chars.as_slice(), 0, n - 3)))
    } else {
        None
    }
}

/// What decompressing gzip data yields, as the `flate2` crate does it:
/// the decompressed bytes, or nothing where the data is not valid.
pub uninterp spec fn gunzip_spec(data: Seq<u8>) -> Option<Seq<u8>>;

/// The bytes of an optional buffer.
pub open spec fn opt_bytes(v: Option<Vec<u8>>) -> Option<Seq<u8>> {
    match v {
        Some(b) => Some(b@),
        None => None,
    }
}

/// `flate2::read::GzDecoder` over `data`, read to its end: the first gzip
/// member is decompressed, and an error of the decoder yields nothing. The
/// result depends on the bytes alone and is given the name `gunzip_spec`.
#[verifier::external_body]
fn gunzip(data: &[u8]) -> (out: Option<Vec<u8>>)
    ensures
        opt_bytes(out) == gunzip_spec(data@),
{
    let mut out = Vec::new();
    match std::io::Read::read_to_end(&mut flate2::read::GzDecoder::new(data), &mut out) {
        Ok(_) => Some(out),
        Err(_) => None,
    }
}

/// Decompresses gzip data.
pub fn decompress(data: &[u8]) -> (r: Result<Vec<u8>, Error>)
    ensures
        match r {
            Ok(out) => gunzip_spec(data@) == Some(out@),
            Err(e) => gunzip_spec(data@) is None && e@ == ErrorView::Decompress,
        },
{
    match gunzip(data) {
        Some(out) => Ok(out),
        None => Err(Error::Decompress),
    }
}

/// Where the preparation of a root filesystem stands.
#[derive(Debug, Clone, Copy, PartialEq, Eq, Structural)]
pub enum PreparePhase {
    /// The archive is being downloaded.
    Downloading,
    /// The checksum manifest is being fetched.
    FetchingManifest,
    /// The content of the archive is awaited, to be checked and unpacked.
    Checking,
    /// The decompressed archive is being written.
    Writing,
    /// The install directive was handed out.
    Finished,
    /// The preparation was given up.
    Failed,
}

/// What is known of the expected digest of the archive.
#[derive(Debug, Clone, PartialEq, Eq)]
pub enum DigestPlan {
    /// The digest, in hexadecimal.
    Known { hex: String },
    /// The address of the manifest that holds it.
    Lookup { url: String },
    /// Nothing is declared, and the archive is not checked.
    Unchecked,
}

impl View for DigestPlan {
    type V = DigestSource;

    open spec fn view(&self) -> DigestSource {
        match *self {
            DigestPlan::Known { hex } => DigestSource::Direct(hex@),
            DigestPlan::Lookup { url } => DigestSource::Manifest(url@),
            DigestPlan::Unchecked => DigestSource::Unchecked,
        }
    }
}

/// The state of one preparation.
#[derive(Debug, Clone, PartialEq, Eq)]
pub struct Preparation {
    pub phase: PreparePhase,
    /// The name of the archive, as its address gives it.
    pub file_name: String,
    /// The path the archive is downloaded to.
    pub dest: String,
    /// The path of the decompressed archive, if the archive is gzip data.
    pub target: Option<String>,
    pub digest: DigestPlan,
}

/// A preparation as mathematical text.
pub struct PreparationView {
    pub phase: PreparePhase,
    pub file_name: Seq<char>,
    pub dest: Seq<char>,
    pub target: Option<Seq<char>>,
    pub digest: DigestSource,
}

impl View for Preparation {
    type V = PreparationView;

    open spec fn view(&self) -> PreparationView {
        PreparationView {
            phase: self.phase,
            file_name: self.file_name@,
            dest: self.dest@,
            target: opt_text(self.target),
            digest: self.digest@,
        }
    }
}

/// What the caller observed.
#[derive(Debug, Clone, PartialEq, Eq)]
pub enum PrepareEvent {
    /// The archive is in place.
    Downloaded,
    /// The checksum manifest was fetched, and this is its text.
    Manifest { text: String },
    /// The archive was read, and this is its content.
    Content { bytes: Vec<u8> },
    /// The decompressed archive was written.
    Written,
}

/// An event as mathematical text.
pub enum PrepareEventView {
    Downloaded,
    Manifest { text: Seq<char> },
    Content { bytes: Seq<u8> },
    Written,
}

impl View for PrepareEvent {
    type V = PrepareEventView;

    open spec fn view(&self) -> PrepareEventView {
        match *self {
            PrepareEvent::Downloaded => PrepareEventView::Downloaded,
            PrepareEvent::Manifest { text } => PrepareEventView::Manifest { text: text@ },
            PrepareEvent::Content { bytes } => PrepareEventView::Content { bytes: bytes@ },
            PrepareEvent::Written => PrepareEventView::Written,
        }
    }
}

/// What the caller does next.
#[derive(Debug, Clone, PartialEq, Eq)]
pub enum PrepareAction {
    /// Download the archive from `url` to `dest`, resuming what is there.
    Download { url: String, dest: String },
    /// Fetch the text of the checksum manifest at `url`.
    FetchManifest { url: String },
    /// Read the archive at `path` and hand over its content.
    ReadArchive { path: String },
    /// Write `bytes` to `path`.
    WriteArchive { path: String, bytes: Vec<u8> },
    /// Hand this directive to the backend.
    Finish { spec: InstallSpec },
    /// Give up with this failure. What was downloaded stays in place.
    Fail { error: Error },
}

/// An action as mathematical text.
pub enum PrepareActionView {
    Download { url: Seq<char>, dest: Seq<char> },
    FetchManifest { url: Seq<char> },
    ReadArchive { path: Seq<char> },
    WriteArchive { path: Seq<char>, bytes: Seq<u8> },
    Finish { spec: InstallSpecView },
    Fail { error: ErrorView },
}

impl View for PrepareAction {
    type V = PrepareActionView;

    open spec fn view(&self) -> PrepareActionView {
        match *self {
            PrepareAction::Download { url, dest } => PrepareActionView::Download {
                url: url@,
                dest: dest@,
            },
            PrepareAction::FetchManifest { url } => PrepareActionView::FetchManifest { url: url@ },
            PrepareAction::ReadArchive { path } => PrepareActionView::ReadArchive { path: path@ },
            PrepareAction::WriteArchive { path, bytes } => PrepareActionView::WriteArchive {
                path: path@,
                bytes: bytes@,
            },
            PrepareAction::Finish { spec } => PrepareActionView::Finish { spec: spec@ },
            PrepareAction::Fail { error } => PrepareActionView::Fail { error: error@ },
        }
    }
}

/// The digest source that the two optional fields of a root filesystem
/// artifact declare: a direct digest wins over a manifest address.
pub open spec fn digest_source(sha256: Option<Seq<char>>, sha256_url: Option<Seq<char>>) -> DigestSource {
    match (sha256, sha256_url) {
        (Some(h), _) => DigestSource::Direct(h),
        (None, Some(u)) => DigestSource::Manifest(u),
        (None, None) => DigestSource::Unchecked,
    }
}

/// The directive for an archive at `path`.
pub open spec fn rootfs_spec(path: Seq<char>) -> InstallSpecView {
    InstallSpecView { docker_image: None, rootfs_path: Some(path) }
}

/// The directive for an image.
pub open spec fn image_spec(image: Seq<char>) -> InstallSpecView {
    InstallSpecView { docker_image: Some(image), rootfs_path: None }
}

/// How a preparation begins. An image reference is handed on at once, with
/// no transfer and nothing written: pulling is the backend's part. A root
/// filesystem is downloaded into `dir` under the name its address ends with.
pub open spec fn start_spec(artifact: ArtifactView, dir: Seq<char>) -> (
    PreparationView,
    PrepareActionView,
) {
    match artifact {
        ArtifactView::DockerImage { image } => (
            PreparationView {
                phase: PreparePhase::Finished,
                file_name: Seq::empty(),
                dest: Seq::empty(),
                target: None,
                digest: DigestSource::Unchecked,
            },
            PrepareActionView::Finish { spec: image_spec(image) },
        ),
        ArtifactView::Rootfs { download_url, sha256, sha256_url } => {
            let file_name = file_name_spec(download_url);
            let dest = join_path_spec(dir, file_name);
            (
                PreparationView {
                    phase: PreparePhase::Downloading,
                    file_name,
                    dest,
                    target: gunzip_target_spec(dest),
                    digest: digest_source(sha256, sha256_url),
                },
                PrepareActionView::Download { url: download_url, dest },
            )
        },
    }
}

/// The state in which a preparation ends for good.
pub open spec fn halted(state: PreparationView, phase: PreparePhase) -> PreparationView {
    PreparationView { phase, ..state }
}

/// The objection to an archive whose digest is `got`: none where no digest
/// is known, else what the comparison with the known one gives.
pub open spec fn mismatch_spec(digest: DigestSource, got: Seq<char>) -> Option<ErrorView> {
    match digest {
        DigestSource::Direct(expected) => match check_digest_spec(got, expected) {
            Ok(()) => None,
            Err(e) => Some(e),
        },
        _ => None,
    }
}

/// What follows once the content of the archive is at hand, given its
/// digest `got` in hexadecimal and its decompressed form `unpacked`. A
/// digest that is known must agree, or nothing of the archive is handed on.
/// An archive that is no gzip data by its name is handed on as it is; one
/// that is gets written in its decompressed form first.
pub open spec fn conclude_spec(state: PreparationView, got: Seq<char>, unpacked: Option<Seq<u8>>) -> (
    PreparationView,
    PrepareActionView,
) {
    match mismatch_spec(state.digest, got) {
        Some(error) => (halted(state, PreparePhase::Failed), PrepareActionView::Fail { error }),
        None => match state.target {
            None => (
                halted(state, PreparePhase::Finished),
                PrepareActionView::Finish { spec: rootfs_spec(state.dest) },
            ),
            Some(path) => match unpacked {
                Some(bytes) => (
                    halted(state, PreparePhase::Writing),
                    PrepareActionView::WriteArchive { path, bytes },
                ),
                None => (
                    halted(state, PreparePhase::Failed),
                    PrepareActionView::Fail { error: ErrorView::Decompress },
                ),
            },
        },
    }
}

/// The transition of a preparation: the state after `event` and the action
/// it calls for. An event that the phase does not await ends the
/// preparation.
pub open spec fn step_spec(state: PreparationView, event: PrepareEventView) -> (
    PreparationView,
    PrepareActionView,
) {
    match (state.phase, event) {
        (PreparePhase::Downloading, PrepareEventView::Downloaded) => match state.digest {
            DigestSource::Manifest(url) => (
                halted(state, PreparePhase::FetchingManifest),
                PrepareActionView::FetchManifest { url },
            ),
            DigestSource::Direct(_) => (
                halted(state, PreparePhase::Checking),
                PrepareActionView::ReadArchive { path: state.dest },
            ),
            DigestSource::Unchecked => if state.target is Some {
                (
                    halted(state, PreparePhase::Checking),
                    PrepareActionView::ReadArchive { path: state.dest },
                )
            } else {
                (
                    halted(state, PreparePhase::Finished),
                    PrepareActionView::Finish { spec: rootfs_spec(state.dest) },
                )
            },
        },
        (PreparePhase::FetchingManifest, PrepareEventView::Manifest { text }) => match manifest_digest(
            text,
            state.file_name,
        ) {
            Some(hex) => (
                PreparationView {
                    phase: PreparePhase::Checking,
                    digest: DigestSource::Direct(hex),
                    ..state
                },
                PrepareActionView::ReadArchive { path: state.dest },
            ),
            None => (
                halted(state, PreparePhase::Failed),
                PrepareActionView::Fail {
                    error: ErrorView::NotFoundInManifest { file_name: state.file_name },
                },
            ),
        },
        (PreparePhase::Checking, PrepareEventView::Content { bytes }) => conclude_spec(
            state,
            hex_lower(sha256_digest(bytes)),
            gunzip_spec(bytes),
        ),
        (PreparePhase::Writing, PrepareEventView::Written) => (
            halted(state, PreparePhase::Finished),
            PrepareActionView::Finish {
                spec: rootfs_spec(
                    match state.target {
                        Some(path) => path,
                        None => state.dest,
                    },
                ),
            },
        ),
        _ => (
            halted(state, PreparePhase::Failed),
            PrepareActionView::Fail { error: ErrorView::UnexpectedEvent },
        ),
    }
}

/// A copy of an optional string.
fn clone_opt(s: &Option<String>) -> (r: Option<String>)
    ensures
        r == *s,
{
    match s {
        Some(t) => Some(t.clone()),
        None => None,
    }
}

impl Preparation {
    /// Begins the preparation of `artifact`, with `download_dir` as the
    /// directory that downloads go to.
    pub fn start(artifact: &Artifact, download_dir: &str) -> (r: (Preparation, PrepareAction))
        ensures
            (r.0@, r.1@) == start_spec(artifact@, download_dir@),
    {
        match artifact {
            Artifact::DockerImage { image } => (
                Preparation {
                    phase: PreparePhase::Finished,
                    file_name: String::new(),
                    dest: String::new(),
                    target: None,
                    digest: DigestPlan::Unchecked,
                },
                PrepareAction::Finish {
                    spec: InstallSpec { docker_image: Some(image.clone()), rootfs_path: None },
                },
            ),
            Artifact::Rootfs { download_url, sha256, sha256_url } => {
                let file_name = file_name_from_url(download_url.as_str());
                let dest = join_path(download_dir, file_name.as_str());
                let target = gunzip_target(dest.as_str());
                let digest = match (sha256, sha256_url) {
                    (Some(h), _) => DigestPlan::Known { hex: h.clone() },
                    (None, Some(u)) => DigestPlan::Lookup { url: u.clone() },
                    (None, None) => DigestPlan::Unchecked,
                };
                let action = PrepareAction::Download {
                    url: download_url.clone(),
                    dest: dest.clone(),
                };
                (
                    Preparation {
                        phase: PreparePhase::Downloading,
                        file_name,
                        dest,
                        target,
                        digest,
                    },
                    action,
                )
            },
        }
    }

    /// This state, in another phase.
    fn halt(self, phase: PreparePhase) -> (r: Preparation)
        ensures
            r@ == halted(self@, phase),
    {
        Preparation { phase, ..self }
    }

    /// Decides what follows once the content of the archive is at hand,
    /// given its digest `got` in hexadecimal and its decompressed form
    /// `unpacked`.
    pub fn conclude(self, got: &str, unpacked: Option<Vec<u8>>) -> (r: (Preparation, PrepareAction))
        ensures
            (r.0@, r.1@) == conclude_spec(self@, got@, opt_bytes(unpacked)),
    {
        let mismatch = match &self.digest {
            DigestPlan::Known { hex } => match check_digest(got, hex.as_str()) {
                Ok(()) => None,
                Err(e) => Some(e),
            },
            _ => None,
        };
        match mismatch {
            Some(error) => (self.halt(PreparePhase::Failed), PrepareAction::Fail { error }),
            None => match clone_opt(&self.target) {
                None => {
                    let spec = InstallSpec { docker_image: None, rootfs_path: Some(self.dest.clone()) };
                    (self.halt(PreparePhase::Finished), PrepareAction::Finish { spec })
                },
                Some(path) => match unpacked {
                    Some(bytes) => (
                        self.halt(PreparePhase::Writing),
                        PrepareAction::WriteArchive { path, bytes },
                    ),
                    None => (
                        self.halt(PreparePhase::Failed),
                        PrepareAction::Fail { error: Error::Decompress },
                    ),
                },
            },
        }
    }

    /// Takes one event and says what to do next.
    pub fn step(self, event: PrepareEvent) -> (r: (Preparation, PrepareAction))
        ensures
            (r.0@, r.1@) == step_spec(self@, event@),
    {
        match (self.phase, event) {
            (PreparePhase::Downloading, PrepareEvent::Downloaded) => {
                let lookup = match &self.digest {
                    DigestPlan::Lookup { url } => Some(url.clone()),
                    _ => None,
                };
                let unchecked = match &self.digest {
                    DigestPlan::Unchecked => true,
                    _ => false,
                };
                match lookup {
                    Some(url) => (
                        self.halt(PreparePhase::FetchingManifest),
                        PrepareAction::FetchManifest { url },
                    ),
                    None => {
                        if unchecked && self.target.is_none() {
                            let spec = InstallSpec {
                                docker_image: None,
                                rootfs_path: Some(self.dest.clone()),
                            };
                            (self.halt(PreparePhase::Finished), PrepareAction::Finish { spec })
                        } else {
                            let path = self.dest.clone();
                            (self.halt(PreparePhase::Checking), PrepareAction::ReadArchive { path })
                        }
                    },
                }
            },
            (PreparePhase::FetchingManifest, PrepareEvent::Manifest { text }) => {
                match sha256_from_sumfile(text.as_str(), self.file_name.as_str()) {
                    Ok(hex) => {
                        let path = self.dest.clone();
                        (
                            Preparation {
                                phase: PreparePhase::Checking,
                                digest: DigestPlan::Known { hex },
                                ..self
                            },
                            PrepareAction::ReadArchive { path },
                        )
                    },
                    Err(error) => (self.halt(PreparePhase::Failed), PrepareAction::Fail { error }),
                }
            },
            (PreparePhase::Checking, PrepareEvent::Content { bytes }) => {
                let got = match &self.digest {
                    DigestPlan::Known { .. } => digest_hex(bytes.as_slice()),
                    _ => String::new(),
                };
                let unpacked = match &self.target {
                    Some(_) => gunzip(bytes.as_slice()),
                    None => None,
                };
                self.conclude(got.as_str(), unpacked)
            },
            (PreparePhase::Writing, PrepareEvent::Written) => {
                let path = match &self.target {
                    Some(path) => path.clone(),
                    None => self.dest.clone(),
                };
                let spec = InstallSpec { docker_image: None, rootfs_path: Some(path) };
                (self.halt(PreparePhase::Finished), PrepareAction::Finish { spec })
            },
            _ => (
                self.halt(PreparePhase::Failed),
                PrepareAction::Fail { error: Error::UnexpectedEvent },
            ),
        }
    }
}

/// The distribution of the catalog with the identifier `id`.
pub open spec fn found_distro(distros: Seq<Distro>, id: Seq<char>) -> Option<Distro> {
    if exists|i: int| is_first_with_id(distros, id, i) {
        Some(distros[choose|i: int| is_first_with_id(distros, id, i)])
    } else {
        None
    }
}

/// The version of a distribution with the version string `version`.
pub open spec fn found_version(versions: Seq<DistroVersion>, version: Seq<char>) -> Option<
    DistroVersion,
> {
    if exists|i: int| is_first_with_version(versions, version, i) {
        Some(versions[choose|i: int| is_first_with_version(versions, version, i)])
    } else {
        None
    }
}

/// The artifact of a version for a backend of `kind`.
pub open spec fn found_artifact(artifacts: Seq<Artifact>, kind: BackendKind) -> Option<Artifact> {
    if exists|i: int| is_first_fit(artifacts, kind, i) {
        Some(artifacts[choose|i: int| is_first_fit(artifacts, kind, i)])
    } else {
        None
    }
}

/// The artifact that the catalog offers for a distribution, a version and a
/// backend, or the first of the three lookups that finds nothing.
pub open spec fn catalog_artifact(
    index: DistributionsIndex,
    distro_id: Seq<char>,
    version: Seq<char>,
    backend: BackendKind,
) -> Result<Artifact, ErrorView> {
    match found_distro(index.distributions@, distro_id) {
        None => Err(ErrorView::DistroNotFound { id: distro_id }),
        Some(d) => match found_version(d.versions@, version) {
            None => Err(ErrorView::VersionNotFound { version }),
            Some(v) => match found_artifact(v.artifacts@, backend) {
                None => Err(ErrorView::NoCompatibleArtifact { backend }),
                Some(a) => Ok(a),
            },
        },
    }
}

/// The name an environment gets where the request gives none: the
/// distribution's identifier and the version, joined by a hyphen.
pub open spec fn default_env_name_spec(distro_id: Seq<char>, version: Seq<char>) -> Seq<char> {
    distro_id + seq!['-'] + version
}

/// The name an environment gets where the request gives none.
pub fn default_env_name(distro_id: &str, version: &str) -> (name: String)
    ensures
        name@ == default_env_name_spec(distro_id@, version@),
{
    let mut name = distro_id.to_owned();
    proof {
        reveal_strlit("-");
        assert("-"@ =~= seq!['-']);
    }
    name.append("-");
    name.append(version);
    name
}

/// What an installation starts from: the artifact to prepare and the record
/// to keep once the backend has activated the environment.
#[derive(Debug, Clone, PartialEq, Eq)]
pub struct InstallPlan<'a> {
    pub env: InstalledEnv,
    pub artifact: &'a Artifact,
}

/// Resolves a request to install `version` of the distribution `distro_id`
/// on `backend` as the environment `name`.
pub fn plan_install<'a>(
    index: &'a DistributionsIndex,
    distro_id: &str,
    version: &str,
    backend: BackendKind,
    name: &str,
    install_dir: Option<&str>,
) -> (r: Result<InstallPlan<'a>, Error>)
    ensures
        match r {
            Ok(plan) => {
                &&& catalog_artifact(*index, distro_id@, version@, backend) == Ok::<
                    Artifact,
                    ErrorView,
                >(*plan.artifact)
                &&& plan.env@ == InstalledEnvView {
                    name: name@,
                    distro_id: distro_id@,
                    version: version@,
                    backend,
                    install_dir: match install_dir {
                        Some(d) => Some(d@),
                        None => None,
                    },
                }
            },
            Err(e) => catalog_artifact(*index, distro_id@, version@, backend) == Err::<
                Artifact,
                ErrorView,
            >(e@),
        },
{
    let distro = match get_distro(index, distro_id) {
        Some(d) => d,
        None => {
            return Err(Error::DistroNotFound { id: distro_id.to_owned() });
        },
    };
    let ver = match find_version(distro, version) {
        Ok(v) => v,
        Err(e) => {
            return Err(e);
        },
    };
    let artifact = match pick_artifact(ver, backend) {
        Ok(a) => a,
        Err(e) => {
            return Err(e);
        },
    };
    let env = InstalledEnv {
        name: name.to_owned(),
        distro_id: distro.id.clone(),
        version: ver.version.clone(),
        backend,
        install_dir: match install_dir {
            Some(d) => Some(d.to_owned()),
            None => None,
        },
    };
    Ok(InstallPlan { env, artifact })
}

/// An archive whose digest is not the expected one is never handed on: when
/// the content arrives while a digest is known, and the digest of the
/// content differs from it, the preparation fails with a checksum mismatch
/// and nothing is installed or written.
pub proof fn lemma_corrupt_archive_not_installed(
    state: PreparationView,
    expected: Seq<char>,
    bytes: Seq<u8>,
)
    requires
        state.phase == PreparePhase::Checking,
        state.digest == DigestSource::Direct(expected),
        !crate::text::eq_ignore_ascii_case(hex_lower(sha256_digest(bytes)), expected),
    ensures
        step_spec(state, PrepareEventView::Content { bytes }) == (
            halted(state, PreparePhase::Failed),
            PrepareActionView::Fail {
                error: ErrorView::ChecksumMismatch {
                    got: hex_lower(sha256_digest(bytes)),
                    expected,
                },
            },
        ),
{
}

} // verus!
