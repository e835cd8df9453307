//! The uniform contract of the execution backends. A backend does not run
//! anything itself: for each lifecycle operation it names the invocations of
//! its tool, which the caller runs in order and whose outcome it reports
//! back through [`command_outcome`].

pub mod docker;
pub mod wsl;

use vstd::prelude::*;
use crate::backends::docker::{
    docker_install_commands, docker_remove_commands, docker_start_commands, docker_stop_commands,
    DockerBackend,
};
use crate::backends::wsl::{
    wsl_install_commands, wsl_remove_commands, wsl_start_commands, WslBackend,
};
use crate::error::{BackendOp, Error, ErrorView};
use crate::hash::outcome_view;
use crate::models::{opt_text, BackendKind, InstalledEnv, InstalledEnvView};

verus! {

/// What a backend is asked to install: a resolved image reference, or the
/// path of a verified and decompressed root filesystem archive. Exactly one
/// of the two is present in a directive that some backend accepts.
#[derive(Debug, Clone, PartialEq, Eq)]
pub struct InstallSpec {
    pub docker_image: Option<String>,
    pub rootfs_path: Option<String>,
}

/// An install directive as mathematical text.
pub struct InstallSpecView {
    pub docker_image: Option<Seq<char>>,
    pub rootfs_path: Option<Seq<char>>,
}

impl View for InstallSpec {
    type V = InstallSpecView;

    open spec fn view(&self) -> InstallSpecView {
        InstallSpecView {
            docker_image: opt_text(self.docker_image),
            rootfs_path: opt_text(self.rootfs_path),
        }
    }
}

impl InstallSpecView {
    /// Whether the directive has the shape a backend of `kind` needs: the
    /// image reference alone for a container runtime, the archive path alone
    /// for an import.
    pub open spec fn fits(self, kind: BackendKind) -> bool {
        match kind {
            BackendKind::Docker => self.docker_image is Some && self.rootfs_path is None,
            BackendKind::Wsl => self.rootfs_path is Some && self.docker_image is None,
        }
    }
}

/// One invocation of a backend's tool, and what to report if it fails.
#[derive(Debug, Clone, PartialEq, Eq)]
pub struct ToolCommand {
    pub program: String,
    pub args: Vec<String>,
    pub failure: String,
}

/// An invocation as mathematical text.
pub struct ToolCommandView {
    pub program: Seq<char>,
    pub args: Seq<Seq<char>>,
    pub failure: Seq<char>,
}

/// The texts of a list of strings.
pub open spec fn texts(strings: Seq<String>) -> Seq<Seq<char>> {
    strings.map_values(|s: String| s@)
}

impl View for ToolCommand {
    type V = ToolCommandView;

    open spec fn view(&self) -> ToolCommandView {
        ToolCommandView { program: self.program@, args: texts(self.args@), failure: self.failure@ }
    }
}

/// The views of a list of invocations.
pub open spec fn commands_view(commands: Seq<ToolCommand>) -> Seq<ToolCommandView> {
    commands.map_values(|c: ToolCommand| c@)
}

/// The outcome of an operation whose invocation ended: success, or the
/// failure of the operation with the invocation's own words.
pub open spec fn command_outcome_spec(op: BackendOp, command: ToolCommandView, success: bool) -> Result<
    (),
    ErrorView,
> {
    if success {
        Ok(())
    } else {
        Err(ErrorView::BackendOperationFailed { op, detail: command.failure })
    }
}

/// Turns the exit of an invocation into the outcome of the operation `op`
/// that it belongs to.
pub fn command_outcome(op: BackendOp, command: &ToolCommand, success: bool) -> (r: Result<
    (),
    Error,
>)
    ensures
        outcome_view(r) == command_outcome_spec(op, command@, success),
{
    if success {
        Ok(())
    } else {
        Err(Error::BackendOperationFailed { op, detail: command.failure.clone() })
    }
}

/// The lifecycle contract that every execution technology offers.
pub trait Backend {
    /// The kind of this backend.
    spec fn backend_kind(&self) -> BackendKind;

    /// The kind of this backend.
    fn kind(&self) -> (k: BackendKind)
        ensures
            k == self.backend_kind(),
    ;

    /// The environments the backend itself knows of, as far as it can tell.
    fn list(&self) -> (envs: Vec<InstalledEnv>);

    /// The invocations that activate `env` from `spec`. A directive of the
    /// wrong shape is refused, and only such a one.
    fn install(&self, env: &InstalledEnv, spec: InstallSpec) -> (r: Result<Vec<ToolCommand>, Error>)
        ensures
            r is Ok <==> spec@.fits(self.backend_kind()),
            r matches Err(e) ==> e@ == (ErrorView::InvalidInstallSpec {
                backend: self.backend_kind(),
            }),
    ;

    /// The invocations that start the environment `name`.
    fn start(&self, name: &str) -> (commands: Vec<ToolCommand>);

    /// The invocations that stop the environment `name`.
    fn stop(&self, name: &str) -> (commands: Vec<ToolCommand>);

    /// The invocations that remove the environment `name`.
    fn remove(&self, name: &str) -> (commands: Vec<ToolCommand>);
}

/// Makes one invocation.
pub(crate) fn tool(program: &str, args: Vec<String>, failure: &str) -> (c: ToolCommand)
    ensures
        c@ == (ToolCommandView { program: program@, args: texts(args@), failure: failure@ }),
{
    ToolCommand { program: program.to_owned(), args, failure: failure.to_owned() }
}

/// The invocations that activate `env` on the backend its record names.
pub open spec fn install_commands_spec(env: InstalledEnvView, spec: InstallSpecView) -> Result<
    Seq<ToolCommandView>,
    ErrorView,
> {
    if !spec.fits(env.backend) {
        Err(ErrorView::InvalidInstallSpec { backend: env.backend })
    } else {
        match env.backend {
            BackendKind::Docker => Ok(docker_install_commands(env.name, spec.docker_image->0)),
            BackendKind::Wsl => Ok(wsl_install_commands(env, spec.rootfs_path->0)),
        }
    }
}

/// The invocations of a lifecycle operation on the environment `name` of a
/// backend of `kind`. Stopping an imported environment takes none.
pub open spec fn lifecycle_commands_spec(kind: BackendKind, op: BackendOp, name: Seq<char>) -> Seq<
    ToolCommandView,
> {
    match (kind, op) {
        (BackendKind::Docker, BackendOp::Start) => docker_start_commands(name),
        (BackendKind::Docker, BackendOp::Stop) => docker_stop_commands(name),
        (BackendKind::Docker, BackendOp::Remove) => docker_remove_commands(name),
        (BackendKind::Wsl, BackendOp::Start) => wsl_start_commands(name),
        (BackendKind::Wsl, BackendOp::Remove) => wsl_remove_commands(name),
        _ => Seq::empty(),
    }
}

/// The view of a plan of invocations.
pub open spec fn plan_view(r: Result<Vec<ToolCommand>, Error>) -> Result<
    Seq<ToolCommandView>,
    ErrorView,
> {
    match r {
        Ok(commands) => Ok(commands_view(commands@)),
        Err(e) => Err(e@),
    }
}

/// Asks the backend that `env` names for the invocations that activate it
/// from `spec`.
pub fn install_commands(env: &InstalledEnv, spec: InstallSpec) -> (r: Result<
    Vec<ToolCommand>,
    Error,
>)
    ensures
        plan_view(r) == install_commands_spec(env@, spec@),
{
    match env.backend {
        BackendKind::Docker => DockerBackend.install(env, spec),
        BackendKind::Wsl => WslBackend.install(env, spec),
    }
}

/// Asks the backend that `env` names for the invocations of `op` on it.
/// Installing needs a directive and is asked for through
/// [`install_commands`]; here it takes no invocation.
pub fn lifecycle_commands(env: &InstalledEnv, op: BackendOp) -> (commands: Vec<ToolCommand>)
    ensures
        commands_view(commands@) == lifecycle_commands_spec(env.backend, op, env.name@),
{
    let name = env.name.as_str();
    let commands = match (env.backend, op) {
        (BackendKind::Docker, BackendOp::Start) => DockerBackend.start(name),
        (BackendKind::Docker, BackendOp::Stop) => DockerBackend.stop(name),
        (BackendKind::Docker, BackendOp::Remove) => DockerBackend.remove(name),
        (BackendKind::Wsl, BackendOp::Start) => WslBackend.start(name),
        (BackendKind::Wsl, BackendOp::Stop) => WslBackend.stop(name),
        (BackendKind::Wsl, BackendOp::Remove) => WslBackend.remove(name),
        _ => Vec::new(),
    };
    proof {
        assert(commands_view(commands@) =~= lifecycle_commands_spec(env.backend, op, env.name@));
    }
    commands
}

} // verus!
