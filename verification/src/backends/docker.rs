//! The container-runtime backend.

use vstd::prelude::*;
use crate::backends::{commands_view, texts, tool, Backend, InstallSpec, ToolCommand, ToolCommandView};
use crate::error::Error;
use crate::models::{BackendKind, InstalledEnv};

verus! {

/// The backend that delegates to the `docker` tool.
pub struct DockerBackend;

/// Pull the image, then run a detached container under the environment's
/// name.
pub open spec fn docker_install_commands(name: Seq<char>, image: Seq<char>) -> Seq<ToolCommandView> {
    seq![
        ToolCommandView {
            program: "docker"@,
            args: seq!["pull"@, image],
            failure: "docker pull failed"@,
        },
        ToolCommandView {
            program: "docker"@,
            args: seq!["run"@, "-d"@, "--name"@, name, image],
            failure: "docker run failed"@,
        },
    ]
}

/// Start the container.
pub open spec fn docker_start_commands(name: Seq<char>) -> Seq<ToolCommandView> {
    seq![
        ToolCommandView {
            program: "docker"@,
            args: seq!["start"@, name],
            failure: "docker start failed"@,
        },
    ]
}

/// Stop the container.
pub open spec fn docker_stop_commands(name: Seq<char>) -> Seq<ToolCommandView> {
    seq![
        ToolCommandView {
            program: "docker"@,
            args: seq!["stop"@, name],
            failure: "docker stop failed"@,
        },
    ]
}

/// Remove the container, running or not.
pub open spec fn docker_remove_commands(name: Seq<char>) -> Seq<ToolCommandView> {
    seq![
        ToolCommandView {
            program: "docker"@,
            args: seq!["rm"@, "-f"@, name],
            failure: "docker rm failed"@,
        },
    ]
}

impl Backend for DockerBackend {
    open spec fn backend_kind(&self) -> BackendKind {
        BackendKind::Docker
    }

    fn kind(&self) -> (k: BackendKind) {
        BackendKind::Docker
    }

    fn list(&self) -> (envs: Vec<InstalledEnv>)
        ensures
            envs@.len() == 0,
    {
        Vec::new()
    }

    fn install(&self, env: &InstalledEnv, spec: InstallSpec) -> (r: Result<Vec<ToolCommand>, Error>)
        ensures
            r matches Ok(commands) ==> commands_view(commands@) == docker_install_commands(
                env.name@,
                spec@.docker_image->0,
            ),
    {
        match (spec.docker_image, spec.rootfs_path) {
            (Some(image), None) => {
                let mut pull: Vec<String> = Vec::new();
                pull.push("pull".to_owned());
                pull.push(image.clone());
                let mut run: Vec<String> = Vec::new();
                run.push("run".to_owned());
                run.push("-d".to_owned());
                run.push("--name".to_owned());
                run.push(env.name.clone());
                run.push(image);
                proof {
                    assert(texts(pull@) =~= seq!["pull"@, image@]);
                    assert(texts(run@) =~= seq!["run"@, "-d"@, "--name"@, env.name@, image@]);
                }
                let mut commands: Vec<ToolCommand> = Vec::new();
                commands.push(tool("docker", pull, "docker pull failed"));
                commands.push(tool("docker", run, "docker run failed"));
                proof {
                    assert(commands_view(commands@) =~= docker_install_commands(env.name@, image@));
                }
                Ok(commands)
            },
            _ => Err(Error::InvalidInstallSpec { backend: BackendKind::Docker }),
        }
    }

    fn start(&self, name: &str) -> (commands: Vec<ToolCommand>)
        ensures
            commands_view(commands@) == docker_start_commands(name@),
    {
        let mut args: Vec<String> = Vec::new();
        args.push("start".to_owned());
        args.push(name.to_owned());
        proof {
            assert(texts(args@) =~= seq!["start"@, name@]);
        }
        let mut commands: Vec<ToolCommand> = Vec::new();
        commands.push(tool("docker", args, "docker start failed"));
        proof {
            assert(commands_view(commands@) =~= docker_start_commands(name@));
        }
        commands
    }

    fn stop(&self, name: &str) -> (commands: Vec<ToolCommand>)
        ensures
            commands_view(commands@) == docker_stop_commands(name@),
    {
        let mut args: Vec<String> = Vec::new();
        args.push("stop".to_owned());
        args.push(name.to_owned());
        proof {
            assert(texts(args@) =~= seq!["stop"@, name@]);
        }
        let mut commands: Vec<ToolCommand> = Vec::new();
        commands.push(tool("docker", args, "docker stop failed"));
        proof {
            assert(commands_view(commands@) =~= docker_stop_commands(name@));
        }
        commands
    }

    fn remove(&self, name: &str) -> (commands: Vec<ToolCommand>)
        ensures
            commands_view(commands@) == docker_remove_commands(name@),
    {
        let mut args: Vec<String> = Vec::new();
        args.push("rm".to_owned());
        args.push("-f".to_owned());
        args.push(name.to_owned());
        proof {
            assert(texts(args@) =~= seq!["rm"@, "-f"@, name@]);
        }
        let mut commands: Vec<ToolCommand> = Vec::new();
        commands.push(tool("docker", args, "docker rm failed"));
        proof {
            assert(commands_view(commands@) =~= docker_remove_commands(name@));
        }
        commands
    }
}

} // verus!
