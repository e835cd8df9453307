//! The import-based backend.

use vstd::prelude::*;
use vstd::string::StringExecFns;
use crate::backends::{commands_view, texts, tool, Backend, InstallSpec, ToolCommand, ToolCommandView};
use crate::error::Error;
use crate::models::{BackendKind, InstalledEnv, InstalledEnvView};

verus! {

/// The backend that delegates to the `wsl.exe` tool.
pub struct WslBackend;

/// The directory an environment is imported into: the one its record names,
/// or else a directory of its own name under `C:\WSL`.
pub open spec fn wsl_install_dir(env: InstalledEnvView) -> Seq<char> {
    match env.install_dir {
        Some(dir) => dir,
        None => "C:\\WSL\\"@ + env.name,
    }
}

/// Import the archive under the environment's name.
pub open spec fn wsl_install_commands(env: InstalledEnvView, rootfs_path: Seq<char>) -> Seq<
    ToolCommandView,
> {
    seq![
        ToolCommandView {
            program: "wsl.exe"@,
            args: seq![
                "--import"@,
                env.name,
                wsl_install_dir(env),
                rootfs_path,
                "--version"@,
                "2"@,
            ],
            failure: "WSL import failed"@,
        },
    ]
}

/// Start the distribution.
pub open spec fn wsl_start_commands(name: Seq<char>) -> Seq<ToolCommandView> {
    seq![
        ToolCommandView {
            program: "wsl.exe"@,
            args: seq!["-d"@, name],
            failure: "wsl start failed"@,
        },
    ]
}

/// Unregister the distribution.
pub open spec fn wsl_remove_commands(name: Seq<char>) -> Seq<ToolCommandView> {
    seq![
        ToolCommandView {
            program: "wsl.exe"@,
            args: seq!["--unregister"@, name],
            failure: "wsl unregister failed"@,
        },
    ]
}

impl Backend for WslBackend {
    open spec fn backend_kind(&self) -> BackendKind {
        BackendKind::Wsl
    }

    fn kind(&self) -> (k: BackendKind) {
        BackendKind::Wsl
    }

    fn list(&self) -> (envs: Vec<InstalledEnv>)
        ensures
            envs@.len() == 0,
    {
        Vec::new()
    }

    fn install(&self, env: &InstalledEnv, spec: InstallSpec) -> (r: Result<Vec<ToolCommand>, Error>)
        ensures
            r matches Ok(commands) ==> commands_view(commands@) == wsl_install_commands(
                env@,
                spec@.rootfs_path->0,
            ),
    {
        match (spec.rootfs_path, spec.docker_image) {
            (Some(path), None) => {
                let dir = match &env.install_dir {
                    Some(dir) => dir.clone(),
                    None => {
                        let mut dir = String::from_str("C:\\WSL\\");
                        dir.append(env.name.as_str());
                        dir
                    },
                };
                let mut args: Vec<String> = Vec::new();
                args.push("--import".to_owned());
                args.push(env.name.clone());
                args.push(dir);
                args.push(path);
                args.push("--version".to_owned());
                args.push("2".to_owned());
                proof {
                    assert(texts(args@) =~= seq![
                        "--import"@,
                        env.name@,
                        wsl_install_dir(env@),
                        path@,
                        "--version"@,
                        "2"@,
                    ]);
                }
                let mut commands: Vec<ToolCommand> = Vec::new();
                commands.push(tool("wsl.exe", args, "WSL import failed"));
                proof {
                    assert(commands_view(commands@) =~= wsl_install_commands(env@, path@));
                }
                Ok(commands)
            },
            _ => Err(Error::InvalidInstallSpec { backend: BackendKind::Wsl }),
        }
    }

    fn start(&self, name: &str) -> (commands: Vec<ToolCommand>)
        ensures
            commands_view(commands@) == wsl_start_commands(name@),
    {
        let mut args: Vec<String> = Vec::new();
        args.push("-d".to_owned());
        args.push(name.to_owned());
        proof {
            assert(texts(args@) =~= seq!["-d"@, name@]);
        }
        let mut commands: Vec<ToolCommand> = Vec::new();
        commands.push(tool("wsl.exe", args, "wsl start failed"));
        proof {
            assert(commands_view(commands@) =~= wsl_start_commands(name@));
        }
        commands
    }

    fn stop(&self, name: &str) -> (commands: Vec<ToolCommand>)
        ensures
            commands@.len() == 0,
    {
        Vec::new()
    }

    fn remove(&self, name: &str) -> (commands: Vec<ToolCommand>)
        ensures
            commands_view(commands@) == wsl_remove_commands(name@),
    {
        let mut args: Vec<String> = Vec::new();
        args.push("--unregister".to_owned());
        args.push(name.to_owned());
        proof {
            assert(texts(args@) =~= seq!["--unregister"@, name@]);
        }
        let mut commands: Vec<ToolCommand> = Vec::new();
        commands.push(tool("wsl.exe", args, "wsl unregister failed"));
        proof {
            assert(commands_view(commands@) =~= wsl_remove_commands(name@));
        }
        commands
    }
}

} // verus!
