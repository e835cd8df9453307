use ldm_core::backends::docker::DockerBackend;
use ldm_core::backends::wsl::WslBackend;
use ldm_core::backends::{
    command_outcome, install_commands, lifecycle_commands, Backend, InstallSpec, ToolCommand,
};
use ldm_core::error::{BackendOp, Error};
use ldm_core::health::{check_disk_space, DiskInfo};
use ldm_core::models::{BackendKind, InstalledEnv};
use ldm_core::text::{decimal_string, parse_u64, str_chars, str_eq, string_from_chars};

fn env(name: &str, backend: BackendKind, dir: Option<&str>) -> InstalledEnv {
    InstalledEnv {
        name: name.to_string(),
        distro_id: "alpine".to_string(),
        version: "3.19".to_string(),
        backend,
        install_dir: dir.map(|d| d.to_string()),
    }
}

fn command(program: &str, args: &[&str], failure: &str) -> ToolCommand {
    ToolCommand {
        program: program.to_string(),
        args: args.iter().map(|a| a.to_string()).collect(),
        failure: failure.to_string(),
    }
}

fn image(reference: &str) -> InstallSpec {
    InstallSpec { docker_image: Some(reference.to_string()), rootfs_path: None }
}

fn rootfs(path: &str) -> InstallSpec {
    InstallSpec { docker_image: None, rootfs_path: Some(path.to_string()) }
}

#[test]
fn docker_install_pulls_and_runs() {
    let e = env("box", BackendKind::Docker, None);
    assert_eq!(
        DockerBackend.install(&e, image("alpine:3.19")),
        Ok(vec![
            command("docker", &["pull", "alpine:3.19"], "docker pull failed"),
            command(
                "docker",
                &["run", "-d", "--name", "box", "alpine:3.19"],
                "docker run failed"
            ),
        ])
    );
}

#[test]
fn docker_lifecycle_commands() {
    assert_eq!(
        DockerBackend.start("box"),
        vec![command("docker", &["start", "box"], "docker start failed")]
    );
    assert_eq!(
        DockerBackend.stop("box"),
        vec![command("docker", &["stop", "box"], "docker stop failed")]
    );
    assert_eq!(
        DockerBackend.remove("box"),
        vec![command("docker", &["rm", "-f", "box"], "docker rm failed")]
    );
}

#[test]
fn wsl_install_imports_the_archive() {
    let e = env("box", BackendKind::Wsl, None);
    assert_eq!(
        WslBackend.install(&e, rootfs("/tmp/ldm/r.tar")),
        Ok(vec![command(
            "wsl.exe",
            &["--import", "box", "C:\\WSL\\box", "/tmp/ldm/r.tar", "--version", "2"],
            "WSL import failed"
        )])
    );
    let e = env("box", BackendKind::Wsl, Some("D:\\envs\\box"));
    assert_eq!(
        WslBackend.install(&e, rootfs("r.tar")),
        Ok(vec![command(
            "wsl.exe",
            &["--import", "box", "D:\\envs\\box", "r.tar", "--version", "2"],
            "WSL import failed"
        )])
    );
}

#[test]
fn wsl_lifecycle_commands() {
    assert_eq!(
        WslBackend.start("box"),
        vec![command("wsl.exe", &["-d", "box"], "wsl start failed")]
    );
    assert_eq!(WslBackend.stop("box"), vec![]);
    assert_eq!(
        WslBackend.remove("box"),
        vec![command("wsl.exe", &["--unregister", "box"], "wsl unregister failed")]
    );
}

#[test]
fn a_directive_of_the_wrong_shape_is_refused() {
    let d = env("box", BackendKind::Docker, None);
    let w = env("box", BackendKind::Wsl, None);
    let neither = InstallSpec { docker_image: None, rootfs_path: None };
    let both = InstallSpec {
        docker_image: Some("alpine:3.19".to_string()),
        rootfs_path: Some("r.tar".to_string()),
    };
    let docker = Err(Error::InvalidInstallSpec { backend: BackendKind::Docker });
    let wsl = Err(Error::InvalidInstallSpec { backend: BackendKind::Wsl });
    assert_eq!(DockerBackend.install(&d, rootfs("r.tar")), docker);
    assert_eq!(DockerBackend.install(&d, neither.clone()), docker);
    assert_eq!(DockerBackend.install(&d, both.clone()), docker);
    assert_eq!(WslBackend.install(&w, image("alpine:3.19")), wsl);
    assert_eq!(WslBackend.install(&w, neither.clone()), wsl);
    assert_eq!(WslBackend.install(&w, both.clone()), wsl);
    assert_eq!(install_commands(&d, rootfs("r.tar")), docker);
    assert_eq!(install_commands(&w, image("a")), wsl);
}

#[test]
fn dispatch_goes_by_the_backend_of_the_record() {
    let d = env("c1", BackendKind::Docker, None);
    let w = env("w1", BackendKind::Wsl, None);
    assert_eq!(install_commands(&d, image("a:1")), DockerBackend.install(&d, image("a:1")));
    assert_eq!(install_commands(&w, rootfs("r")), WslBackend.install(&w, rootfs("r")));
    assert_eq!(lifecycle_commands(&d, BackendOp::Start), DockerBackend.start("c1"));
    assert_eq!(lifecycle_commands(&d, BackendOp::Stop), DockerBackend.stop("c1"));
    assert_eq!(lifecycle_commands(&d, BackendOp::Remove), DockerBackend.remove("c1"));
    assert_eq!(lifecycle_commands(&w, BackendOp::Start), WslBackend.start("w1"));
    assert_eq!(lifecycle_commands(&w, BackendOp::Stop), vec![]);
    assert_eq!(lifecycle_commands(&w, BackendOp::Remove), WslBackend.remove("w1"));
    assert_eq!(lifecycle_commands(&w, BackendOp::Install), vec![]);
    assert_eq!(lifecycle_commands(&d, BackendOp::Install), vec![]);
}

#[test]
fn a_failed_invocation_fails_the_operation() {
    let c = command("docker", &["pull", "a"], "docker pull failed");
    assert_eq!(command_outcome(BackendOp::Install, &c, true), Ok(()));
    assert_eq!(
        command_outcome(BackendOp::Install, &c, false),
        Err(Error::BackendOperationFailed {
            op: BackendOp::Install,
            detail: "docker pull failed".to_string()
        })
    );
}

#[test]
fn messages_name_what_went_wrong() {
    let cases: Vec<(Error, &str)> = vec![
        (Error::DistroNotFound { id: "arch".to_string() }, "distro not found: arch"),
        (Error::VersionNotFound { version: "9".to_string() }, "version not found: 9"),
        (Error::EnvNotFound { name: "box".to_string() }, "env not found: box"),
        (
            Error::NoCompatibleArtifact { backend: BackendKind::Docker },
            "no docker image artifact",
        ),
        (Error::NoCompatibleArtifact { backend: BackendKind::Wsl }, "no rootfs artifact"),
        (Error::DuplicateDistro { id: "a".to_string() }, "duplicate distribution id: a"),
        (Error::CatalogFormat { detail: "eof".to_string() }, "malformed catalog: eof"),
        (Error::Network { detail: "timeout".to_string() }, "request failed: timeout"),
        (Error::UnexpectedStatus { code: 404 }, "http status 404"),
        (Error::UnexpectedStatus { code: 0 }, "http status 0"),
        (Error::Io { detail: "denied".to_string() }, "i/o error: denied"),
        (
            Error::ChecksumMismatch { got: "aa".to_string(), expected: "bb".to_string() },
            "sha256 mismatch: got aa, expected bb",
        ),
        (
            Error::NotFoundInManifest { file_name: "r.tar.gz".to_string() },
            "hash for r.tar.gz not found in sums file",
        ),
        (Error::Decompress, "decompressing gz"),
        (
            Error::InvalidInstallSpec { backend: BackendKind::Docker },
            "install spec does not name a docker image",
        ),
        (
            Error::InvalidInstallSpec { backend: BackendKind::Wsl },
            "install spec does not name a rootfs path",
        ),
        (
            Error::BackendOperationFailed {
                op: BackendOp::Remove,
                detail: "docker rm failed".to_string(),
            },
            "remove: docker rm failed",
        ),
        (
            Error::InsufficientDiskSpace { available: 10, required: 2048 },
            "Insufficient disk space. Available: 10 bytes, required: 2048 bytes",
        ),
        (Error::UnexpectedEvent, "event out of order"),
    ];
    for (error, text) in cases {
        assert_eq!(error.message(), text);
    }
    assert_eq!(BackendOp::Install.name(), "install");
    assert_eq!(BackendOp::Start.name(), "start");
    assert_eq!(BackendOp::Stop.name(), "stop");
    assert_eq!(BackendOp::Remove.name(), "remove");
}

fn disk(mount: &str, available: u64) -> DiskInfo {
    DiskInfo { mount_point: mount.to_string(), available }
}

#[test]
fn disk_space_goes_by_the_first_volume_that_holds_the_path() {
    let disks = vec![disk("/home", 100), disk("/", 1000)];
    assert_eq!(check_disk_space(&disks, "/home/u/x", 100), Ok(()));
    assert_eq!(
        check_disk_space(&disks, "/home/u/x", 101),
        Err(Error::InsufficientDiskSpace { available: 100, required: 101 })
    );
    assert_eq!(check_disk_space(&disks, "/var/x", 1000), Ok(()));
    assert_eq!(
        check_disk_space(&disks, "/var/x", 1001),
        Err(Error::InsufficientDiskSpace { available: 1000, required: 1001 })
    );
    let disks = vec![disk("/", 5), disk("/home", 100)];
    assert_eq!(
        check_disk_space(&disks, "/home/u/x", 50),
        Err(Error::InsufficientDiskSpace { available: 5, required: 50 })
    );
}

#[test]
fn a_path_on_no_listed_volume_passes() {
    assert_eq!(check_disk_space(&vec![], "/x", u64::MAX), Ok(()));
    assert_eq!(check_disk_space(&vec![disk("/mnt", 0)], "/x", u64::MAX), Ok(()));
    assert_eq!(check_disk_space(&vec![disk("/mnt/data", 0)], "/mnt", 1), Ok(()));
    assert_eq!(check_disk_space(&vec![disk("/", 0)], "/x", 0), Ok(()));
}

#[test]
fn text_conversions_keep_every_character() {
    let s = "a\u{e9}\u{4e2d}\u{1f600}z";
    let chars = str_chars(s);
    assert_eq!(chars, s.chars().collect::<Vec<char>>());
    assert_eq!(string_from_chars(&chars), s);
    assert_eq!(str_chars(""), Vec::<char>::new());
    assert!(str_eq(s, "a\u{e9}\u{4e2d}\u{1f600}z"));
    assert!(!str_eq(s, "a\u{e9}\u{4e2d}\u{1f600}"));
    assert!(!str_eq("abc", "abd"));
    assert!(str_eq("", ""));
}

#[test]
fn decimal_numerals_round_trip() {
    for n in [0u64, 7, 10, 99, 100, 12345, u64::MAX] {
        let text = decimal_string(n);
        assert_eq!(text, n.to_string());
        assert_eq!(parse_u64(&str_chars(&text)), Some(n));
    }
}
