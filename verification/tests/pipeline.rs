use std::io::Write;

use ldm_core::backends::docker::DockerBackend;
use ldm_core::backends::wsl::WslBackend;
use ldm_core::backends::{install_commands, Backend, InstallSpec};
use ldm_core::env_manager::add;
use ldm_core::error::Error;
use ldm_core::hash::digest_hex;
use ldm_core::install::{
    decompress, file_name_from_url, gunzip_target, join_path, plan_install, DigestPlan,
    PrepareAction, PrepareEvent, PreparePhase, Preparation,
};
use ldm_core::models::{
    Artifact, BackendKind, DistributionsIndex, Distro, DistroVersion, InstalledEnv, Timestamp,
};

fn gzip(payload: &[u8]) -> Vec<u8> {
    let mut enc = flate2::write::GzEncoder::new(Vec::new(), flate2::Compression::default());
    enc.write_all(payload).unwrap();
    enc.finish().unwrap()
}

fn rootfs(url: &str, sha256: Option<&str>, sha256_url: Option<&str>) -> Artifact {
    Artifact::Rootfs {
        download_url: url.to_string(),
        sha256: sha256.map(|s| s.to_string()),
        sha256_url: sha256_url.map(|s| s.to_string()),
    }
}

fn rootfs_spec(path: &str) -> InstallSpec {
    InstallSpec { docker_image: None, rootfs_path: Some(path.to_string()) }
}

fn catalog(artifacts: Vec<Artifact>) -> DistributionsIndex {
    DistributionsIndex {
        updated_at: Timestamp { secs: 0, nanos: 0 },
        distributions: vec![Distro {
            id: "alpine".to_string(),
            name: "Alpine".to_string(),
            vendor: None,
            website: None,
            backends: vec![BackendKind::Wsl, BackendKind::Docker],
            versions: vec![DistroVersion {
                version: "3.19".to_string(),
                channel: Some("stable".to_string()),
                artifacts,
            }],
        }],
    }
}

#[test]
fn install_of_a_rootfs_on_the_import_backend() {
    let payload: Vec<u8> = (0..5000u32).map(|i| (i % 251) as u8).collect();
    let archive = gzip(&payload);
    let digest = digest_hex(&archive);
    let idx = catalog(vec![rootfs("https://host/dl/alpine-3.19.tar.gz", Some(&digest), None)]);

    let plan = plan_install(&idx, "alpine", "3.19", BackendKind::Wsl, "box", None).unwrap();
    let (state, action) = Preparation::start(plan.artifact, "/tmp/ldm");
    assert_eq!(
        action,
        PrepareAction::Download {
            url: "https://host/dl/alpine-3.19.tar.gz".to_string(),
            dest: "/tmp/ldm/alpine-3.19.tar.gz".to_string(),
        }
    );
    assert_eq!(state.phase, PreparePhase::Downloading);
    assert_eq!(state.target, Some("/tmp/ldm/alpine-3.19.tar".to_string()));

    let (state, action) = state.step(PrepareEvent::Downloaded);
    assert_eq!(
        action,
        PrepareAction::ReadArchive { path: "/tmp/ldm/alpine-3.19.tar.gz".to_string() }
    );
    let (state, action) = state.step(PrepareEvent::Content { bytes: archive });
    assert_eq!(
        action,
        PrepareAction::WriteArchive {
            path: "/tmp/ldm/alpine-3.19.tar".to_string(),
            bytes: payload,
        }
    );
    let (state, action) = state.step(PrepareEvent::Written);
    assert_eq!(state.phase, PreparePhase::Finished);
    let spec = match action {
        PrepareAction::Finish { spec } => spec,
        other => panic!("unexpected {other:?}"),
    };
    assert_eq!(spec, rootfs_spec("/tmp/ldm/alpine-3.19.tar"));

    let commands = install_commands(&plan.env, spec).unwrap();
    assert_eq!(commands.len(), 1);
    assert_eq!(commands[0].program, "wsl.exe");
    assert_eq!(
        commands[0].args,
        vec!["--import", "box", "C:\\WSL\\box", "/tmp/ldm/alpine-3.19.tar", "--version", "2"]
    );

    let mut registry = Vec::new();
    add(&mut registry, plan.env.clone());
    assert_eq!(
        registry,
        vec![InstalledEnv {
            name: "box".to_string(),
            distro_id: "alpine".to_string(),
            version: "3.19".to_string(),
            backend: BackendKind::Wsl,
            install_dir: None,
        }]
    );
}

#[test]
fn install_of_an_image_on_the_container_backend() {
    let idx = catalog(vec![
        rootfs("https://host/a.tar.gz", None, None),
        Artifact::DockerImage { image: "alpine:3.19".to_string() },
    ]);
    let plan = plan_install(&idx, "alpine", "3.19", BackendKind::Docker, "box", None).unwrap();
    let (state, action) = Preparation::start(plan.artifact, "/tmp/ldm");
    assert_eq!(state.phase, PreparePhase::Finished);
    let spec = InstallSpec { docker_image: Some("alpine:3.19".to_string()), rootfs_path: None };
    assert_eq!(action, PrepareAction::Finish { spec: spec.clone() });

    let commands = install_commands(&plan.env, spec).unwrap();
    assert_eq!(commands.len(), 2);
    assert_eq!(commands[0].args, vec!["pull", "alpine:3.19"]);
    assert_eq!(commands[1].args, vec!["run", "-d", "--name", "box", "alpine:3.19"]);

    let mut registry = Vec::new();
    add(&mut registry, plan.env);
    assert_eq!(registry.len(), 1);
    assert_eq!(registry[0].name, "box");
    assert_eq!(registry[0].distro_id, "alpine");
    assert_eq!(registry[0].version, "3.19");
    assert_eq!(registry[0].backend, BackendKind::Docker);
}

#[test]
fn a_corrupt_archive_is_not_handed_on() {
    let archive = gzip(b"payload");
    let digest = digest_hex(&archive);
    let mut corrupt = archive.clone();
    corrupt[4] ^= 0x40;
    let (state, _) =
        Preparation::start(&rootfs("https://h/r.tar.gz", Some(&digest), None), "/w");
    let (state, _) = state.step(PrepareEvent::Downloaded);
    let (state, action) = state.step(PrepareEvent::Content { bytes: corrupt.clone() });
    assert_eq!(state.phase, PreparePhase::Failed);
    assert_eq!(
        action,
        PrepareAction::Fail {
            error: Error::ChecksumMismatch { got: digest_hex(&corrupt), expected: digest }
        }
    );
}

#[test]
fn the_digest_may_come_from_a_manifest() {
    let archive = gzip(b"payload");
    let digest = digest_hex(&archive).to_uppercase();
    let artifact = rootfs("https://h/v1/r.tar.gz", None, Some("https://h/v1/SHA256SUMS"));
    let (state, _) = Preparation::start(&artifact, "/w/");
    assert_eq!(state.dest, "/w/r.tar.gz");
    assert_eq!(state.digest, DigestPlan::Lookup { url: "https://h/v1/SHA256SUMS".to_string() });
    let (state, action) = state.step(PrepareEvent::Downloaded);
    assert_eq!(
        action,
        PrepareAction::FetchManifest { url: "https://h/v1/SHA256SUMS".to_string() }
    );
    let text = format!("0000  r.tar.gz.sig\n{digest}  ./r.tar.gz\n");
    let (state, action) = state.step(PrepareEvent::Manifest { text });
    assert_eq!(action, PrepareAction::ReadArchive { path: "/w/r.tar.gz".to_string() });
    assert_eq!(state.digest, DigestPlan::Known { hex: digest });
    let (state, action) = state.step(PrepareEvent::Content { bytes: archive });
    assert_eq!(state.phase, PreparePhase::Writing);
    assert_eq!(
        action,
        PrepareAction::WriteArchive { path: "/w/r.tar".to_string(), bytes: b"payload".to_vec() }
    );
}

#[test]
fn a_manifest_without_the_file_ends_the_preparation() {
    let artifact = rootfs("https://h/r.tar.gz", None, Some("https://h/sums"));
    let (state, _) = Preparation::start(&artifact, "/w");
    let (state, _) = state.step(PrepareEvent::Downloaded);
    let (state, action) =
        state.step(PrepareEvent::Manifest { text: "abc  r.tar.gz.sig\nabc\n".to_string() });
    assert_eq!(state.phase, PreparePhase::Failed);
    assert_eq!(
        action,
        PrepareAction::Fail {
            error: Error::NotFoundInManifest { file_name: "r.tar.gz".to_string() }
        }
    );
}

#[test]
fn a_direct_digest_wins_over_a_manifest() {
    let artifact = rootfs("https://h/r.tar", Some("abcd"), Some("https://h/sums"));
    let (state, _) = Preparation::start(&artifact, "/w");
    assert_eq!(state.digest, DigestPlan::Known { hex: "abcd".to_string() });
    let (_, action) = state.step(PrepareEvent::Downloaded);
    assert_eq!(action, PrepareAction::ReadArchive { path: "/w/r.tar".to_string() });
}

#[test]
fn an_undeclared_digest_skips_the_check() {
    let (state, _) = Preparation::start(&rootfs("https://h/r.tar", None, None), "/w");
    assert_eq!(state.target, None);
    let (state, action) = state.step(PrepareEvent::Downloaded);
    assert_eq!(state.phase, PreparePhase::Finished);
    assert_eq!(action, PrepareAction::Finish { spec: rootfs_spec("/w/r.tar") });

    let (state, _) = Preparation::start(&rootfs("https://h/r.tar.gz", None, None), "/w");
    let (state, action) = state.step(PrepareEvent::Downloaded);
    assert_eq!(action, PrepareAction::ReadArchive { path: "/w/r.tar.gz".to_string() });
    let (_, action) = state.step(PrepareEvent::Content { bytes: gzip(b"xyz") });
    assert_eq!(
        action,
        PrepareAction::WriteArchive { path: "/w/r.tar".to_string(), bytes: b"xyz".to_vec() }
    );
}

#[test]
fn a_raw_archive_is_checked_and_handed_on_as_it_is() {
    let content = b"not compressed".to_vec();
    let digest = digest_hex(&content);
    let (state, _) = Preparation::start(&rootfs("https://h/r.tar", Some(&digest), None), "w");
    let (state, _) = state.step(PrepareEvent::Downloaded);
    let (state, action) = state.step(PrepareEvent::Content { bytes: content });
    assert_eq!(state.phase, PreparePhase::Finished);
    assert_eq!(action, PrepareAction::Finish { spec: rootfs_spec("w/r.tar") });
}

#[test]
fn data_that_is_no_gzip_fails_to_decompress() {
    let content = b"this is not gzip data".to_vec();
    let (state, _) = Preparation::start(&rootfs("https://h/r.tar.gz", None, None), "/w");
    let (state, _) = state.step(PrepareEvent::Downloaded);
    let (state, action) = state.step(PrepareEvent::Content { bytes: content.clone() });
    assert_eq!(state.phase, PreparePhase::Failed);
    assert_eq!(action, PrepareAction::Fail { error: Error::Decompress });
    assert_eq!(decompress(&content), Err(Error::Decompress));
    assert_eq!(decompress(&[]), Err(Error::Decompress));
    let mut truncated = gzip(&[5u8; 4000]);
    truncated.truncate(20);
    assert_eq!(decompress(&truncated), Err(Error::Decompress));
}

#[test]
fn decompress_restores_what_was_compressed() {
    for payload in [&b""[..], &b"a"[..], &[0u8; 70000][..]] {
        assert_eq!(decompress(&gzip(payload)), Ok(payload.to_vec()));
    }
}

#[test]
fn conclude_decides_from_the_digest_and_the_unpacked_form() {
    let (state, _) = Preparation::start(&rootfs("https://h/r.tar.gz", Some("AB12"), None), "/w");
    let (state, _) = state.step(PrepareEvent::Downloaded);
    let (next, action) = state.clone().conclude("ab12", Some(vec![1, 2, 3]));
    assert_eq!(next.phase, PreparePhase::Writing);
    assert_eq!(
        action,
        PrepareAction::WriteArchive { path: "/w/r.tar".to_string(), bytes: vec![1, 2, 3] }
    );
    let (next, action) = state.clone().conclude("ab13", Some(vec![1, 2, 3]));
    assert_eq!(next.phase, PreparePhase::Failed);
    assert_eq!(
        action,
        PrepareAction::Fail {
            error: Error::ChecksumMismatch { got: "ab13".to_string(), expected: "AB12".to_string() }
        }
    );
    let (next, action) = state.conclude("ab12", None);
    assert_eq!(next.phase, PreparePhase::Failed);
    assert_eq!(action, PrepareAction::Fail { error: Error::Decompress });
}

#[test]
fn events_out_of_order_end_the_preparation() {
    let (state, _) = Preparation::start(&rootfs("https://h/r.tar.gz", None, None), "/w");
    let (state, action) = state.step(PrepareEvent::Written);
    assert_eq!(state.phase, PreparePhase::Failed);
    assert_eq!(action, PrepareAction::Fail { error: Error::UnexpectedEvent });
    let (_, action) = state.step(PrepareEvent::Downloaded);
    assert_eq!(action, PrepareAction::Fail { error: Error::UnexpectedEvent });
}

#[test]
fn file_name_is_what_follows_the_last_slash() {
    assert_eq!(file_name_from_url("https://h/a/b/rootfs.tar.gz"), "rootfs.tar.gz");
    assert_eq!(file_name_from_url("rootfs.tar.gz"), "rootfs.tar.gz");
    assert_eq!(file_name_from_url("https://h/a/"), "");
    assert_eq!(file_name_from_url(""), "");
    assert_eq!(file_name_from_url("/"), "");
    assert_eq!(file_name_from_url("https://h/r.tar.gz?x=1"), "r.tar.gz?x=1");
    assert_eq!(file_name_from_url("a/\u{e9}t\u{e9}.gz"), "\u{e9}t\u{e9}.gz");
}

#[test]
fn join_path_puts_one_separator_between() {
    assert_eq!(join_path("/tmp/ldm", "a.tar"), "/tmp/ldm/a.tar");
    assert_eq!(join_path("/tmp/ldm/", "a.tar"), "/tmp/ldm/a.tar");
    assert_eq!(join_path("", "a.tar"), "a.tar");
    assert_eq!(join_path("/", "a.tar"), "/a.tar");
    assert_eq!(join_path("w", ""), "w/");
    assert_eq!(join_path("C:\\Temp", "a"), "C:\\Temp/a");
}

#[test]
fn gunzip_target_strips_the_suffix_of_a_gzip_name() {
    assert_eq!(gunzip_target("/w/rootfs.tar.gz"), Some("/w/rootfs.tar".to_string()));
    assert_eq!(gunzip_target("a.gz"), Some("a".to_string()));
    assert_eq!(gunzip_target("..gz"), Some(".".to_string()));
    assert_eq!(gunzip_target("/w.gz/x.gz"), Some("/w.gz/x".to_string()));
    assert_eq!(gunzip_target(".gz"), None);
    assert_eq!(gunzip_target("/w/.gz"), None);
    assert_eq!(gunzip_target("/w/rootfs.tar"), None);
    assert_eq!(gunzip_target("/w/rootfs.tar.GZ"), None);
    assert_eq!(gunzip_target("/w/rootfs.tgz"), None);
    assert_eq!(gunzip_target("/w.gz/rootfs"), None);
    assert_eq!(gunzip_target("/w/x.gz/"), None);
    assert_eq!(gunzip_target("gz"), None);
    assert_eq!(gunzip_target(""), None);
}

#[test]
fn backends_say_their_kind_and_list_nothing() {
    assert_eq!(DockerBackend.kind(), BackendKind::Docker);
    assert_eq!(WslBackend.kind(), BackendKind::Wsl);
    assert!(DockerBackend.list().is_empty());
    assert!(WslBackend.list().is_empty());
}
