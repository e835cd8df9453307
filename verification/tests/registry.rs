use ldm_core::env_manager::{add, find, remove};
use ldm_core::error::Error;
use ldm_core::models::{BackendKind, InstalledEnv};

fn env(name: &str, version: &str, backend: BackendKind) -> InstalledEnv {
    InstalledEnv {
        name: name.to_string(),
        distro_id: "alpine".to_string(),
        version: version.to_string(),
        backend,
        install_dir: None,
    }
}

#[test]
fn add_appends_a_new_name() {
    let mut envs = Vec::new();
    add(&mut envs, env("a", "1", BackendKind::Wsl));
    add(&mut envs, env("b", "1", BackendKind::Docker));
    assert_eq!(envs, vec![env("a", "1", BackendKind::Wsl), env("b", "1", BackendKind::Docker)]);
}

#[test]
fn add_twice_leaves_one_record_with_the_later_fields() {
    let mut envs = vec![env("x", "0", BackendKind::Wsl)];
    add(&mut envs, env("a", "1", BackendKind::Wsl));
    let len = envs.len();
    add(&mut envs, env("a", "2", BackendKind::Docker));
    assert_eq!(envs.len(), len);
    add(&mut envs, env("a", "3", BackendKind::Docker));
    assert_eq!(envs.len(), len);
    assert_eq!(envs, vec![env("x", "0", BackendKind::Wsl), env("a", "3", BackendKind::Docker)]);
    assert_eq!(envs.iter().filter(|e| e.name == "a").count(), 1);
}

#[test]
fn add_moves_a_replaced_record_to_the_end() {
    let mut envs = vec![
        env("a", "1", BackendKind::Wsl),
        env("b", "1", BackendKind::Wsl),
        env("c", "1", BackendKind::Wsl),
    ];
    add(&mut envs, env("a", "2", BackendKind::Wsl));
    assert_eq!(
        envs,
        vec![
            env("b", "1", BackendKind::Wsl),
            env("c", "1", BackendKind::Wsl),
            env("a", "2", BackendKind::Wsl),
        ]
    );
}

#[test]
fn add_clears_every_record_of_the_name() {
    let mut envs = vec![
        env("a", "1", BackendKind::Wsl),
        env("b", "1", BackendKind::Wsl),
        env("a", "2", BackendKind::Wsl),
        env("a", "3", BackendKind::Wsl),
    ];
    add(&mut envs, env("a", "4", BackendKind::Wsl));
    assert_eq!(envs, vec![env("b", "1", BackendKind::Wsl), env("a", "4", BackendKind::Wsl)]);
}

#[test]
fn remove_leaves_no_record_of_the_name() {
    let mut envs = vec![
        env("a", "1", BackendKind::Wsl),
        env("b", "1", BackendKind::Wsl),
        env("a", "2", BackendKind::Docker),
        env("c", "1", BackendKind::Wsl),
    ];
    remove(&mut envs, "a");
    assert_eq!(envs, vec![env("b", "1", BackendKind::Wsl), env("c", "1", BackendKind::Wsl)]);
    remove(&mut envs, "c");
    remove(&mut envs, "b");
    assert!(envs.is_empty());
}

#[test]
fn remove_of_an_unknown_name_changes_nothing() {
    let mut envs = vec![env("a", "1", BackendKind::Wsl), env("b", "1", BackendKind::Wsl)];
    let before = envs.clone();
    remove(&mut envs, "z");
    assert_eq!(envs, before);
    remove(&mut envs, "");
    assert_eq!(envs, before);
    remove(&mut envs, "A");
    assert_eq!(envs, before);
    let mut empty: Vec<InstalledEnv> = Vec::new();
    remove(&mut empty, "a");
    assert!(empty.is_empty());
}

#[test]
fn lifecycle_of_one_name() {
    let mut envs = Vec::new();
    assert!(find(&envs, "a").is_err());
    add(&mut envs, env("a", "1", BackendKind::Wsl));
    assert_eq!(find(&envs, "a"), Ok(&env("a", "1", BackendKind::Wsl)));
    add(&mut envs, env("a", "2", BackendKind::Wsl));
    assert_eq!(find(&envs, "a"), Ok(&env("a", "2", BackendKind::Wsl)));
    remove(&mut envs, "a");
    assert_eq!(find(&envs, "a"), Err(Error::EnvNotFound { name: "a".to_string() }));
}
