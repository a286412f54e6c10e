use community_agent::keyring::{
    config_dir, current_file, current_file_contents, current_name, identity_file,
    identity_names, keys_dir, needs_stored_key, path_join, resolve_api_key, KeyringError,
};

#[test]
fn keyring_paths_under_home() {
    assert_eq!(config_dir(Some("/home/a")).unwrap(), "/home/a/.community");
    assert_eq!(keys_dir(Some("/home/a")).unwrap(), "/home/a/.community/keys");
    assert_eq!(current_file(Some("/home/a/")).unwrap(), "/home/a/.community/current");
    assert_eq!(
        identity_file(Some("/home/a"), "bob smith").unwrap(),
        "/home/a/.community/keys/bob_smith.json"
    );
}

#[test]
fn keyring_paths_without_home() {
    assert_eq!(keys_dir(None), Err(KeyringError::HomeNotSet));
    assert_eq!(current_file(None), Err(KeyringError::HomeNotSet));
    assert_eq!(config_dir(None), Err(KeyringError::HomeNotSet));
}

#[test]
fn path_join_matches_pathbuf() {
    for (base, comp) in [("", "x"), ("/", "x"), ("/a", "x"), ("/a/", "x"), ("a", "b.json")] {
        let expected = std::path::PathBuf::from(base).join(comp);
        assert_eq!(path_join(base, comp), expected.to_str().unwrap());
    }
}

#[test]
fn current_name_trims_and_rejects_blank() {
    assert_eq!(current_name("alice\n"), Some("alice".to_string()));
    assert_eq!(current_name("  \n"), None);
    assert_eq!(current_name(""), None);
}

#[test]
fn current_roundtrip_finds_saved_identity() {
    let name = "my agent";
    let written = current_file_contents(name);
    let read_back = current_name(&written).unwrap();
    assert_eq!(
        identity_file(Some("/h"), &read_back).unwrap(),
        identity_file(Some("/h"), name).unwrap()
    );
}

#[test]
fn resolve_api_key_order() {
    assert_eq!(resolve_api_key(Some("flag"), Some("env"), Some("disk")), Some("flag".into()));
    assert_eq!(resolve_api_key(Some(""), Some("env"), Some("disk")), Some("env".into()));
    assert_eq!(resolve_api_key(None, Some(""), Some("disk")), Some("disk".into()));
    assert_eq!(resolve_api_key(None, None, None), None);
    assert!(needs_stored_key(Some(""), None));
    assert!(!needs_stored_key(None, Some("k")));
}

#[test]
fn identity_names_filters_and_sorts() {
    let files: Vec<String> = ["zed.json", "alice.json", ".json", "notes.txt", "b.tar.json", "Bob.json", "json"]
        .iter()
        .map(|s| s.to_string())
        .collect();
    assert_eq!(identity_names(&files), vec!["Bob", "alice", "b.tar", "zed"]);
}

#[test]
fn identity_names_matches_std_sort() {
    let files: Vec<String> = ["é.json", "e.json", "ea.json", "e.json", "Z.json"]
        .iter()
        .map(|s| s.to_string())
        .collect();
    let mut expected: Vec<String> = vec!["é", "e", "ea", "e", "Z"].into_iter().map(String::from).collect();
    expected.sort();
    assert_eq!(identity_names(&files), expected);
}
