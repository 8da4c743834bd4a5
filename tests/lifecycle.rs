use fa::cli::FaCli;
use fa::config::{config_file_in, get_base_directory, Config};
use fa::error::FaError;
use fa::fa::{Fa, FaApplicationState, StoreAccess};
use fa::gpg::Gpg;

fn state() -> FaApplicationState {
    let configuration = Config::from_absolutized(
        Ok(Some("/home/me/stores".to_string())),
        "main".to_string(),
        "ABCD1234".to_string(),
        "/home/me/.config/fa/config.toml".to_string(),
    )
    .unwrap();
    FaApplicationState { configuration }
}

fn fa() -> Fa {
    Fa::new(FaCli { command: None })
}

#[test]
fn default_store_is_used_when_none_is_named() {
    let s = state();
    assert_eq!(Fa::resolve_store_name(&None, &s), "main");
    assert_eq!(Fa::resolve_store_name(&Some("alt".to_string()), &s), "alt");
    assert_eq!(Fa::resolve_store_path(&None, &s), "/home/me/stores/main.fa");
}

#[test]
fn get_store_loads_an_existing_store() {
    match fa().get_store(&Some("alt".to_string()), &state(), false, true) {
        Ok(StoreAccess::Load { name, path }) => {
            assert_eq!(name, "alt");
            assert_eq!(path, "/home/me/stores/alt.fa");
        }
        other => panic!("unexpected {:?}", other),
    }
}

#[test]
fn get_store_creates_only_when_allowed() {
    match fa().get_store(&None, &state(), true, false) {
        Ok(StoreAccess::Create { name, path }) => {
            assert_eq!(name, "main");
            assert_eq!(path, "/home/me/stores/main.fa");
        }
        other => panic!("unexpected {:?}", other),
    }
    match fa().get_store(&None, &state(), false, false) {
        Err(FaError::NoStore { path }) => assert_eq!(path, "/home/me/stores/main.fa"),
        other => panic!("unexpected {:?}", other),
    }
}

#[test]
fn switching_the_default_store_redirects_later_commands() {
    let s = state();
    let switched = Fa::set_default(&s, &"alt".to_string(), true).unwrap();
    assert_eq!(switched._inner.store.default_store, "alt");
    assert_eq!(switched._inner.store.base_path, "/home/me/stores");
    assert_eq!(switched._inner.security.gpg_fingerprint, "ABCD1234");
    assert_eq!(switched.config_file_path, "/home/me/.config/fa/config.toml");
    let after = FaApplicationState { configuration: switched };
    match fa().get_store(&None, &after, false, true) {
        Ok(StoreAccess::Load { name, path }) => {
            assert_eq!(name, "alt");
            assert_eq!(path, "/home/me/stores/alt.fa");
        }
        other => panic!("unexpected {:?}", other),
    }
}

#[test]
fn switching_to_a_missing_store_changes_nothing() {
    assert!(Fa::set_default(&state(), &"ghost".to_string(), false).is_none());
}

#[test]
fn store_names_come_from_files_with_the_extension() {
    let files = vec![
        "main.fa".to_string(),
        "notes.txt".to_string(),
        "a.b.fa".to_string(),
        ".fa".to_string(),
        "fa".to_string(),
        "work.fa".to_string(),
    ];
    assert_eq!(Fa::list_store_names(&files), vec!["main", "a.b", "work"]);
    assert!(Fa::list_store_names(&Vec::new()).is_empty());
}

#[test]
fn store_names_have_spaces_replaced() {
    assert_eq!(Fa::normalize_store_name(&"my work store".to_string()), "my_work_store");
    assert_eq!(Fa::normalize_store_name(&"plain".to_string()), "plain");
    assert_eq!(Fa::normalize_store_name(&String::new()), "");
}

#[test]
fn short_identities_are_not_looked_up() {
    assert!(!Gpg::fingerprint_worth_checking(&String::new()));
    assert!(!Gpg::fingerprint_worth_checking(&"A".to_string()));
    assert!(Gpg::fingerprint_worth_checking(&"AB".to_string()));
}

#[test]
fn empty_ciphertext_skips_the_provider() {
    assert!(!Gpg::decryption_needs_provider(&Vec::new()));
    assert!(Gpg::decryption_needs_provider(&vec![1u8]));
}

#[test]
fn provider_exit_status_decides_the_outcome() {
    assert_eq!(Gpg::decryption_outcome(Some(0), vec![1, 2]).unwrap(), vec![1, 2]);
    assert!(matches!(Gpg::decryption_outcome(Some(2), vec![1]), Err(FaError::GPGDecryptionError)));
    assert!(matches!(Gpg::decryption_outcome(None, vec![]), Err(FaError::UnexpectedNone)));
    assert_eq!(Gpg::encryption_outcome(Some(0), vec![7]).unwrap(), vec![7]);
    assert!(matches!(Gpg::encryption_outcome(Some(1), vec![]), Err(FaError::GPGEncryptionError)));
    assert!(matches!(Gpg::encryption_outcome(None, vec![]), Err(FaError::UnexpectedNone)));
}

#[test]
fn configuration_directory_sits_under_home() {
    assert_eq!(get_base_directory(Ok("/home/me".to_string())).unwrap(), "/home/me/.config/fa");
    match get_base_directory(Err("not present".to_string())) {
        Err(FaError::EnvironmentVariableError { variable, message }) => {
            assert_eq!(variable, "HOME");
            assert_eq!(message, "not present");
        }
        other => panic!("unexpected {:?}", other),
    }
    assert_eq!(config_file_in(&"/home/me/.config/fa".to_string()), "/home/me/.config/fa/config.toml");
}

#[test]
fn configuration_keeps_its_parts() {
    let c = Config::new(
        "/srv/stores".to_string(),
        "main".to_string(),
        "KEY".to_string(),
        "/c/config.toml".to_string(),
    )
    .unwrap();
    assert_eq!(c._inner.store.base_path, "/srv/stores");
    assert_eq!(c._inner.store.default_store, "main");
    assert_eq!(c._inner.security.gpg_fingerprint, "KEY");
    assert_eq!(c.config_file_path, "/c/config.toml");
}

#[test]
fn relative_store_directory_is_made_absolute() {
    let c = Config::new(
        "some/relative/dir".to_string(),
        "main".to_string(),
        "KEY".to_string(),
        "/c/config.toml".to_string(),
    )
    .unwrap();
    let base = &c._inner.store.base_path;
    assert!(base.starts_with('/'));
    assert!(base.ends_with("/some/relative/dir"));
    let dotted = Config::new("/a/b/../c".to_string(), "m".to_string(), "K".to_string(), "/f".to_string()).unwrap();
    assert_eq!(dotted._inner.store.base_path, "/a/c");
}

#[test]
fn failed_absolutizing_is_reported() {
    let r = Config::from_absolutized(Err("gone".to_string()), "m".to_string(), "k".to_string(), "/f".to_string());
    match r {
        Err(FaError::IOError { message }) => assert_eq!(message, "gone"),
        other => panic!("unexpected {:?}", other),
    }
    let r = Config::from_absolutized(Ok(None), "m".to_string(), "k".to_string(), "/f".to_string());
    assert!(matches!(r, Err(FaError::UnexpectedNone)));
}

#[test]
fn replacing_the_default_store_keeps_the_rest() {
    let c = state().configuration.set_default_store("other".to_string());
    assert_eq!(c._inner.store.default_store, "other");
    assert_eq!(c._inner.store.base_path, "/home/me/stores");
}
