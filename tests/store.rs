use fa::credential::Credential;
use fa::error::FaError;
use fa::filter::{parse_filter, Filter};
use fa::store::Store;
use fa::transfer::ParsedCredential;

fn cred(user: &str, password: &str, tag: Option<&str>, site: Option<&str>) -> Credential {
    Credential::new(
        user.to_string(),
        password.to_string(),
        tag.map(|t| t.to_string()),
        site.map(|s| s.to_string()),
    )
}

fn empty_store() -> Store {
    Store::new(&"s".to_string(), "/base/s.fa".to_string(), false).unwrap()
}

fn users(found: &[Credential]) -> Vec<String> {
    found.iter().map(|c| c.user.clone()).collect()
}

fn row(username: &str, password: &str, url: Option<&str>) -> ParsedCredential {
    ParsedCredential {
        username: username.to_string(),
        password: password.to_string(),
        url: url.map(|u| u.to_string()),
    }
}

#[test]
fn new_store_is_empty() {
    let store = empty_store();
    assert_eq!(store.name, "s");
    assert_eq!(store.path, "/base/s.fa");
    assert!(store.data.is_empty());
}

#[test]
fn creating_over_an_existing_store_fails() {
    let r = Store::new(&"s".to_string(), "/base/s.fa".to_string(), true);
    match r {
        Err(FaError::AlreadyPresent { path }) => assert_eq!(path, "/base/s.fa"),
        other => panic!("unexpected {:?}", other),
    }
}

#[test]
fn load_keeps_credentials_in_order() {
    let store = Store::load(
        &"work".to_string(),
        "/b/work.fa".to_string(),
        vec![cred("a", "1", None, None), cred("b", "2", None, None)],
    );
    assert_eq!(store.name, "work");
    assert_eq!(users(&store.data), vec!["a", "b"]);
}

#[test]
fn file_path_joins_directory_name_and_extension() {
    let p = Store::get_file_path(&"personal".to_string(), &"/home/me/stores".to_string());
    assert_eq!(p, "/home/me/stores/personal.fa");
}

#[test]
fn adding_twice_is_rejected_and_leaves_the_store_alone() {
    let mut store = empty_store();
    assert!(store.add(cred("u", "p", None, None)).is_ok());
    assert_eq!(store.data.len(), 1);
    let second = store.add(cred("u", "p", Some("other"), None));
    assert!(matches!(second, Err(FaError::DuplicateCredential)));
    assert_eq!(store.data.len(), 1);
    assert_eq!(store.data[0].tag, None);
}

#[test]
fn same_user_with_other_password_is_no_duplicate() {
    let mut store = empty_store();
    assert!(store.add(cred("u", "p", None, None)).is_ok());
    assert!(store.add(cred("u", "P", None, None)).is_ok());
    assert!(store.add(cred("U", "p", None, None)).is_ok());
    assert_eq!(store.data.len(), 3);
}

#[test]
fn remove_takes_only_the_first_match() {
    let mut store = Store::load(
        &"s".to_string(),
        "/s.fa".to_string(),
        vec![
            cred("a", "1", Some("first"), None),
            cred("b", "2", None, None),
            cred("a", "1", Some("second"), None),
        ],
    );
    assert!(store.remove("a", "1"));
    assert_eq!(users(&store.data), vec!["b", "a"]);
    assert_eq!(store.data[1].tag, Some("second".to_string()));
}

#[test]
fn removing_a_missing_credential_is_no_error() {
    let mut store = Store::load(&"s".to_string(), "/s.fa".to_string(), vec![cred("a", "1", None, None)]);
    assert!(!store.remove("a", "2"));
    assert!(!store.remove("A", "1"));
    assert_eq!(store.data.len(), 1);
}

#[test]
fn position_and_contains() {
    let store = Store::load(
        &"s".to_string(),
        "/s.fa".to_string(),
        vec![cred("a", "1", None, None), cred("b", "2", None, None)],
    );
    assert_eq!(store.position("b", "2"), Some(1));
    assert_eq!(store.position("b", "3"), None);
    assert!(store.contains("a", "1"));
    assert!(!store.contains("c", "1"));
}

#[test]
fn search_ignores_case_of_query_and_user() {
    let store = Store::load(&"s".to_string(), "/s.fa".to_string(), vec![cred("JohnDoe", "pw", None, None)]);
    assert_eq!(users(&store.search("john", &None)), vec!["JohnDoe"]);
    assert_eq!(users(&store.search("johnd", &None)), vec!["JohnDoe"]);
    assert_eq!(users(&store.search("JOHN", &None)), vec!["JohnDoe"]);
    assert!(store.search("doe", &None).is_empty());
}

#[test]
fn search_keeps_store_order() {
    let store = Store::load(
        &"s".to_string(),
        "/s.fa".to_string(),
        vec![
            cred("alice", "1", None, None),
            cred("bob", "2", None, None),
            cred("Alfred", "3", None, None),
        ],
    );
    assert_eq!(users(&store.search("al", &None)), vec!["alice", "Alfred"]);
    assert_eq!(store.search("", &None).len(), 3);
}

#[test]
fn bogus_filter_is_rejected() {
    let r = parse_filter(&Some("bogus".to_string()));
    assert!(matches!(r, Err(FaError::UnexpectedFilterSyntax)));
    let r = parse_filter(&Some("colour/red".to_string()));
    assert!(matches!(r, Err(FaError::UnexpectedFilterSyntax)));
    let r = parse_filter(&Some("tag".to_string()));
    assert!(matches!(r, Err(FaError::UnexpectedFilterSyntax)));
}

#[test]
fn filters_are_read() {
    match parse_filter(&Some("tag/work".to_string())) {
        Ok(Some(Filter::Tag(v))) => assert_eq!(v, "work"),
        other => panic!("unexpected {:?}", other),
    }
    match parse_filter(&Some("site/example.com/login".to_string())) {
        Ok(Some(Filter::Site(v))) => assert_eq!(v, "example.com/login"),
        other => panic!("unexpected {:?}", other),
    }
    assert!(matches!(parse_filter(&None), Ok(None)));
}

#[test]
fn tag_filter_restricts_results() {
    let store = Store::load(
        &"s".to_string(),
        "/s.fa".to_string(),
        vec![
            cred("xa", "1", Some("work"), None),
            cred("xb", "2", Some("home"), None),
            cred("xc", "3", None, None),
            cred("xd", "4", Some("workshop"), None),
            cred("ya", "5", Some("work"), None),
        ],
    );
    let filter = parse_filter(&Some("tag/work".to_string())).unwrap();
    assert_eq!(users(&store.search("x", &filter)), vec!["xa", "xd"]);
}

#[test]
fn site_filter_is_case_sensitive_and_skips_missing_sites() {
    let store = Store::load(
        &"s".to_string(),
        "/s.fa".to_string(),
        vec![
            cred("a", "1", None, Some("github.com")),
            cred("b", "2", None, Some("GitHub.com")),
            cred("c", "3", None, None),
        ],
    );
    let filter = Some(Filter::Site("git".to_string()));
    assert_eq!(users(&store.search("", &filter)), vec!["a"]);
    let dash = Some(Filter::Site("-".to_string()));
    assert!(store.search("", &dash).is_empty());
}

#[test]
fn empty_filter_value_admits_every_credential() {
    let store = Store::load(
        &"s".to_string(),
        "/s.fa".to_string(),
        vec![cred("a", "1", None, None), cred("b", "2", Some("t"), None)],
    );
    let filter = parse_filter(&Some("tag/".to_string())).unwrap();
    assert_eq!(users(&store.search("", &filter)), vec!["a", "b"]);
}

#[test]
fn import_maps_url_to_site_and_sets_no_tag() {
    let mut store = empty_store();
    let n = store.import(&vec![row("a", "1", Some("https://a.example")), row("b", "2", None)]);
    assert_eq!(n, 2);
    assert_eq!(store.data[0].site, Some("https://a.example".to_string()));
    assert_eq!(store.data[0].tag, None);
    assert_eq!(store.data[1].site, None);
}

#[test]
fn importing_the_same_rows_twice_adds_nothing_the_second_time() {
    let mut store = Store::load(&"s".to_string(), "/s.fa".to_string(), vec![cred("old", "0", None, None)]);
    let rows = vec![row("a", "1", None), row("old", "0", None), row("b", "2", Some("b.example"))];
    assert_eq!(store.import(&rows), 2);
    assert_eq!(store.data.len(), 3);
    assert_eq!(store.import(&rows), 0);
    assert_eq!(store.data.len(), 3);
    assert_eq!(users(&store.data), vec!["old", "a", "b"]);
}

#[test]
fn import_skips_repeated_rows_within_one_file() {
    let mut store = empty_store();
    let n = store.import(&vec![row("a", "1", Some("first")), row("a", "1", Some("second"))]);
    assert_eq!(n, 1);
    assert_eq!(store.data[0].site, Some("first".to_string()));
}

#[test]
fn export_writes_header_then_rows() {
    let store = Store::load(
        &"s".to_string(),
        "/s.fa".to_string(),
        vec![cred("a", "1", Some("t"), Some("a.example")), cred("b", "2", Some("u"), None)],
    );
    let records = store.export_records();
    assert_eq!(
        records,
        vec![
            vec!["username".to_string(), "password".to_string(), "url".to_string()],
            vec!["a".to_string(), "1".to_string(), "a.example".to_string()],
            vec!["b".to_string(), "2".to_string(), String::new()],
        ]
    );
}

#[test]
fn export_of_an_empty_store_is_the_header_alone() {
    assert_eq!(empty_store().export_records().len(), 1);
}

#[test]
fn credential_copy_and_identity() {
    let c = cred("u", "p", Some("t"), None);
    let d = c.duplicate();
    assert_eq!(d.user, "u");
    assert_eq!(d.tag, Some("t".to_string()));
    assert!(c.is_identified_by("u", "p"));
    assert!(!c.is_identified_by("u", "q"));
}
