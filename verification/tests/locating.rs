use debpool::locate::{is_deb, match_deb, position_of, try_match_deb, FoundEntry};
use debpool::name::NameError;

fn file(name: &str, path: &str) -> FoundEntry {
    FoundEntry { is_dir: false, file_name: Some(name.to_string()), path: Some(path.to_string()) }
}

fn directory(name: &str, path: &str) -> FoundEntry {
    FoundEntry { is_dir: true, file_name: Some(name.to_string()), path: Some(path.to_string()) }
}

fn wanted() -> Vec<String> {
    vec!["foo".to_string(), "bar".to_string()]
}

#[test]
fn match_finds_wanted_package() {
    let e = file("bar_1.0_amd64.deb", "pool/bar_1.0_amd64.deb");
    assert_eq!(match_deb(&e, &wanted()), Some(("pool/bar_1.0_amd64.deb".to_string(), 1)));
    let e = file("foo_1.0_amd64.deb", "x/foo_1.0_amd64.deb");
    assert_eq!(match_deb(&e, &wanted()), Some(("x/foo_1.0_amd64.deb".to_string(), 0)));
}

#[test]
fn match_passes_over_other_packages() {
    let e = file("baz_1.0_amd64.deb", "pool/baz_1.0_amd64.deb");
    assert_eq!(match_deb(&e, &wanted()), None);
    assert_eq!(match_deb(&e, &[]), None);
}

#[test]
fn match_passes_over_directories() {
    let e = directory("bar_1.0_amd64.deb", "pool/bar_1.0_amd64.deb");
    assert_eq!(match_deb(&e, &wanted()), None);
    let e = directory("pool", "pool");
    assert_eq!(match_deb(&e, &wanted()), None);
    assert_eq!(try_match_deb(&e, &wanted()), Ok(None));
}

#[test]
fn match_needs_name_and_path_as_text() {
    let e = FoundEntry { is_dir: false, file_name: None, path: Some("p".to_string()) };
    assert_eq!(match_deb(&e, &wanted()), None);
    let e = FoundEntry {
        is_dir: false,
        file_name: Some("bar_1.0_amd64.deb".to_string()),
        path: None,
    };
    assert_eq!(match_deb(&e, &wanted()), None);
}

#[test]
fn match_takes_first_of_equal_names() {
    let packages = vec!["bar".to_string(), "foo".to_string(), "bar".to_string()];
    let e = file("bar_2_all.deb", "bar_2_all.deb");
    assert_eq!(match_deb(&e, &packages), Some(("bar_2_all.deb".to_string(), 0)));
    assert_eq!(position_of(&packages, "bar"), Some(0));
    assert_eq!(position_of(&packages, "foo"), Some(1));
    assert_eq!(position_of(&packages, "ba"), None);
}

#[test]
fn match_compares_whole_package_name() {
    let e = file("foo-dbgsym_1.0_amd64.deb", "foo-dbgsym_1.0_amd64.deb");
    assert_eq!(match_deb(&e, &wanted()), None);
}

#[test]
fn try_match_refuses_malformed_names() {
    let e = file("bar.deb", "pool/bar.deb");
    assert_eq!(try_match_deb(&e, &wanted()), Err(NameError::MalformedName));
    assert_eq!(try_match_deb(&e, &[]), Err(NameError::MalformedName));
    let e = file("bar_1.0_amd64.deb", "pool/bar_1.0_amd64.deb");
    assert_eq!(
        try_match_deb(&e, &wanted()),
        Ok(Some(("pool/bar_1.0_amd64.deb".to_string(), 1)))
    );
}

#[test]
fn walk_keeps_directories_and_debs() {
    assert!(is_deb(true, Some("a")));
    assert!(is_deb(true, None));
    assert!(is_deb(false, Some("b.deb")));
    assert!(is_deb(false, Some("x.deb")));
    assert!(is_deb(false, Some(".deb")));
    assert!(!is_deb(false, Some("c.txt")));
    assert!(!is_deb(false, Some("b.deb.txt")));
    assert!(!is_deb(false, Some("deb")));
    assert!(!is_deb(false, None));
}

#[test]
fn walk_of_small_tree_yields_the_debs() {
    let tree = vec![
        ("a", true, "a"),
        ("b.deb", false, "a/b.deb"),
        ("c.txt", false, "a/c.txt"),
        ("x.deb", false, "x.deb"),
    ];
    let mut kept: Vec<&str> = Vec::new();
    let mut descended: Vec<&str> = Vec::new();
    for (name, is_dir, path) in tree {
        if is_deb(is_dir, Some(name)) {
            if is_dir {
                descended.push(path);
            } else {
                kept.push(path);
            }
        }
    }
    assert_eq!(kept, vec!["a/b.deb", "x.deb"]);
    assert_eq!(descended, vec!["a"]);
}
