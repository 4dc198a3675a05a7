use debpool::name::{parse, NameError};
use debpool::pool::{bucket, plan_entry, resolve};

#[test]
fn binary_goes_under_its_architecture() {
    let d = resolve(&parse("foo_1.0_amd64.deb").unwrap(), "xenial");
    assert_eq!(d.directory, "pool/xenial/main/binary-amd64/f/foo");
    assert_eq!(d.filename, "foo_1.0_amd64.deb");
    assert_eq!(d.file_path(), "pool/xenial/main/binary-amd64/f/foo/foo_1.0_amd64.deb");
}

#[test]
fn source_description_goes_under_source() {
    let d = resolve(&parse("bar_2.3.dsc").unwrap(), "bionic");
    assert_eq!(d.directory, "pool/bionic/main/source/b/bar");
    assert_eq!(d.file_path(), "pool/bionic/main/source/b/bar/bar_2.3.dsc");
}

#[test]
fn source_tarball_goes_under_source() {
    let d = resolve(&parse("bar_2.3.orig.tar.xz").unwrap(), "bionic");
    assert_eq!(d.directory, "pool/bionic/main/source/b/bar");
    assert_eq!(d.file_path(), "pool/bionic/main/source/b/bar/bar_2.3.orig.tar.xz");
}

#[test]
fn debug_symbols_go_with_their_package() {
    let d = resolve(&parse("foo-dbgsym_1.0_amd64.deb").unwrap(), "xenial");
    assert_eq!(d.directory, "pool/xenial/main/binary-amd64/f/foo");
    assert_eq!(d.filename, "foo-dbgsym_1.0_amd64.deb");
    assert_eq!(
        d.file_path(),
        "pool/xenial/main/binary-amd64/f/foo/foo-dbgsym_1.0_amd64.deb"
    );
}

#[test]
fn empty_package_has_empty_bucket() {
    let d = resolve(&parse("_1.0_amd64.deb").unwrap(), "xenial");
    assert_eq!(d.directory, "pool/xenial/main/binary-amd64//");
    assert_eq!(bucket(""), "");
    assert_eq!(bucket("zlib"), "z");
    assert_eq!(bucket("\u{e9}t\u{e9}"), "\u{e9}");
}

#[test]
fn archive_is_taken_as_given() {
    let d = resolve(&parse("foo_1_all.deb").unwrap(), "");
    assert_eq!(d.directory, "pool//main/binary-all/f/foo");
    let d = resolve(&parse("foo_1_all.deb").unwrap(), "a/b");
    assert_eq!(d.directory, "pool/a/b/main/binary-all/f/foo");
}

#[test]
fn destination_under_a_root() {
    let d = resolve(&parse("foo_1.0_amd64.deb").unwrap(), "xenial").under_root("repo");
    assert_eq!(d.directory, "repo/pool/xenial/main/binary-amd64/f/foo");
    assert_eq!(d.filename, "foo_1.0_amd64.deb");
    assert_eq!(
        d.file_path(),
        "repo/pool/xenial/main/binary-amd64/f/foo/foo_1.0_amd64.deb"
    );
}

#[test]
fn plan_skips_directories_and_unreadable_names() {
    assert!(matches!(plan_entry(true, Some("foo_1.0_amd64.deb"), "xenial"), Ok(None)));
    assert!(matches!(plan_entry(true, Some("nounderscore"), "xenial"), Ok(None)));
    assert!(matches!(plan_entry(true, None, "xenial"), Ok(None)));
    assert!(matches!(plan_entry(false, None, "xenial"), Ok(None)));
}

#[test]
fn plan_places_files() {
    let d = plan_entry(false, Some("foo_1.0_i386.deb"), "xenial").unwrap().unwrap();
    assert_eq!(d.directory, "pool/xenial/main/binary-i386/f/foo");
    assert_eq!(d.filename, "foo_1.0_i386.deb");
}

#[test]
fn plan_refuses_malformed_names() {
    assert!(matches!(
        plan_entry(false, Some("README"), "xenial"),
        Err(NameError::MalformedName)
    ));
}
