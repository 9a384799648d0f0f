use package_publisher::checkver::{check_version, VersionCheck};
use package_publisher::version::ReleaseVersion;

#[test]
fn matching_manifest_version_is_accepted() {
    let expected = ReleaseVersion::parse(b"2.0.0").expect("valid version");
    let manifest = b"[package]\nname = \"exogress\"\nversion = \"2.0.0\"\n";
    assert!(matches!(check_version(manifest, &expected), VersionCheck::Accepted));
}

#[test]
fn mismatching_manifest_version_reports_both() {
    let expected = ReleaseVersion::parse(b"2.0.0").expect("valid version");
    let manifest = b"[package]\nname = \"exogress\"\nversion = \"1.9.9\"\n";
    match check_version(manifest, &expected) {
        VersionCheck::Mismatch(declared) => assert_eq!(declared.as_slice(), b"1.9.9"),
        other => panic!("expected a mismatch, got {:?}", other),
    }
}

#[test]
fn manifest_without_version_entry() {
    let expected = ReleaseVersion::parse(b"2.0.0").expect("valid version");
    assert!(matches!(
        check_version(b"[package]\nname = \"exogress\"\n", &expected),
        VersionCheck::NoDeclaredVersion
    ));
    assert!(matches!(
        check_version(b"not toml at all {{", &expected),
        VersionCheck::NoDeclaredVersion
    ));
}
