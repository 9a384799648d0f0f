use package_publisher::version::ReleaseVersion;

#[test]
fn pre_release_version_derives_both_forms() {
    let v = ReleaseVersion::parse(b"1.2.3-beta.1").expect("valid version");
    assert_eq!(v.canonical().as_slice(), b"1.2.3-beta.1");
    assert_eq!(v.file_form().as_slice(), b"1.2.3.beta.1");
    assert_eq!(v.field_form().as_slice(), b"1.2.3~beta.1");
}

#[test]
fn plain_version_forms_are_identical() {
    let v = ReleaseVersion::parse(b"1.2.3").expect("valid version");
    assert_eq!(v.canonical().as_slice(), b"1.2.3");
    assert_eq!(v.file_form().as_slice(), b"1.2.3");
    assert_eq!(v.field_form().as_slice(), b"1.2.3");
}

#[test]
fn leading_tag_prefix_is_stripped() {
    let v = ReleaseVersion::parse(b"v1.2.3").expect("valid version");
    assert_eq!(v.canonical().as_slice(), b"1.2.3");
}

#[test]
fn build_metadata_is_kept_in_the_canonical_text() {
    let v = ReleaseVersion::parse(b"1.2.3-rc.1+build.5").expect("valid version");
    assert_eq!(v.canonical().as_slice(), b"1.2.3-rc.1+build.5");
    assert_eq!(v.file_form().as_slice(), b"1.2.3.rc.1+build.5");
    assert_eq!(v.field_form().as_slice(), b"1.2.3~rc.1+build.5");
}

#[test]
fn invalid_versions_are_rejected() {
    assert!(ReleaseVersion::parse(b"1.2").is_none());
    assert!(ReleaseVersion::parse(b"not a version").is_none());
    assert!(ReleaseVersion::parse(b"1.0.01").is_none());
    assert!(ReleaseVersion::parse(b"").is_none());
}
