use package_publisher::manifest::{
    archive_url, commit_message, deb_archs, deb_download_url, deb_filename, dockerfile_vars,
    formula_vars, propagation_url, render_dockerfile,
};
use package_publisher::version::ReleaseVersion;

#[test]
fn architecture_set_is_exactly_the_four_debian_targets() {
    let archs = deb_archs();
    let names: Vec<&[u8]> = archs.iter().map(|a| a.as_slice()).collect();
    assert_eq!(names, vec![&b"amd64"[..], b"arm64", b"armel", b"armhf"]);
}

#[test]
fn archive_url_embeds_the_canonical_version() {
    let v = ReleaseVersion::parse(b"1.2.3").expect("valid version");
    assert_eq!(
        archive_url(&v).as_slice(),
        b"https://github.com/exogress/cli/archive/refs/tags/v1.2.3.tar.gz"
    );
}

#[test]
fn package_names_use_the_filename_form() {
    let v = ReleaseVersion::parse(b"1.2.3-beta.1").expect("valid version");
    assert_eq!(
        deb_filename(&v, b"amd64").as_slice(),
        b"exogress_1.2.3.beta.1_amd64.deb"
    );
    assert_eq!(
        deb_download_url(&v, b"amd64").as_slice(),
        b"https://github.com/exogress/cli/releases/download/v1.2.3-beta.1/exogress_1.2.3.beta.1_amd64.deb"
            as &[u8]
    );
    assert_eq!(
        propagation_url(&v, b"armhf").as_slice(),
        b"https://apt.exogress.com/exogress_1.2.3.beta.1_armhf.deb"
    );
}

#[test]
fn formula_variables_carry_version_url_and_digest() {
    let v = ReleaseVersion::parse(b"1.2.3").expect("valid version");
    let vars = formula_vars(&v, b"https://example.invalid/a.tar.gz", b"abc123");
    let pairs: Vec<(&[u8], &[u8])> =
        vars.iter().map(|p| (p.0.as_slice(), p.1.as_slice())).collect();
    assert_eq!(
        pairs,
        vec![
            (&b"MACOS_URL"[..], &b"https://example.invalid/a.tar.gz"[..]),
            (b"VERSION", b"1.2.3"),
            (b"MACOS_SHA256", b"abc123"),
        ]
    );
}

#[test]
fn dockerfile_variables_carry_field_form_and_parent() {
    let v = ReleaseVersion::parse(b"1.2.3-beta.1").expect("valid version");
    let vars = dockerfile_vars(&v, b"debian:buster");
    let pairs: Vec<(&[u8], &[u8])> =
        vars.iter().map(|p| (p.0.as_slice(), p.1.as_slice())).collect();
    assert_eq!(
        pairs,
        vec![(&b"DEB_VERSION"[..], &b"1.2.3~beta.1"[..]), (b"PARENT", b"debian:buster")]
    );
}

#[test]
fn commit_message_joins_version_and_operator_text() {
    let v = ReleaseVersion::parse(b"1.2.3").expect("valid version");
    assert_eq!(commit_message(&v, b"release notes").as_slice(), b"1.2.3: release notes");
}

#[test]
fn dockerfile_renders_with_field_form() {
    let v = ReleaseVersion::parse(b"1.2.3-beta.1").expect("valid version");
    let template = b"FROM {{PARENT}}\nENV EXOGRESS_VERSION {{DEB_VERSION}}\n";
    let out = render_dockerfile(template, &v, b"debian:buster").expect("renders");
    assert_eq!(
        out.as_slice(),
        b"FROM debian:buster\nENV EXOGRESS_VERSION 1.2.3~beta.1\n"
    );
}
