//! Compares the version a package manifest declares with the release
//! version the run was started for.

use crate::version::ReleaseVersion;
use vstd::prelude::*;

verus! {

/// The `package.version` string that a TOML manifest text declares, or
/// `None` where the text is not TOML or has no such string.
pub uninterp spec fn toml_package_version(text: Seq<u8>) -> Option<Seq<u8>>;

/// Relies on `toml::from_str` reading a TOML document into a value tree
/// and on `Value::get` / `Value::as_str` picking the `package.version`
/// string out of it: the declared version is a function of the text alone.
#[verifier::external_body]
fn declared_version_raw(text: &[u8]) -> (r: Option<Vec<u8>>)
    ensures
        r is Some <==> toml_package_version(text@) is Some,
        r is Some ==> r.unwrap()@ == toml_package_version(text@).unwrap(),
{
    let s = std::str::from_utf8(text).ok()?;
    let value: toml::Value = toml::from_str(s).ok()?;
    let version = value.get("package")?.get("version")?.as_str()?;
    Some(version.as_bytes().to_vec())
}

/// The outcome of the version comparison.
#[derive(Debug)]
pub enum VersionCheck {
    /// The manifest declares exactly the release version.
    Accepted,
    /// The manifest declares another version, carried here for display.
    Mismatch(Vec<u8>),
    /// The manifest has no readable `package.version` entry.
    NoDeclaredVersion,
}

/// Compares the version that `manifest_text` declares with the release
/// version: accepted exactly where the manifest declares the canonical
/// text of the release version.
pub fn check_version(manifest_text: &[u8], expected: &ReleaseVersion) -> (r: VersionCheck)
    ensures
        r is Accepted <==> toml_package_version(manifest_text@) == Some(
            expected.canonical_view(),
        ),
        r is NoDeclaredVersion <==> toml_package_version(manifest_text@) is None,
        r matches VersionCheck::Mismatch(d) ==> toml_package_version(manifest_text@) == Some(d@)
            && d@ != expected.canonical_view(),
{
    match declared_version_raw(manifest_text) {
        Some(declared) => {
            if crate::bytes::bytes_eq(declared.as_slice(), expected.canonical().as_slice()) {
                VersionCheck::Accepted
            } else {
                VersionCheck::Mismatch(declared)
            }
        },
        None => VersionCheck::NoDeclaredVersion,
    }
}

} // verus!
