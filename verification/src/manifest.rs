//! Packaging conventions: the fixed architecture set, the deterministic
//! artifact names and URLs derived from a release version, and the variable
//! mappings the two manifest templates are rendered under.

use crate::bytes::{append_bytes, append_lit, lit, lit_bytes};
use crate::errors::PublishError;
use crate::template::{mustache_accepts, mustache_render, plain_tags, CompiledTemplate};
use crate::version::ReleaseVersion;
use vstd::prelude::*;

verus! {

/// How many architectures the package index serves.
pub const ARCH_COUNT: usize = 4;

/// The architecture names the package index serves, in fetch order.
pub open spec fn arch_names() -> Seq<Seq<u8>> {
    seq![lit("amd64"), lit("arm64"), lit("armel"), lit("armhf")]
}

/// The architecture name at position `i` of the fetch order.
pub fn arch_name(i: usize) -> (r: Vec<u8>)
    requires
        i < ARCH_COUNT,
    ensures
        r@ == arch_names()[i as int],
{
    if i == 0 {
        lit_bytes("amd64")
    } else if i == 1 {
        lit_bytes("arm64")
    } else if i == 2 {
        lit_bytes("armel")
    } else {
        lit_bytes("armhf")
    }
}

/// The four architecture names, in fetch order.
pub fn deb_archs() -> (r: Vec<Vec<u8>>)
    ensures
        r@.len() == arch_names().len(),
        forall|i: int| 0 <= i < r@.len() ==> (#[trigger] r@[i])@ == arch_names()[i],
{
    let mut r: Vec<Vec<u8>> = Vec::new();
    r.push(lit_bytes("amd64"));
    r.push(lit_bytes("arm64"));
    r.push(lit_bytes("armel"));
    r.push(lit_bytes("armhf"));
    r
}

/// The URL of the source archive for a release.
pub open spec fn archive_url_of(v: ReleaseVersion) -> Seq<u8> {
    lit("https://github.com/exogress/cli/archive/refs/tags/v") + v.canonical_view() + lit(
        ".tar.gz",
    )
}

/// Derives the source-archive URL of the release.
pub fn archive_url(v: &ReleaseVersion) -> (r: Vec<u8>)
    ensures
        r@ == archive_url_of(*v),
{
    let mut r = lit_bytes("https://github.com/exogress/cli/archive/refs/tags/v");
    append_bytes(&mut r, v.canonical().as_slice());
    append_lit(&mut r, ".tar.gz");
    r
}

/// The package filename for one architecture: the filename form of the
/// version, not the canonical text, names the file.
pub open spec fn deb_filename_of(v: ReleaseVersion, arch: Seq<u8>) -> Seq<u8> {
    lit("exogress_") + v.file_form_view() + lit("_") + arch + lit(".deb")
}

/// Derives the package filename for one architecture.
pub fn deb_filename(v: &ReleaseVersion, arch: &[u8]) -> (r: Vec<u8>)
    ensures
        r@ == deb_filename_of(*v, arch@),
{
    let mut r = lit_bytes("exogress_");
    append_bytes(&mut r, v.file_form().as_slice());
    append_lit(&mut r, "_");
    append_bytes(&mut r, arch);
    append_lit(&mut r, ".deb");
    r
}

/// The download URL of the package for one architecture.
pub open spec fn deb_download_url_of(v: ReleaseVersion, arch: Seq<u8>) -> Seq<u8> {
    lit("https://github.com/exogress/cli/releases/download/v") + v.canonical_view() + lit("/")
        + deb_filename_of(v, arch)
}

/// Derives the download URL of the package for one architecture.
pub fn deb_download_url(v: &ReleaseVersion, arch: &[u8]) -> (r: Vec<u8>)
    ensures
        r@ == deb_download_url_of(*v, arch@),
{
    let mut r = lit_bytes("https://github.com/exogress/cli/releases/download/v");
    append_bytes(&mut r, v.canonical().as_slice());
    append_lit(&mut r, "/");
    let name = deb_filename(v, arch);
    append_bytes(&mut r, name.as_slice());
    r
}

/// The public mirror URL the package for one architecture must become
/// reachable at.
pub open spec fn propagation_url_of(v: ReleaseVersion, arch: Seq<u8>) -> Seq<u8> {
    lit("https://apt.exogress.com/") + deb_filename_of(v, arch)
}

/// Derives the public mirror URL for one architecture.
pub fn propagation_url(v: &ReleaseVersion, arch: &[u8]) -> (r: Vec<u8>)
    ensures
        r@ == propagation_url_of(*v, arch@),
{
    let mut r = lit_bytes("https://apt.exogress.com/");
    let name = deb_filename(v, arch);
    append_bytes(&mut r, name.as_slice());
    r
}

/// The variable mapping of the tap formula: the source-archive URL, the
/// canonical version and the archive digest.
pub open spec fn formula_vars_of(v: ReleaseVersion, url: Seq<u8>, digest: Seq<u8>) -> Seq<
    (Seq<u8>, Seq<u8>),
> {
    seq![
        (lit("MACOS_URL"), url),
        (lit("VERSION"), v.canonical_view()),
        (lit("MACOS_SHA256"), digest),
    ]
}

/// Builds the variable mapping of the tap formula.
pub fn formula_vars(v: &ReleaseVersion, url: &[u8], digest: &[u8]) -> (r: Vec<(Vec<u8>, Vec<u8>)>)
    ensures
        crate::template::vars_view(r@) == formula_vars_of(*v, url@, digest@),
{
    let mut r: Vec<(Vec<u8>, Vec<u8>)> = Vec::new();
    r.push((lit_bytes("MACOS_URL"), vstd::slice::slice_to_vec(url)));
    r.push((lit_bytes("VERSION"), v.canonical().clone()));
    r.push((lit_bytes("MACOS_SHA256"), vstd::slice::slice_to_vec(digest)));
    assert(crate::template::vars_view(r@) =~= formula_vars_of(*v, url@, digest@));
    r
}

/// The variable mapping of the container build file: the embedded-field
/// form of the version and the parent image reference.
pub open spec fn dockerfile_vars_of(v: ReleaseVersion, parent: Seq<u8>) -> Seq<
    (Seq<u8>, Seq<u8>),
> {
    seq![(lit("DEB_VERSION"), v.field_form_view()), (lit("PARENT"), parent)]
}

/// Builds the variable mapping of the container build file.
pub fn dockerfile_vars(v: &ReleaseVersion, parent: &[u8]) -> (r: Vec<(Vec<u8>, Vec<u8>)>)
    ensures
        crate::template::vars_view(r@) == dockerfile_vars_of(*v, parent@),
{
    let mut r: Vec<(Vec<u8>, Vec<u8>)> = Vec::new();
    r.push((lit_bytes("DEB_VERSION"), v.field_form().clone()));
    r.push((lit_bytes("PARENT"), vstd::slice::slice_to_vec(parent)));
    assert(crate::template::vars_view(r@) =~= dockerfile_vars_of(*v, parent@));
    r
}

/// The commit message of the tap update: the canonical version, a colon,
/// and the operator's message.
pub open spec fn commit_message_of(v: ReleaseVersion, message: Seq<u8>) -> Seq<u8> {
    v.canonical_view() + lit(": ") + message
}

/// Builds the commit message of the tap update.
pub fn commit_message(v: &ReleaseVersion, message: &[u8]) -> (r: Vec<u8>)
    ensures
        r@ == commit_message_of(*v, message@),
{
    let mut r = v.canonical().clone();
    append_lit(&mut r, ": ");
    append_bytes(&mut r, message);
    r
}

/// Renders the container build file: the template, under the
/// embedded-field form of the version and the parent image reference.
pub fn render_dockerfile(template: &[u8], v: &ReleaseVersion, parent: &[u8]) -> (r: Result<
    Vec<u8>,
    PublishError,
>)
    ensures
        r is Ok ==> plain_tags(template@),
        plain_tags(template@) ==> {
            &&& (r is Ok <==> mustache_accepts(template@))
            &&& (r matches Ok(out) ==> out@ == mustache_render(
                template@,
                dockerfile_vars_of(*v, parent@),
            ))
        },
        r matches Err(e) ==> e == PublishError::TemplateSyntaxError,
{
    let compiled = CompiledTemplate::compile(template)?;
    let vars = dockerfile_vars(v, parent);
    compiled.render(&vars)
}

/// The architecture set is exactly `{amd64, arm64, armel, armhf}`: the
/// fetch order lists the four names, each exactly once.
pub proof fn lemma_arch_set_exact()
    ensures
        arch_names().len() == 4,
        arch_names().to_set() =~= set![lit("amd64"), lit("arm64"), lit("armel"), lit("armhf")],
        forall|i: int, j: int|
            0 <= i < 4 && 0 <= j < 4 && i != j ==> #[trigger] arch_names()[i]
                != #[trigger] arch_names()[j],
{
    reveal_strlit("amd64");
    reveal_strlit("arm64");
    reveal_strlit("armel");
    reveal_strlit("armhf");
    crate::bytes::lemma_ascii_lit("amd64");
    crate::bytes::lemma_ascii_lit("arm64");
    crate::bytes::lemma_ascii_lit("armel");
    crate::bytes::lemma_ascii_lit("armhf");
    assert(lit("amd64")[1] != lit("arm64")[1]);
    assert(lit("amd64")[1] != lit("armel")[1]);
    assert(lit("amd64")[1] != lit("armhf")[1]);
    assert(lit("arm64")[3] != lit("armel")[3]);
    assert(lit("arm64")[3] != lit("armhf")[3]);
    assert(lit("armel")[3] != lit("armhf")[3]);
}

} // verus!
