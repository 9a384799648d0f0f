//! Release versions. A parsed semantic version is kept as its canonical
//! text together with the two derived forms the packaging targets need: the
//! filename form (`-` rewritten to `.`) and the embedded-field form (`-`
//! rewritten to `~`). Both forms are derived once, from one parse.

use crate::bytes::{replace_byte, replaced};
use vstd::prelude::*;

verus! {

/// The byte `-`.
pub const DASH: u8 = 45;

/// The byte `.`.
pub const DOT: u8 = 46;

/// The byte `~`.
pub const TILDE: u8 = 126;

/// The byte `v`.
pub const LOWER_V: u8 = 118;

/// The canonical text of the semantic version that `semver::Version::parse`
/// reads out of `text`, or `None` where the text is not a semantic version.
pub uninterp spec fn semver_canon(text: Seq<u8>) -> Option<Seq<u8>>;

/// Relies on `semver::Version::parse` and the `Display` form of the parsed
/// version: the canonical rendering `major.minor.patch[-pre][+build]`, a
/// function of the input text alone.
#[verifier::external_body]
fn semver_canonical(text: &[u8]) -> (r: Option<Vec<u8>>)
    ensures
        r is Some <==> semver_canon(text@) is Some,
        r is Some ==> r.unwrap()@ == semver_canon(text@).unwrap(),
{
    let s = std::str::from_utf8(text).ok()?;
    let v = semver::Version::parse(s).ok()?;
    Some(v.to_string().into_bytes())
}

/// `text` with every leading `v` removed.
pub open spec fn stripped_v(text: Seq<u8>) -> Seq<u8>
    decreases text.len(),
{
    if text.len() > 0 && text[0] == LOWER_V {
        stripped_v(text.drop_first())
    } else {
        text
    }
}

/// Removes every leading `v` from `text`, as release tags prefix one.
fn strip_leading_v(text: &[u8]) -> (r: Vec<u8>)
    ensures
        r@ == stripped_v(text@),
{
    let n: usize = text.len();
    let mut i: usize = 0;
    assert(text@.skip(0) =~= text@);
    while i < n && text[i] == LOWER_V
        invariant
            n == text@.len(),
            i <= n,
            stripped_v(text@) == stripped_v(text@.skip(i as int)),
        decreases n - i,
    {
        assert(text@.skip(i as int).drop_first() =~= text@.skip(i + 1));
        i = i + 1;
    }
    assert(stripped_v(text@.skip(i as int)) == text@.skip(i as int));
    let r = vstd::slice::slice_to_vec(vstd::slice::slice_subrange(text, i, n));
    assert(r@ =~= text@.skip(i as int));
    r
}

/// A release version: the canonical semantic-version text and the two
/// derived forms used across every manifest of one run.
pub struct ReleaseVersion {
    canonical: Vec<u8>,
    file_form: Vec<u8>,
    field_form: Vec<u8>,
}

impl ReleaseVersion {
    /// The canonical semantic-version text.
    pub closed spec fn canonical_view(&self) -> Seq<u8> {
        self.canonical@
    }

    /// The filename form: `-` rewritten to `.`.
    pub closed spec fn file_form_view(&self) -> Seq<u8> {
        self.file_form@
    }

    /// The embedded-field form: `-` rewritten to `~`.
    pub closed spec fn field_form_view(&self) -> Seq<u8> {
        self.field_form@
    }

    /// Both derived forms are the rewriting of the one canonical text.
    pub open spec fn wf(&self) -> bool {
        &&& self.file_form_view() == replaced(self.canonical_view(), DASH, DOT)
        &&& self.field_form_view() == replaced(self.canonical_view(), DASH, TILDE)
    }

    /// Parses a release version. A leading `v` tag prefix is removed, the
    /// rest must be a semantic version; both derived forms come from that
    /// one parse.
    pub fn parse(input: &[u8]) -> (r: Option<ReleaseVersion>)
        ensures
            r is Some <==> semver_canon(stripped_v(input@)) is Some,
            r is Some ==> r.unwrap().wf() && r.unwrap().canonical_view() == semver_canon(
                stripped_v(input@),
            ).unwrap(),
    {
        let trimmed = strip_leading_v(input);
        match semver_canonical(trimmed.as_slice()) {
            Some(canonical) => {
                let file_form = replace_byte(canonical.as_slice(), DASH, DOT);
                let field_form = replace_byte(canonical.as_slice(), DASH, TILDE);
                Some(ReleaseVersion { canonical, file_form, field_form })
            },
            None => None,
        }
    }

    /// The canonical semantic-version text.
    pub fn canonical(&self) -> (r: &Vec<u8>)
        ensures
            r@ == self.canonical_view(),
    {
        &self.canonical
    }

    /// The filename form: `-` rewritten to `.`.
    pub fn file_form(&self) -> (r: &Vec<u8>)
        ensures
            r@ == self.file_form_view(),
    {
        &self.file_form
    }

    /// The embedded-field form: `-` rewritten to `~`.
    pub fn field_form(&self) -> (r: &Vec<u8>)
        ensures
            r@ == self.field_form_view(),
    {
        &self.field_form
    }
}

/// Where the canonical text holds the pre-release separator `-`, the
/// filename form holds `.` and the embedded-field form holds `~`; every
/// other byte agrees with the canonical text. Both forms are the same
/// length as the one canonical text they were derived from.
pub proof fn lemma_forms_follow_canonical(v: ReleaseVersion)
    requires
        v.wf(),
    ensures
        v.file_form_view().len() == v.canonical_view().len(),
        v.field_form_view().len() == v.canonical_view().len(),
        forall|i: int|
            0 <= i < v.canonical_view().len() ==> #[trigger] v.canonical_view()[i] == DASH
                ==> v.file_form_view()[i] == DOT && v.field_form_view()[i] == TILDE,
        forall|i: int|
            0 <= i < v.canonical_view().len() ==> #[trigger] v.canonical_view()[i] != DASH
                ==> v.file_form_view()[i] == v.canonical_view()[i] && v.field_form_view()[i]
                == v.canonical_view()[i],
{
}

} // verus!
