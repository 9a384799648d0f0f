//! Manifest templates. A compiled template is kept with its source text;
//! rendering substitutes a flat byte-string variable mapping. For templates
//! whose tags are plain — no partial tag, no set-delimiter tag, and a
//! letter or digit inside every tag — the engine consults nothing but the
//! template text and the variables and refuses nothing, so rendering is a
//! total function of the two; unresolved variable references render as
//! empty text.

use crate::errors::PublishError;
use vstd::prelude::*;

verus! {

/// The byte `{`.
pub const OPEN_BRACE: u8 = 123;

/// The byte `}`.
pub const CLOSE_BRACE: u8 = 125;

/// The byte `>`.
pub const GREATER: u8 = 62;

/// The byte `=`.
pub const EQUALS: u8 = 61;

/// Whether `i` opens a tag: it carries `{{`.
pub open spec fn tag_open_at(tpl: Seq<u8>, i: int) -> bool {
    0 <= i && i + 1 < tpl.len() && tpl[i] == OPEN_BRACE && tpl[i + 1] == OPEN_BRACE
}

/// Whether `j` carries the first `}}` after the tag opened at `i`.
pub open spec fn tag_close_from(tpl: Seq<u8>, i: int, j: int) -> bool {
    &&& i + 2 <= j
    &&& j + 1 < tpl.len()
    &&& tpl[j] == CLOSE_BRACE && tpl[j + 1] == CLOSE_BRACE
    &&& forall|k: int|
        i + 2 <= k < j ==> !(#[trigger] tpl[k] == CLOSE_BRACE && tpl[k + 1] == CLOSE_BRACE)
}

/// Whether the byte is an ASCII letter or digit.
pub open spec fn is_alnum(b: u8) -> bool {
    (48 <= b <= 57) || (65 <= b <= 90) || (97 <= b <= 122)
}

/// Whether every tag of the template is plain: no `{{` is followed by
/// `>` (a partial tag, which makes the engine read further template
/// files) or `=` (a set-delimiter tag, which changes what a tag looks
/// like), and between every `{{` and the first `}}` after it stands at
/// least one letter or digit. The last condition keeps out the
/// implicit-iterator tags (`{{.}}` and its unescaped forms), whose
/// reference names the whole variable mapping: the engine refuses to
/// render a mapping as a value. Only templates of this shape render as a
/// total function of the text and the variables.
pub open spec fn plain_tags(tpl: Seq<u8>) -> bool {
    forall|i: int| #[trigger]
        tag_open_at(tpl, i) ==> {
            &&& (i + 2 < tpl.len() ==> tpl[i + 2] != GREATER && tpl[i + 2] != EQUALS)
            &&& forall|j: int| #[trigger]
                tag_close_from(tpl, i, j) ==> exists|k: int|
                    i + 2 <= k < j && is_alnum(#[trigger] tpl[k])
        }
}

/// Whether every tag of the template is plain: no partial or
/// set-delimiter tag, and a letter or digit inside every tag.
pub fn has_plain_tags(tpl: &[u8]) -> (r: bool)
    ensures
        r == plain_tags(tpl@),
{
    let n: usize = tpl.len();
    if n < 2 {
        return true;
    }
    let mut i: usize = 0;
    while i < n - 1
        invariant
            2 <= n == tpl@.len(),
            i <= n - 1,
            forall|p: int| #[trigger]
                tag_open_at(tpl@, p) && p < i ==> {
                    &&& (p + 2 < n ==> tpl@[p + 2] != GREATER && tpl@[p + 2] != EQUALS)
                    &&& forall|j: int| #[trigger]
                        tag_close_from(tpl@, p, j) ==> exists|k: int|
                            p + 2 <= k < j && is_alnum(#[trigger] tpl@[k])
                },
        decreases n - i,
    {
        if tpl[i] == OPEN_BRACE && tpl[i + 1] == OPEN_BRACE {
            if i + 2 < n && (tpl[i + 2] == GREATER || tpl[i + 2] == EQUALS) {
                assert(tag_open_at(tpl@, i as int));
                return false;
            }
            let mut j: usize = i + 2;
            let mut seen_alnum: bool = false;
            while j < n - 1 && !(tpl[j] == CLOSE_BRACE && tpl[j + 1] == CLOSE_BRACE)
                invariant
                    2 <= n == tpl@.len(),
                    i + 2 <= j,
                    j <= n,
                    forall|k: int|
                        i + 2 <= k < j ==> !(#[trigger] tpl@[k] == CLOSE_BRACE && tpl@[k + 1]
                            == CLOSE_BRACE),
                    seen_alnum == exists|k: int|
                        i + 2 <= k < j && is_alnum(#[trigger] tpl@[k]),
                decreases n - j,
            {
                let b = tpl[j];
                if b >= 48 && b <= 57 || b >= 65 && b <= 90 || b >= 97 && b <= 122 {
                    seen_alnum = true;
                }
                j = j + 1;
            }
            if j < n - 1 {
                // The first `}}` after this tag opening stands at `j`,
                // and at `j` alone.
                assert(tag_close_from(tpl@, i as int, j as int));
                proof {
                    assert forall|j2: int| #[trigger]
                        tag_close_from(tpl@, i as int, j2) implies j2 == j as int by {
                        if j2 < j as int {
                            assert(tpl@[j2] == CLOSE_BRACE && tpl@[j2 + 1] == CLOSE_BRACE);
                        }
                        if j2 > j as int {
                            assert(!(tpl@[j as int] == CLOSE_BRACE && tpl@[j as int + 1]
                                == CLOSE_BRACE));
                        }
                    }
                }
                if !seen_alnum {
                    assert(tag_open_at(tpl@, i as int));
                    return false;
                }
            } else {
                // No `}}` follows this opening: the parser never sees a
                // complete tag here, so nothing is demanded of it.
                proof {
                    assert forall|j2: int| !(#[trigger] tag_close_from(
                        tpl@,
                        i as int,
                        j2,
                    )) by {
                        if tag_close_from(tpl@, i as int, j2) {
                            assert(tpl@[j2] == CLOSE_BRACE && tpl@[j2 + 1] == CLOSE_BRACE);
                            assert(i + 2 <= j2 < j);
                        }
                    }
                }
            }
        }
        i = i + 1;
    }
    true
}

/// The byte-string variable mapping as a sequence of byte-sequence pairs.
pub open spec fn vars_view(vars: Seq<(Vec<u8>, Vec<u8>)>) -> Seq<(Seq<u8>, Seq<u8>)> {
    vars.map_values(|p: (Vec<u8>, Vec<u8>)| (p.0@, p.1@))
}

#[verifier::external_type_specification]
#[verifier::external_body]
pub struct ExTemplate(mustache::Template);

/// Whether `mustache::compile_str` accepts the template text. Meaningful
/// for templates that satisfy [`plain_tags`]; a partial tag makes the
/// compiler read further template files, so acceptance is then no function
/// of the text.
pub uninterp spec fn mustache_accepts(tpl: Seq<u8>) -> bool;

/// What `mustache::Template::render` produces from a template with the
/// given source text and a variable mapping, for templates that satisfy
/// [`plain_tags`].
pub uninterp spec fn mustache_render(tpl: Seq<u8>, vars: Seq<(Seq<u8>, Seq<u8>)>) -> Seq<u8>;

/// A template compiled from a source text it is kept with.
pub struct CompiledTemplate {
    source: Vec<u8>,
    inner: mustache::Template,
}

impl CompiledTemplate {
    /// The source text the template was compiled from.
    pub closed spec fn source_view(&self) -> Seq<u8> {
        self.source@
    }

    /// Relies on `mustache::compile_str`: for a template without partial
    /// and set-delimiter tags the compiler reads nothing but the text, so
    /// acceptance is a function of the text alone.
    #[verifier::external_body]
    fn compile_raw(text: &[u8]) -> (r: Option<CompiledTemplate>)
        ensures
            r matches Some(t) ==> t.source_view() == text@,
            plain_tags(text@) ==> (r is Some <==> mustache_accepts(text@)),
    {
        let text_str = std::str::from_utf8(text).ok()?;
        let inner = mustache::compile_str(text_str).ok()?;
        Some(CompiledTemplate { source: text.to_vec(), inner })
    }

    /// Relies on `mustache::Template::render` over a string-to-string
    /// mapping: for a template whose tags are plain the engine walks only
    /// the compiled text and the mapping, every reference names a path —
    /// a letter or digit inside every tag keeps out the implicit-iterator
    /// tags, the one reference the engine refuses (it will not render the
    /// mapping itself as a value) — every lookup on a flat string mapping
    /// yields a string or renders empty, and writing to a byte vector
    /// cannot fail; so rendering succeeds and is a function of the
    /// template text and the variables alone.
    #[verifier::external_body]
    fn render_raw(&self, vars: &Vec<(Vec<u8>, Vec<u8>)>) -> (r: Option<Vec<u8>>)
        ensures
            plain_tags(self.source_view()) ==> r is Some,
            r is Some && plain_tags(self.source_view()) ==> r.unwrap()@ == mustache_render(
                self.source_view(),
                vars_view(vars@),
            ),
    {
        let mut data = std::collections::HashMap::new();
        for (k, v) in vars.iter() {
            data.insert(
                String::from_utf8_lossy(k).into_owned(),
                String::from_utf8_lossy(v).into_owned(),
            );
        }
        let mut out: Vec<u8> = Vec::new();
        self.inner.render(&mut out, &data).ok()?;
        Some(out)
    }

    /// Compiles a template text.
    pub fn compile(text: &[u8]) -> (r: Result<CompiledTemplate, PublishError>)
        ensures
            r matches Ok(t) ==> t.source_view() == text@,
            r matches Err(e) ==> e == PublishError::TemplateSyntaxError,
            plain_tags(text@) ==> (r is Ok <==> mustache_accepts(text@)),
    {
        match Self::compile_raw(text) {
            Some(t) => Ok(t),
            None => Err(PublishError::TemplateSyntaxError),
        }
    }

    /// Renders the template under a byte-string variable mapping. A
    /// template whose tags are not plain is refused before the engine
    /// sees it.
    pub fn render(&self, vars: &Vec<(Vec<u8>, Vec<u8>)>) -> (r: Result<
        Vec<u8>,
        PublishError,
    >)
        ensures
            r is Ok <==> plain_tags(self.source_view()),
            r matches Ok(out) ==> out@ == mustache_render(
                self.source_view(),
                vars_view(vars@),
            ),
            r matches Err(e) ==> e == PublishError::TemplateSyntaxError,
    {
        if !has_plain_tags(self.source.as_slice()) {
            return Err(PublishError::TemplateSyntaxError);
        }
        match self.render_raw(vars) {
            Some(out) => Ok(out),
            None => vstd::pervasive::unreached(),
        }
    }
}

/// Rendering is deterministic: an identical template text and variable
/// mapping always yield byte-identical output. (Stated for templates
/// whose tags are plain; a partial tag makes the engine read further
/// template files, so the output of such a template is no function of
/// these inputs.)
pub proof fn lemma_render_deterministic(
    tpl1: Seq<u8>,
    vars1: Seq<(Seq<u8>, Seq<u8>)>,
    tpl2: Seq<u8>,
    vars2: Seq<(Seq<u8>, Seq<u8>)>,
)
    requires
        plain_tags(tpl1),
        tpl1 == tpl2,
        vars1 == vars2,
    ensures
        mustache_render(tpl1, vars1) == mustache_render(tpl2, vars2),
{
}

} // verus!
