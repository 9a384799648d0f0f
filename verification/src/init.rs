//! Project-configuration skeletons. A skeleton is a list of files; each
//! file whose name ends in `.handlebars` is rendered under a value mapping
//! and loses that suffix, every other file is carried over unchanged. A
//! file whose content is not valid UTF-8 is refused in either branch.
//! Writing the resulting files to disk is the caller's business.

use crate::bytes::{ends_with, has_suffix, lit, lit_bytes, prefix_vec};
use crate::template::vars_view;
use vstd::prelude::*;
use vstd::utf8::valid_utf8;

pub mod laravel_artisan;
pub mod matrix_synapse;
pub mod proxy;
pub mod rails;
pub mod svelte;

verus! {

/// What `handlebars::Handlebars::render_template` produces from a
/// template text and a value mapping, or `None` where the text does not
/// compile or render under it.
pub uninterp spec fn hb_render(tpl: Seq<u8>, values: Seq<(Seq<u8>, Seq<u8>)>) -> Option<Seq<u8>>;

/// Relies on `std::str::from_utf8`: it accepts exactly the valid UTF-8
/// byte strings, which `vstd::utf8::valid_utf8` formalizes.
#[verifier::external_body]
fn is_utf8(v: &[u8]) -> (r: bool)
    ensures
        r == valid_utf8(v@),
{
    std::str::from_utf8(v).is_ok()
}

/// Relies on `handlebars::Handlebars::render_template` over an empty
/// registry: compiling and rendering read only the template text and the
/// value mapping, so the outcome is a function of the two.
#[verifier::external_body]
fn hb_render_raw(tpl: &[u8], values: &Vec<(Vec<u8>, Vec<u8>)>) -> (r: Option<Vec<u8>>)
    ensures
        r is Some <==> hb_render(tpl@, vars_view(values@)) is Some,
        r is Some ==> r.unwrap()@ == hb_render(tpl@, vars_view(values@)).unwrap(),
{
    let s = std::str::from_utf8(tpl).ok()?;
    let mut data = std::collections::BTreeMap::new();
    for (k, v) in values.iter() {
        data.insert(
            String::from_utf8_lossy(k).into_owned(),
            String::from_utf8_lossy(v).into_owned(),
        );
    }
    let out = handlebars::Handlebars::new().render_template(s, &data).ok()?;
    Some(out.into_bytes())
}

/// The file that a skeleton entry becomes: content that is not valid
/// UTF-8 is refused in either branch; a `.handlebars` file is rendered
/// and loses the suffix; any other file is carried unchanged.
pub open spec fn rendered_file_of(
    path: Seq<u8>,
    content: Seq<u8>,
    values: Seq<(Seq<u8>, Seq<u8>)>,
) -> Option<(Seq<u8>, Seq<u8>)> {
    if !valid_utf8(content) {
        None
    } else if has_suffix(path, lit(".handlebars")) {
        match hb_render(content, values) {
            Some(out) => Some((path.subrange(0, path.len() - lit(".handlebars").len()), out)),
            None => None,
        }
    } else {
        Some((path, content))
    }
}

/// Renders one skeleton file under a value mapping.
pub fn render(path: &[u8], content: &[u8], values: &Vec<(Vec<u8>, Vec<u8>)>) -> (r: Option<
    (Vec<u8>, Vec<u8>),
>)
    ensures
        r is Some <==> rendered_file_of(path@, content@, vars_view(values@)) is Some,
        r is Some ==> (r.unwrap().0@, r.unwrap().1@) == rendered_file_of(
            path@,
            content@,
            vars_view(values@),
        ).unwrap(),
{
    if !is_utf8(content) {
        return None;
    }
    let suffix = lit_bytes(".handlebars");
    if ends_with(path, suffix.as_slice()) {
        match hb_render_raw(content, values) {
            Some(out) => Some((prefix_vec(path, path.len() - suffix.len()), out)),
            None => None,
        }
    } else {
        Some((vstd::slice::slice_to_vec(path), vstd::slice::slice_to_vec(content)))
    }
}

/// Renders a whole skeleton under a value mapping: one output file per
/// skeleton file, in order. The walk stops at the first file that fails
/// and reports its position.
pub fn from_skeleton(files: &Vec<(Vec<u8>, Vec<u8>)>, values: &Vec<(Vec<u8>, Vec<u8>)>) -> (r:
    Result<Vec<(Vec<u8>, Vec<u8>)>, usize>)
    ensures
        r is Ok <==> (forall|i: int|
            0 <= i < files@.len() ==> rendered_file_of(
                (#[trigger] files@[i]).0@,
                files@[i].1@,
                vars_view(values@),
            ) is Some),
        r matches Ok(out) ==> {
            &&& out@.len() == files@.len()
            &&& forall|i: int|
                0 <= i < files@.len() ==> ((#[trigger] out@[i]).0@, out@[i].1@)
                    == rendered_file_of(files@[i].0@, files@[i].1@, vars_view(values@)).unwrap()
        },
        r matches Err(f) ==> {
            &&& f < files@.len()
            &&& rendered_file_of(files@[f as int].0@, files@[f as int].1@, vars_view(values@))
                 is None
            &&& forall|j: int|
                0 <= j < f ==> rendered_file_of(
                    (#[trigger] files@[j]).0@,
                    files@[j].1@,
                    vars_view(values@),
                ) is Some
        },
{
    let n: usize = files.len();
    let mut out: Vec<(Vec<u8>, Vec<u8>)> = Vec::new();
    let mut i: usize = 0;
    while i < n
        invariant
            n == files@.len(),
            i <= n,
            out@.len() == i,
            forall|j: int|
                0 <= j < i ==> rendered_file_of(
                    (#[trigger] files@[j]).0@,
                    files@[j].1@,
                    vars_view(values@),
                ) is Some,
            forall|j: int|
                0 <= j < i ==> ((#[trigger] out@[j]).0@, out@[j].1@) == rendered_file_of(
                    files@[j].0@,
                    files@[j].1@,
                    vars_view(values@),
                ).unwrap(),
        decreases n - i,
    {
        let entry = &files[i];
        match render(entry.0.as_slice(), entry.1.as_slice(), values) {
            Some(rendered) => {
                out.push(rendered);
            },
            None => {
                return Err(i);
            },
        }
        i = i + 1;
    }
    Ok(out)
}

} // verus!
