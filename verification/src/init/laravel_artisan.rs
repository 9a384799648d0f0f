//! The Laravel-with-Artisan skeleton: its files carry over under an empty value
//! mapping.

use crate::init::{from_skeleton, rendered_file_of};
use vstd::prelude::*;

verus! {

/// Renders the Laravel-with-Artisan configuration skeleton, with no values to
/// substitute. A failing file stops the walk and is reported by its
/// position.
pub fn generate(skeleton: &Vec<(Vec<u8>, Vec<u8>)>) -> (r: Result<
    Vec<(Vec<u8>, Vec<u8>)>,
    usize,
>)
    ensures
        r is Ok <==> (forall|i: int|
            0 <= i < skeleton@.len() ==> rendered_file_of(
                (#[trigger] skeleton@[i]).0@,
                skeleton@[i].1@,
                Seq::empty(),
            ) is Some),
        r matches Ok(out) ==> {
            &&& out@.len() == skeleton@.len()
            &&& forall|i: int|
                0 <= i < skeleton@.len() ==> ((#[trigger] out@[i]).0@, out@[i].1@)
                    == rendered_file_of(skeleton@[i].0@, skeleton@[i].1@, Seq::empty()).unwrap()
        },
        r matches Err(f) ==> f < skeleton@.len() && rendered_file_of(
            skeleton@[f as int].0@,
            skeleton@[f as int].1@,
            Seq::empty(),
        ) is None,
{
    let values: Vec<(Vec<u8>, Vec<u8>)> = Vec::new();
    proof {
        assert(crate::template::vars_view(values@) =~= Seq::<(Seq<u8>, Seq<u8>)>::empty());
    }
    from_skeleton(skeleton, &values)
}

} // verus!
