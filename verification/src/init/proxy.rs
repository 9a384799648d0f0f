//! The plain-proxy skeleton: its files are rendered under a single
//! `port` value holding the decimal text of the port to proxy to.

use crate::bytes::{dec_bytes, dec_of, lit, lit_bytes};
use crate::init::{from_skeleton, rendered_file_of};
use vstd::prelude::*;

verus! {

/// The value mapping of the proxy skeleton: one `port` entry.
pub open spec fn proxy_values_of(port: u16) -> Seq<(Seq<u8>, Seq<u8>)> {
    seq![(lit("port"), dec_of(port as nat))]
}

/// Renders the proxy configuration skeleton for a port. A failing file
/// stops the walk and is reported by its position.
pub fn generate(skeleton: &Vec<(Vec<u8>, Vec<u8>)>, port: u16) -> (r: Result<
    Vec<(Vec<u8>, Vec<u8>)>,
    usize,
>)
    ensures
        r is Ok <==> (forall|i: int|
            0 <= i < skeleton@.len() ==> rendered_file_of(
                (#[trigger] skeleton@[i]).0@,
                skeleton@[i].1@,
                proxy_values_of(port),
            ) is Some),
        r matches Ok(out) ==> {
            &&& out@.len() == skeleton@.len()
            &&& forall|i: int|
                0 <= i < skeleton@.len() ==> ((#[trigger] out@[i]).0@, out@[i].1@)
                    == rendered_file_of(
                    skeleton@[i].0@,
                    skeleton@[i].1@,
                    proxy_values_of(port),
                ).unwrap()
        },
        r matches Err(f) ==> f < skeleton@.len() && rendered_file_of(
            skeleton@[f as int].0@,
            skeleton@[f as int].1@,
            proxy_values_of(port),
        ) is None,
{
    let mut values: Vec<(Vec<u8>, Vec<u8>)> = Vec::new();
    values.push((lit_bytes("port"), dec_bytes(port as u64)));
    proof {
        assert(crate::template::vars_view(values@) =~= proxy_values_of(port));
    }
    from_skeleton(skeleton, &values)
}

} // verus!
