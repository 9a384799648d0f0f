//! Compression of the package index: a gzip stream that embeds a logical
//! filename in its header.

use vstd::prelude::*;

verus! {

/// The gzip stream written for `data` with the logical filename `name`
/// embedded in its header.
pub uninterp spec fn gzip_of(name: Seq<u8>, data: Seq<u8>) -> Seq<u8>;

/// Relies on `flate2::GzBuilder` and its write encoder with the default
/// pure-Rust backend and default compression level: the header is fixed
/// (zero timestamp, operating-system byte 255) and the compressor is
/// deterministic, so the stream is a function of the filename and the
/// data alone, and opens with the gzip magic bytes. The builder refuses a
/// filename holding a zero byte, so one is kept out.
#[verifier::external_body]
pub(crate) fn gzip_named(name: &[u8], data: &[u8]) -> (r: Vec<u8>)
    requires
        forall|i: int| 0 <= i < name@.len() ==> name@[i] != 0,
    ensures
        r@ == gzip_of(name@, data@),
        r@.len() >= 10,
        r@[0] == 0x1f,
        r@[1] == 0x8b,
{
    let mut out: Vec<u8> = Vec::new();
    let mut gz = flate2::GzBuilder::new().filename(name).write(
        &mut out,
        flate2::Compression::default(),
    );
    let _ = std::io::Write::write_all(&mut gz, data);
    let _ = gz.finish();
    out
}

} // verus!
