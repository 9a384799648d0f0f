//! Byte-string helpers: the pipeline models all text (versions, URLs,
//! rendered manifests, index blobs) as byte sequences.

use vstd::prelude::*;
use vstd::slice::slice_to_vec;
use vstd::string::StringSliceAdditionalSpecFns;

verus! {

/// The UTF-8 bytes of a string literal, for use in contracts.
pub open spec fn lit(s: &str) -> Seq<u8> {
    s.spec_bytes()
}

/// For an ASCII literal, the byte view has one byte per character.
pub proof fn lemma_ascii_lit(s: &str)
    requires
        vstd::utf8::is_ascii_chars(s@),
    ensures
        lit(s).len() == s@.len(),
        forall|i: int| 0 <= i < s@.len() ==> lit(s)[i] == s@[i] as u8,
{
    vstd::utf8::is_ascii_chars_encode_utf8(s@);
}

/// The UTF-8 bytes of a string literal, as a vector.
pub fn lit_bytes(s: &str) -> (r: Vec<u8>)
    ensures
        r@ == lit(s),
{
    slice_to_vec(s.as_bytes())
}

/// A copy of a byte string.
pub fn copy_bytes(v: &[u8]) -> (r: Vec<u8>)
    ensures
        r@ == v@,
{
    slice_to_vec(v)
}

/// Appends `src` onto the end of `dst`.
pub fn append_bytes(dst: &mut Vec<u8>, src: &[u8])
    ensures
        final(dst)@ == old(dst)@ + src@,
{
    let n: usize = src.len();
    let mut i: usize = 0;
    while i < n
        invariant
            n == src@.len(),
            i <= n,
            dst@ == old(dst)@ + src@.subrange(0, i as int),
        decreases n - i,
    {
        dst.push(src[i]);
        assert(src@.subrange(0, i as int).push(src@[i as int]) == src@.subrange(0, i + 1));
        i = i + 1;
    }
    assert(src@.subrange(0, n as int) == src@);
}

/// `lit_bytes` followed by `append_bytes`, for building text out of pieces.
pub fn append_lit(dst: &mut Vec<u8>, s: &str)
    ensures
        final(dst)@ == old(dst)@ + lit(s),
{
    let piece = lit_bytes(s);
    append_bytes(dst, piece.as_slice());
}

/// The sequence with every occurrence of `from` replaced by `to`.
pub open spec fn replaced(s: Seq<u8>, from: u8, to: u8) -> Seq<u8> {
    s.map_values(|b: u8| if b == from { to } else { b })
}

/// A copy of `v` with every occurrence of `from` replaced by `to`.
pub fn replace_byte(v: &[u8], from: u8, to: u8) -> (r: Vec<u8>)
    ensures
        r@ == replaced(v@, from, to),
{
    let n: usize = v.len();
    let mut r: Vec<u8> = Vec::new();
    let mut i: usize = 0;
    while i < n
        invariant
            n == v@.len(),
            i <= n,
            r@ == replaced(v@.subrange(0, i as int), from, to),
        decreases n - i,
    {
        let b = v[i];
        if b == from {
            r.push(to);
        } else {
            r.push(b);
        }
        assert(v@.subrange(0, i as int).push(v@[i as int]) == v@.subrange(0, i + 1));
        assert(replaced(v@.subrange(0, i + 1), from, to) == replaced(
            v@.subrange(0, i as int),
            from,
            to,
        ).push(if v@[i as int] == from {
            to
        } else {
            v@[i as int]
        }));
        i = i + 1;
    }
    assert(v@.subrange(0, n as int) == v@);
    r
}

/// Whether two byte strings hold the same bytes.
pub fn bytes_eq(a: &[u8], b: &[u8]) -> (r: bool)
    ensures
        r == (a@ == b@),
{
    let n: usize = a.len();
    if n != b.len() {
        assert(a@ != b@) by {
            assert(a@.len() != b@.len());
        }
        return false;
    }
    let mut i: usize = 0;
    while i < n
        invariant
            n == a@.len() == b@.len(),
            i <= n,
            forall|j: int| 0 <= j < i ==> a@[j] == b@[j],
        decreases n - i,
    {
        if a[i] != b[i] {
            return false;
        }
        i = i + 1;
    }
    assert(a@ =~= b@);
    true
}

/// Whether `v` ends with `suffix`.
pub open spec fn has_suffix(v: Seq<u8>, suffix: Seq<u8>) -> bool {
    v.len() >= suffix.len() && v.subrange(v.len() - suffix.len(), v.len() as int) == suffix
}

/// Whether the byte string `v` ends with `suffix`.
pub fn ends_with(v: &[u8], suffix: &[u8]) -> (r: bool)
    ensures
        r == has_suffix(v@, suffix@),
{
    let n: usize = v.len();
    let m: usize = suffix.len();
    if n < m {
        return false;
    }
    let tail = vstd::slice::slice_subrange(v, n - m, n);
    bytes_eq(tail, suffix)
}

/// The decimal text of `n`: most significant digit first, no leading
/// zero except for zero itself.
pub open spec fn dec_of(n: nat) -> Seq<u8>
    decreases n,
{
    if n < 10 {
        seq![(48 + n) as u8]
    } else {
        dec_of(n / 10).push((48 + n % 10) as u8)
    }
}

/// Renders `n` in decimal.
pub fn dec_bytes(n: u64) -> (r: Vec<u8>)
    ensures
        r@ == dec_of(n as nat),
{
    let mut digits: Vec<u8> = Vec::new();
    let mut m: u64 = n;
    if m == 0 {
        digits.push(48);
        return digits;
    }
    while m > 0
        invariant
            m > 0 ==> dec_of(n as nat) == dec_of(m as nat) + digits@.reverse(),
            m == 0 ==> dec_of(n as nat) == digits@.reverse(),
        decreases m,
    {
        let ghost pre = m as nat;
        let ghost pre_digits = digits@;
        digits.push((m % 10) as u8 + 48);
        m = m / 10;
        proof {
            assert(digits@.reverse() =~= seq![(48 + pre % 10) as u8] + pre_digits.reverse());
            if pre < 10 {
                assert(dec_of(pre) == seq![(48 + pre) as u8]);
            } else {
                assert(dec_of(pre) == dec_of(pre / 10).push((48 + pre % 10) as u8));
                assert(dec_of(pre / 10).push((48 + pre % 10) as u8) =~= dec_of(pre / 10) + seq![
                    (48 + pre % 10) as u8,
                ]);
            }
        }
    }
    let k: usize = digits.len();
    let mut r: Vec<u8> = Vec::new();
    let mut i: usize = k;
    while i > 0
        invariant
            k == digits@.len(),
            i <= k,
            r@.len() == k - i,
            forall|j: int| 0 <= j < r@.len() ==> r@[j] == digits@[k - 1 - j],
        decreases i,
    {
        i = i - 1;
        r.push(digits[i]);
    }
    assert(r@ =~= digits@.reverse());
    r
}

/// A copy of the first `n` bytes of `v`.
pub fn prefix_vec(v: &[u8], n: usize) -> (r: Vec<u8>)
    requires
        n <= v@.len(),
    ensures
        r@ == v@.subrange(0, n as int),
{
    slice_to_vec(vstd::slice::slice_subrange(v, 0, n))
}

} // verus!
