//! Small verified helpers on byte buffers.

use vstd::prelude::*;

verus! {

/// A sequence of `n` zero bytes.
pub open spec fn zeros(n: nat) -> Seq<u8> {
    Seq::new(n, |i: int| 0u8)
}

/// Overwrites the start of `dst` with `src` and leaves the rest as it was.
pub fn copy_into(dst: &mut [u8], src: &[u8])
    requires
        src@.len() <= old(dst)@.len(),
    ensures
        final(dst)@.len() == old(dst)@.len(),
        final(dst)@.subrange(0, src@.len() as int) == src@,
        final(dst)@.subrange(src@.len() as int, old(dst)@.len() as int) == old(dst)@.subrange(
            src@.len() as int,
            old(dst)@.len() as int,
        ),
{
    let n: usize = src.len();
    let mut i: usize = 0;
    while i < n
        invariant
            n == src@.len(),
            n <= dst@.len(),
            i <= n,
            dst@.len() == old(dst)@.len(),
            forall|j: int| 0 <= j < i ==> dst@[j] == src@[j],
            forall|j: int| i <= j < dst@.len() ==> dst@[j] == old(dst)@[j],
        decreases n - i,
    {
        dst[i] = src[i];
        i = i + 1;
    }
    assert(dst@.subrange(0, src@.len() as int) =~= src@);
    assert(dst@.subrange(src@.len() as int, old(dst)@.len() as int) =~= old(dst)@.subrange(
        src@.len() as int,
        old(dst)@.len() as int,
    ));
}

/// Adds `src` behind what `dst` holds.
pub fn append_bytes(dst: &mut Vec<u8>, src: &[u8])
    ensures
        final(dst)@ == old(dst)@ + src@,
{
    let n: usize = src.len();
    let mut i: usize = 0;
    while i < n
        invariant
            n == src@.len(),
            i <= n,
            dst@ == old(dst)@ + src@.subrange(0, i as int),
        decreases n - i,
    {
        dst.push(src[i]);
        assert(src@.subrange(0, i + 1) =~= src@.subrange(0, i as int).push(src@[i as int]));
        assert(dst@ =~= old(dst)@ + src@.subrange(0, i + 1));
        i = i + 1;
    }
    assert(src@.subrange(0, n as int) =~= src@);
}

/// In a byte string made of a front, a part behind it and a tail, the part
/// lies behind the front, and front and the rest can be told apart as well.
pub proof fn lemma_part(whole: Seq<u8>, front: Seq<u8>, part: Seq<u8>, tail: Seq<u8>)
    requires
        whole == front + part + tail,
    ensures
        whole == front + (part + tail),
        whole.subrange(front.len() as int, (front.len() + part.len()) as int) == part,
        whole.len() == front.len() + part.len() + tail.len(),
{
    assert(front + part + tail =~= front + (part + tail));
    assert(whole.subrange(front.len() as int, (front.len() + part.len()) as int) =~= part);
}

/// The array of 32 bytes that holds `bytes`.
pub open spec fn spec_array32(bytes: Seq<u8>) -> [u8; 32] {
    choose|array: [u8; 32]| array@ == bytes
}

/// An array holds what it holds, and no other array holds the same.
pub proof fn lemma_array32(array: [u8; 32])
    ensures
        spec_array32(array@) == array,
{
    let chosen = spec_array32(array@);
    assert(chosen@ == array@);
    assert(chosen =~= array);
}

/// The array of 32 bytes that holds `bytes`.
pub fn array32(bytes: &[u8]) -> (r: [u8; 32])
    requires
        bytes@.len() == 32,
    ensures
        r@ == bytes@,
        r == spec_array32(bytes@),
{
    let mut r = [0u8; 32];
    let mut i: usize = 0;
    while i < 32
        invariant
            i <= 32,
            bytes@.len() == 32,
            forall|j: int| 0 <= j < i ==> r@[j] == bytes@[j],
        decreases 32 - i,
    {
        r[i] = bytes[i];
        i = i + 1;
    }
    assert(r@ =~= bytes@);
    proof {
        lemma_array32(r);
    }
    r
}

/// Tells whether two byte strings hold the same bytes. Every byte is looked
/// at, wherever the first difference lies, so that the time taken tells
/// nothing of it: this is the comparison for secrets.
pub fn secret_bytes_equal(a: &[u8], b: &[u8]) -> (r: bool)
    ensures
        r == (a@ == b@),
{
    if a.len() != b.len() {
        return false;
    }
    let n: usize = a.len();
    let mut difference: u8 = 0;
    let mut i: usize = 0;
    while i < n
        invariant
            n == a@.len(),
            n == b@.len(),
            i <= n,
            difference == 0 <==> forall|j: int| 0 <= j < i ==> a@[j] == b@[j],
        decreases n - i,
    {
        let x: u8 = a[i];
        let y: u8 = b[i];
        let before: u8 = difference;
        difference = difference | (x ^ y);
        assert((before | (x ^ y)) == 0 <==> before == 0 && x == y) by (bit_vector);
        i = i + 1;
    }
    proof {
        if difference == 0 {
            assert(a@ =~= b@);
        }
    }
    difference == 0
}

/// Tells whether two byte strings hold the same bytes.
pub fn bytes_equal(a: &[u8], b: &[u8]) -> (r: bool)
    ensures
        r == (a@ == b@),
{
    if a.len() != b.len() {
        return false;
    }
    let n: usize = a.len();
    let mut i: usize = 0;
    while i < n
        invariant
            n == a@.len(),
            n == b@.len(),
            i <= n,
            forall|j: int| 0 <= j < i ==> a@[j] == b@[j],
        decreases n - i,
    {
        if a[i] != b[i] {
            return false;
        }
        i = i + 1;
    }
    assert(a@ =~= b@);
    true
}

} // verus!
