//! What service and connection identifiers share: their byte layout, comparison,
//! the null identifier and hashing of seeds.
use vstd::prelude::*;
use crate::bytes_le::{le_bytes, lemma_le_bytes_len, lemma_le_bytes_zero, push_u64_le};

verus! {

/// The length in bytes of an identifier in the wire format.
pub const ID_LEN: usize = 16;

/// The 64 bit XxHash of `data` computed with the given seed.
pub uninterp spec fn xxhash64(seed: u64, data: Seq<u8>) -> u64;

/// The bytes of an identifier made from a 64 bit hash: the hash in little endian,
/// padded with eight zero bytes to the 128 bits the wire format asks for.
pub open spec fn hashed_id(h: u64) -> Seq<u8> {
    le_bytes(h as nat, 8) + le_bytes(0, 8)
}

/// The null identifier: sixteen zero bytes.
pub open spec fn null_id() -> Seq<u8> {
    le_bytes(0, 8) + le_bytes(0, 8)
}

/// Whether every byte is zero.
pub open spec fn all_zero(s: Seq<u8>) -> bool {
    forall|i: int| 0 <= i < s.len() ==> #[trigger] s[i] == 0
}

/// Calls `twox_hash::XxHash64`: a hasher made with `XxHash64::with_seed(seed)`, fed `data`
/// through `Hasher::write` and read with `Hasher::finish`. The result is named
/// [`xxhash64`]; nothing else is claimed of it.
#[verifier::external_body]
pub(crate) fn xxhash64_with_seed(seed: u64, data: &[u8]) -> (h: u64)
    ensures
        h == xxhash64(seed, data@),
{
    let mut hasher = twox_hash::XxHash64::with_seed(seed);
    std::hash::Hasher::write(&mut hasher, data);
    std::hash::Hasher::finish(&hasher)
}

/// Calls `rand::Rng::gen::<u64>` on `rand::thread_rng()`. The number is random:
/// nothing is claimed of it.
#[verifier::external_body]
pub(crate) fn random_u64() -> u64 {
    rand::Rng::gen::<u64>(&mut rand::thread_rng())
}

/// The identifier bytes for a 64 bit hash.
pub fn hashed_id_bytes(h: u64) -> (res: Vec<u8>)
    ensures
        res@ == hashed_id(h),
{
    let mut v: Vec<u8> = Vec::new();
    push_u64_le(&mut v, h);
    push_u64_le(&mut v, 0);
    assert(v@ =~= hashed_id(h));
    v
}

/// The bytes of the null identifier.
pub fn null_id_bytes() -> (res: Vec<u8>)
    ensures
        res@ == null_id(),
        res@.len() == ID_LEN,
        all_zero(res@),
{
    let mut v: Vec<u8> = Vec::new();
    push_u64_le(&mut v, 0);
    push_u64_le(&mut v, 0);
    proof {
        assert(v@ =~= null_id());
        lemma_null_id();
    }
    v
}

/// Whether two byte strings are equal.
pub fn bytes_equal(a: &[u8], b: &[u8]) -> (res: bool)
    ensures
        res == (a@ == b@),
{
    if a.len() != b.len() {
        return false;
    }
    let mut i: usize = 0;
    while i < a.len()
        invariant
            a@.len() == b@.len(),
            i <= a@.len(),
            forall|j: int| 0 <= j < i ==> a@[j] == b@[j],
        decreases a@.len() - i,
    {
        if a[i] != b[i] {
            return false;
        }
        i = i + 1;
    }
    assert(a@ =~= b@);
    true
}

/// Whether every byte of `a` is zero.
pub fn bytes_all_zero(a: &[u8]) -> (res: bool)
    ensures
        res == all_zero(a@),
{
    let mut i: usize = 0;
    while i < a.len()
        invariant
            i <= a@.len(),
            forall|j: int| 0 <= j < i ==> a@[j] == 0,
        decreases a@.len() - i,
    {
        if a[i] != 0 {
            return false;
        }
        i = i + 1;
    }
    true
}

/// A copy of `v[from..to]`.
pub fn copy_range(v: &[u8], from: usize, to: usize) -> (res: Vec<u8>)
    requires
        from <= to <= v@.len(),
    ensures
        res@ == v@.subrange(from as int, to as int),
{
    let mut out: Vec<u8> = Vec::new();
    let mut i: usize = from;
    while i < to
        invariant
            from <= i <= to,
            to <= v@.len(),
            out@ == v@.subrange(from as int, i as int),
        decreases to - i,
    {
        out.push(v[i]);
        i = i + 1;
        assert(out@ =~= v@.subrange(from as int, i as int));
    }
    out
}

/// A copy of `v`.
pub fn copy_all(v: &[u8]) -> (res: Vec<u8>)
    ensures
        res@ == v@,
{
    let res = copy_range(v, 0, v.len());
    assert(v@.subrange(0, v@.len() as int) =~= v@);
    res
}

/// The null identifier is sixteen bytes long and all zero: it reads as null.
pub proof fn lemma_null_id()
    ensures
        null_id().len() == ID_LEN,
        all_zero(null_id()),
{
    lemma_le_bytes_zero(8);
    assert forall|i: int| 0 <= i < null_id().len() implies #[trigger] null_id()[i] == 0 by {
        if i < 8 {
            assert(null_id()[i] == le_bytes(0, 8)[i]);
        } else {
            assert(null_id()[i] == le_bytes(0, 8)[i - 8]);
        }
    }
}

/// An identifier made from a hash is sixteen bytes long, as the wire format asks, and its
/// last eight bytes are zero.
pub proof fn lemma_hashed_id_len(h: u64)
    ensures
        hashed_id(h).len() == ID_LEN,
        hashed_id(h).subrange(8, 16) == seq![0u8, 0, 0, 0, 0, 0, 0, 0],
{
    lemma_le_bytes_len(h as nat, 8);
    lemma_le_bytes_len(0, 8);
    lemma_le_bytes_zero(8);
    assert(hashed_id(h).subrange(8, 16) =~= le_bytes(0, 8));
    assert(le_bytes(0, 8) =~= seq![0u8, 0, 0, 0, 0, 0, 0, 0]);
}

/// The bytes of a seeded identifier are the 64 bit hash in little endian (lowest byte first,
/// so that every process computes the same bytes for the same seed), then eight zero bytes:
/// reading the first eight bytes as base 256 digits, lowest first, gives back the hash.
pub proof fn law_hashed_id_layout(h: u64)
    ensures
        hashed_id(h).len() == 16,
        h as int == hashed_id(h)[0] + 256 * (hashed_id(h)[1] + 256 * (hashed_id(h)[2] + 256 * (
        hashed_id(h)[3] + 256 * (hashed_id(h)[4] + 256 * (hashed_id(h)[5] + 256 * (hashed_id(h)[6]
            + 256 * (hashed_id(h)[7] as int))))))),
        forall|i: int| 8 <= i < 16 ==> #[trigger] hashed_id(h)[i] == 0,
{
    let x0 = h as nat;
    let x1 = x0 / 256;
    let x2 = x1 / 256;
    let x3 = x2 / 256;
    let x4 = x3 / 256;
    let x5 = x4 / 256;
    let x6 = x5 / 256;
    let x7 = x6 / 256;
    assert(le_bytes(x7 / 256, 0) =~= Seq::<u8>::empty());
    assert(le_bytes(x7, 1) == seq![(x7 % 256) as u8] + le_bytes(x7 / 256, 0));
    assert(le_bytes(x6, 2) == seq![(x6 % 256) as u8] + le_bytes(x7, 1));
    assert(le_bytes(x5, 3) == seq![(x5 % 256) as u8] + le_bytes(x6, 2));
    assert(le_bytes(x4, 4) == seq![(x4 % 256) as u8] + le_bytes(x5, 3));
    assert(le_bytes(x3, 5) == seq![(x3 % 256) as u8] + le_bytes(x4, 4));
    assert(le_bytes(x2, 6) == seq![(x2 % 256) as u8] + le_bytes(x3, 5));
    assert(le_bytes(x1, 7) == seq![(x1 % 256) as u8] + le_bytes(x2, 6));
    assert(le_bytes(x0, 8) == seq![(x0 % 256) as u8] + le_bytes(x1, 7));
    let b = le_bytes(x0, 8);
    assert(b =~= seq![
        (x0 % 256) as u8,
        (x1 % 256) as u8,
        (x2 % 256) as u8,
        (x3 % 256) as u8,
        (x4 % 256) as u8,
        (x5 % 256) as u8,
        (x6 % 256) as u8,
        (x7 % 256) as u8,
    ]);
    lemma_le_bytes_len(0, 8);
    lemma_le_bytes_zero(8);
    let id = hashed_id(h);
    assert(id == b + le_bytes(0, 8));
    assert forall|i: int| 8 <= i < 16 implies #[trigger] id[i] == 0 by {
        assert(id[i] == le_bytes(0, 8)[i - 8]);
    }
    assert(x0 == x0 % 256 + 256 * x1);
    assert(x1 == x1 % 256 + 256 * x2);
    assert(x2 == x2 % 256 + 256 * x3);
    assert(x3 == x3 % 256 + 256 * x4);
    assert(x4 == x4 % 256 + 256 * x5);
    assert(x5 == x5 % 256 + 256 * x6);
    assert(x6 == x6 % 256 + 256 * x7);
    assert(x7 < 256) by {
        assert(x0 < 0x1_0000_0000_0000_0000);
        assert(x1 < 0x1_0000_0000_0000_00);
        assert(x2 < 0x1_0000_0000_0000);
        assert(x3 < 0x1_0000_0000_00);
        assert(x4 < 0x1_0000_0000);
        assert(x5 < 0x1_0000_00);
        assert(x6 < 0x1_0000);
    }
    assert(x7 % 256 == x7);
}

} // verus!
