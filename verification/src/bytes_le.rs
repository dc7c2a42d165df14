//! Little-endian encoding of the fixed-width integers used in the wire format.
use vstd::prelude::*;

verus! {

/// The little-endian bytes of `x`, lowest byte first, `n` bytes long.
pub open spec fn le_bytes(x: nat, n: nat) -> Seq<u8>
    decreases n,
{
    if n == 0 {
        Seq::empty()
    } else {
        seq![(x % 256) as u8] + le_bytes(x / 256, (n - 1) as nat)
    }
}

/// The number whose little-endian bytes are `s`.
pub open spec fn le_value(s: Seq<u8>) -> nat
    decreases s.len(),
{
    if s.len() == 0 {
        0
    } else {
        s[0] as nat + 256 * le_value(s.drop_first())
    }
}

/// Appends the eight little-endian bytes of `x` to `buf`.
pub fn push_u64_le(buf: &mut Vec<u8>, x: u64)
    ensures
        final(buf)@ == old(buf)@ + le_bytes(x as nat, 8),
{
    let ghost start = buf@;
    let mut v: u64 = x;
    let mut i: usize = 0;
    while i < 8
        invariant
            i <= 8,
            buf@ + le_bytes(v as nat, (8 - i) as nat) == start + le_bytes(x as nat, 8),
        decreases 8 - i,
    {
        let b: u8 = (v % 256) as u8;
        proof {
            assert(le_bytes(v as nat, (8 - i) as nat) == seq![b] + le_bytes((v / 256) as nat, (8 - i - 1) as nat));
        }
        buf.push(b);
        v = v / 256;
        i = i + 1;
        proof {
            assert(buf@ + le_bytes(v as nat, (8 - i) as nat) =~= start + le_bytes(x as nat, 8));
        }
    }
}


/// The encoding of `x` in `n` bytes is `n` bytes long.
pub proof fn lemma_le_bytes_len(x: nat, n: nat)
    ensures
        le_bytes(x, n).len() == n,
    decreases n,
{
    if n > 0 {
        lemma_le_bytes_len(x / 256, (n - 1) as nat);
    }
}

/// The encoding of zero is all zero bytes.
pub proof fn lemma_le_bytes_zero(n: nat)
    ensures
        le_bytes(0, n).len() == n,
        forall|i: int| 0 <= i < n ==> #[trigger] le_bytes(0, n)[i] == 0,
    decreases n,
{
    if n > 0 {
        lemma_le_bytes_zero((n - 1) as nat);
        assert(le_bytes(0, n) =~= seq![0u8] + le_bytes(0, (n - 1) as nat));
    }
}

/// The value of four bytes, lowest first.
pub proof fn lemma_le_value_4(s: Seq<u8>)
    requires
        s.len() == 4,
    ensures
        le_value(s) == s[0] + 256 * (s[1] + 256 * (s[2] + 256 * s[3] as nat)),
{
    let t1 = s.drop_first();
    let t2 = t1.drop_first();
    let t3 = t2.drop_first();
    let t4 = t3.drop_first();
    assert(le_value(t4) == 0);
    assert(le_value(t3) == t3[0] + 256 * le_value(t4));
    assert(le_value(t2) == t2[0] + 256 * le_value(t3));
    assert(le_value(t1) == t1[0] + 256 * le_value(t2));
    assert(le_value(s) == s[0] + 256 * le_value(t1));
}

/// Decoding the four byte encoding of a `u32` gives it back.
pub proof fn lemma_le_u32_round_trip(x: u32)
    ensures
        le_value(le_bytes(x as nat, 4)) == x,
{
    let x0 = x as nat;
    let x1 = x0 / 256;
    let x2 = x1 / 256;
    let x3 = x2 / 256;
    assert(le_bytes(x3 / 256, 0) =~= Seq::<u8>::empty());
    assert(le_bytes(x3, 1) == seq![(x3 % 256) as u8] + le_bytes(x3 / 256, 0));
    assert(le_bytes(x2, 2) == seq![(x2 % 256) as u8] + le_bytes(x3, 1));
    assert(le_bytes(x1, 3) == seq![(x1 % 256) as u8] + le_bytes(x2, 2));
    assert(le_bytes(x0, 4) == seq![(x0 % 256) as u8] + le_bytes(x1, 3));
    let s = le_bytes(x0, 4);
    assert(s =~= seq![(x0 % 256) as u8, (x1 % 256) as u8, (x2 % 256) as u8, (x3 % 256) as u8]);
    lemma_le_value_4(s);
    assert(x3 < 256);
    assert(x0 == x0 % 256 + 256 * (x1 % 256 + 256 * (x2 % 256 + 256 * (x3 % 256)))) by {
        assert(x0 == x0 % 256 + 256 * x1);
        assert(x1 == x1 % 256 + 256 * x2);
        assert(x2 == x2 % 256 + 256 * x3);
    }
}

/// Appends the four little-endian bytes of `x` to `buf`.
pub fn push_u32_le(buf: &mut Vec<u8>, x: u32)
    ensures
        final(buf)@ == old(buf)@ + le_bytes(x as nat, 4),
{
    let ghost start = buf@;
    let mut v: u32 = x;
    let mut i: usize = 0;
    while i < 4
        invariant
            i <= 4,
            buf@ + le_bytes(v as nat, (4 - i) as nat) == start + le_bytes(x as nat, 4),
        decreases 4 - i,
    {
        let b: u8 = (v % 256) as u8;
        proof {
            assert(le_bytes(v as nat, (4 - i) as nat) == seq![b] + le_bytes(
                (v / 256) as nat,
                (4 - i - 1) as nat,
            ));
        }
        buf.push(b);
        v = v / 256;
        i = i + 1;
        proof {
            assert(buf@ + le_bytes(v as nat, (4 - i) as nat) =~= start + le_bytes(x as nat, 4));
        }
    }
}

/// Reads the number whose little-endian bytes are `s[from..from + 4]`.
pub fn read_u32_le(s: &[u8], from: usize) -> (res: u32)
    requires
        from + 4 <= s@.len(),
    ensures
        res as nat == le_value(s@.subrange(from as int, from + 4)),
{
    proof {
        lemma_le_value_4(s@.subrange(from as int, from + 4));
    }
    let b0 = s[from] as u32;
    let b1 = s[from + 1] as u32;
    let b2 = s[from + 2] as u32;
    let b3 = s[from + 3] as u32;
    b0 + 256 * (b1 + 256 * (b2 + 256 * b3))
}

} // verus!
