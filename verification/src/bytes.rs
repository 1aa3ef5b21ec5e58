//! Byte-level helpers shared by the PDU codecs: copying fixed-size fields out of a
//! buffer, appending fields to an encoding, and the little-endian encoding of the
//! 128-bit values (nonces, confirm and check values) that pairing exchanges.
use vstd::prelude::*;

verus! {

/// Copies the `N` bytes of `s` that start at `start` into an array.
pub fn array_from_slice<const N: usize>(s: &[u8], start: usize) -> (r: [u8; N])
    requires
        start + N <= s@.len(),
    ensures
        r@ == s@.subrange(start as int, start + N),
{
    let mut r = [0u8; N];
    let len = s.len();
    let mut i: usize = 0;
    while i < N
        invariant
            i <= N,
            len == s@.len(),
            start + N <= s@.len(),
            r@.len() == N,
            forall|j: int| 0 <= j < i ==> r@[j] == s@[start + j],
        decreases N - i,
    {
        r[i] = s[start + i];
        i = i + 1;
    }
    assert(r@ =~= s@.subrange(start as int, start + N));
    r
}

/// Appends every byte of `s` to `v`.
pub fn push_bytes(v: &mut Vec<u8>, s: &[u8])
    ensures
        final(v)@ == old(v)@ + s@,
{
    let mut i: usize = 0;
    while i < s.len()
        invariant
            i <= s@.len(),
            v@ == old(v)@ + s@.subrange(0, i as int),
        decreases s@.len() - i,
    {
        v.push(s[i]);
        i = i + 1;
        assert(v@ =~= old(v)@ + s@.subrange(0, i as int));
    }
    assert(s@.subrange(0, s@.len() as int) =~= s@);
}

/// The value of a little-endian byte string: the first byte is the least significant.
pub open spec fn le_value(s: Seq<u8>) -> nat
    decreases s.len(),
{
    if s.len() == 0 {
        0
    } else {
        s[0] as nat + 256 * le_value(s.drop_first())
    }
}

/// The `n` least significant bytes of `v`, least significant first.
pub open spec fn le_bytes(v: nat, n: nat) -> Seq<u8>
    decreases n,
{
    if n == 0 {
        Seq::empty()
    } else {
        seq![(v % 256) as u8] + le_bytes(v / 256, (n - 1) as nat)
    }
}

/// `256` to the power `n`: one more than the largest value that `n` bytes hold.
pub open spec fn byte_bound(n: nat) -> nat
    decreases n,
{
    if n == 0 {
        1
    } else {
        256 * byte_bound((n - 1) as nat)
    }
}

/// `n` little-endian bytes always hold `n` bytes.
pub proof fn lemma_le_bytes_len(v: nat, n: nat)
    ensures
        le_bytes(v, n).len() == n,
    decreases n,
{
    if n > 0 {
        lemma_le_bytes_len(v / 256, (n - 1) as nat);
    }
}

/// A byte string of length `n` holds a value below `256^n`.
pub proof fn lemma_le_value_bound(s: Seq<u8>)
    ensures
        le_value(s) < byte_bound(s.len()),
    decreases s.len(),
{
    if s.len() > 0 {
        lemma_le_value_bound(s.drop_first());
    }
}

/// The bound grows with the number of bytes.
pub proof fn lemma_byte_bound_monotonic(m: nat, n: nat)
    requires
        m <= n,
    ensures
        byte_bound(m) <= byte_bound(n),
    decreases n,
{
    if m < n {
        lemma_byte_bound_monotonic(m, (n - 1) as nat);
    }
}

/// Sixteen bytes hold exactly the 128-bit values.
pub proof fn lemma_byte_bound_16()
    ensures
        byte_bound(16) == 0x1_0000_0000_0000_0000_0000_0000_0000_0000,
{
    reveal_with_fuel(byte_bound, 17);
}

/// Decoding the little-endian encoding of a value that fits in `n` bytes gives the value back.
pub proof fn lemma_le_value_of_le_bytes(v: nat, n: nat)
    requires
        v < byte_bound(n),
    ensures
        le_value(le_bytes(v, n)) == v,
    decreases n,
{
    if n > 0 {
        lemma_le_value_of_le_bytes(v / 256, (n - 1) as nat);
        lemma_le_bytes_len(v / 256, (n - 1) as nat);
        let s = le_bytes(v, n);
        assert(s.drop_first() =~= le_bytes(v / 256, (n - 1) as nat));
    }
}

/// Encoding the value of a byte string, on as many bytes, gives the byte string back.
pub proof fn lemma_le_bytes_of_le_value(s: Seq<u8>)
    ensures
        le_bytes(le_value(s), s.len()) == s,
    decreases s.len(),
{
    if s.len() > 0 {
        let rest = s.drop_first();
        lemma_le_bytes_of_le_value(rest);
        let v = le_value(s);
        assert(v % 256 == s[0] as nat && v / 256 == le_value(rest));
        assert(le_bytes(v, s.len()) =~= seq![s[0]] + rest);
        assert(seq![s[0]] + rest =~= s);
    }
}

/// The 16 little-endian bytes of a 128-bit value (`u128::to_le_bytes`).
pub fn u128_to_le_bytes(v: u128) -> (r: [u8; 16])
    ensures
        r@ == le_bytes(v as nat, 16),
{
    let mut r = [0u8; 16];
    let mut rem: u128 = v;
    let mut i: usize = 0;
    proof {
        lemma_le_bytes_len(v as nat, 16);
    }
    while i < 16
        invariant
            i <= 16,
            r@.len() == 16,
            le_bytes(v as nat, 16) == r@.subrange(0, i as int) + le_bytes(rem as nat, (16 - i) as nat),
        decreases 16 - i,
    {
        let ghost before = r@;
        let ghost n: nat = (16 - i) as nat;
        r[i] = (rem % 256) as u8;
        assert(le_bytes(rem as nat, n) == seq![(rem % 256) as u8] + le_bytes(
            rem as nat / 256,
            (n - 1) as nat,
        ));
        assert(r@.subrange(0, i + 1) =~= before.subrange(0, i as int) + seq![(rem % 256) as u8]);
        rem = rem / 256;
        i = i + 1;
        assert(le_bytes(v as nat, 16) =~= r@.subrange(0, i as int) + le_bytes(
            rem as nat,
            (16 - i) as nat,
        ));
    }
    assert(r@.subrange(0, 16) =~= r@);
    assert(le_bytes(rem as nat, 0) =~= Seq::<u8>::empty());
    assert(r@ =~= le_bytes(v as nat, 16));
    r
}

/// The 128-bit value of 16 little-endian bytes (`u128::from_le_bytes`).
pub fn u128_from_le_bytes(b: [u8; 16]) -> (r: u128)
    ensures
        r as nat == le_value(b@),
{
    let mut acc: u128 = 0;
    let mut i: usize = 16;
    proof {
        lemma_byte_bound_16();
        assert(b@.subrange(16, 16) =~= Seq::<u8>::empty());
    }
    while i > 0
        invariant
            i <= 16,
            b@.len() == 16,
            acc as nat == le_value(b@.subrange(i as int, 16)),
            byte_bound(16) == 0x1_0000_0000_0000_0000_0000_0000_0000_0000,
        decreases i,
    {
        let ghost tail = b@.subrange(i - 1, 16);
        proof {
            assert(tail.drop_first() =~= b@.subrange(i as int, 16));
            lemma_le_value_bound(tail);
            lemma_byte_bound_monotonic(tail.len(), 16);
        }
        acc = acc * 256 + b[i - 1] as u128;
        i = i - 1;
    }
    assert(b@.subrange(0, 16) =~= b@);
    acc
}

/// Encoding a 128-bit value to little-endian bytes and decoding them gives the value back.
pub proof fn lemma_u128_le_roundtrip(v: u128)
    ensures
        le_value(le_bytes(v as nat, 16)) == v as nat,
{
    lemma_byte_bound_16();
    lemma_le_value_of_le_bytes(v as nat, 16);
}

} // verus!
