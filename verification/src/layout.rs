//! Little-endian field access over byte buffers.
//!
//! The firmware interface structures are views over raw byte buffers: every field lives
//! at a fixed byte offset and is stored little-endian. This module states what reading
//! and writing a field means on the bytes, and provides the verified primitives that the
//! structure views are built from.
use vstd::prelude::*;
use vstd::bytes::*;

verus! {

broadcast use vstd::seq_lib::group_seq_properties;

/// The byte sequence `s` with the bytes from `off` on overwritten by `part`; the length
/// of `s` is kept.
pub open spec fn splice(s: Seq<u8>, off: int, part: Seq<u8>) -> Seq<u8> {
    s.subrange(0, off) + part + s.subrange(off + part.len(), s.len() as int)
}

/// The little-endian `u16` stored at byte offset `off` of `s`.
pub open spec fn u16_at(s: Seq<u8>, off: int) -> u16 {
    spec_u16_from_le_bytes(s.subrange(off, off + 2))
}

/// The little-endian `u32` stored at byte offset `off` of `s`.
pub open spec fn u32_at(s: Seq<u8>, off: int) -> u32 {
    spec_u32_from_le_bytes(s.subrange(off, off + 4))
}

/// The little-endian `u64` stored at byte offset `off` of `s`.
pub open spec fn u64_at(s: Seq<u8>, off: int) -> u64 {
    spec_u64_from_le_bytes(s.subrange(off, off + 8))
}

/// The `n` consecutive little-endian `u16` values stored from byte offset `off` of `s`.
pub open spec fn u16s_at(s: Seq<u8>, off: int, n: nat) -> Seq<u16> {
    Seq::new(n, |i: int| u16_at(s, off + 2 * i))
}

/// The `n` consecutive little-endian `u32` values stored from byte offset `off` of `s`.
pub open spec fn u32s_at(s: Seq<u8>, off: int, n: nat) -> Seq<u32> {
    Seq::new(n, |i: int| u32_at(s, off + 4 * i))
}

/// The `n` consecutive little-endian `u64` values stored from byte offset `off` of `s`.
pub open spec fn u64s_at(s: Seq<u8>, off: int, n: nat) -> Seq<u64> {
    Seq::new(n, |i: int| u64_at(s, off + 8 * i))
}

/// The little-endian encoding of a sequence of `u16` values, one after the other.
pub open spec fn u16s_to_le(v: Seq<u16>) -> Seq<u8>
    decreases v.len(),
{
    if v.len() == 0 {
        Seq::empty()
    } else {
        u16s_to_le(v.drop_last()) + spec_u16_to_le_bytes(v.last())
    }
}

/// The little-endian encoding of a sequence of `u32` values, one after the other.
pub open spec fn u32s_to_le(v: Seq<u32>) -> Seq<u8>
    decreases v.len(),
{
    if v.len() == 0 {
        Seq::empty()
    } else {
        u32s_to_le(v.drop_last()) + spec_u32_to_le_bytes(v.last())
    }
}

/// The little-endian encoding of a sequence of `u64` values, one after the other.
pub open spec fn u64s_to_le(v: Seq<u64>) -> Seq<u8>
    decreases v.len(),
{
    if v.len() == 0 {
        Seq::empty()
    } else {
        u64s_to_le(v.drop_last()) + spec_u64_to_le_bytes(v.last())
    }
}

// ---------------------------------------------------------------------------------------
// Facts about splicing and encodings.
// ---------------------------------------------------------------------------------------

/// Splicing keeps the length, puts `part` at `off`, and leaves every other byte alone.
pub proof fn lemma_splice(s: Seq<u8>, off: int, part: Seq<u8>)
    requires
        0 <= off,
        off + part.len() <= s.len(),
    ensures
        splice(s, off, part).len() == s.len(),
        splice(s, off, part).subrange(off, off + part.len()) == part,
        forall|j: int|
            0 <= j < s.len() && !(off <= j < off + part.len()) ==> #[trigger] splice(s, off, part)[j]
                == s[j],
        forall|j: int|
            0 <= j < part.len() ==> #[trigger] splice(s, off, part)[off + j] == part[j],
{
    assert(splice(s, off, part).subrange(off, off + part.len()) =~= part);
}

/// Two adjacent splices are one splice of the concatenation.
proof fn lemma_splice_adjacent(s: Seq<u8>, off: int, a: Seq<u8>, b: Seq<u8>)
    requires
        0 <= off,
        off + a.len() + b.len() <= s.len(),
    ensures
        splice(splice(s, off, a), off + a.len(), b) == splice(s, off, a + b),
{
    lemma_splice(s, off, a);
    assert(splice(splice(s, off, a), off + a.len(), b) =~= splice(s, off, a + b));
}

pub proof fn lemma_u16s_to_le_len(v: Seq<u16>)
    ensures
        u16s_to_le(v).len() == 2 * v.len(),
    decreases v.len(),
{
    lemma_auto_spec_u16_to_from_le_bytes();
    if v.len() > 0 {
        lemma_u16s_to_le_len(v.drop_last());
    }
}

pub proof fn lemma_u32s_to_le_len(v: Seq<u32>)
    ensures
        u32s_to_le(v).len() == 4 * v.len(),
    decreases v.len(),
{
    lemma_auto_spec_u32_to_from_le_bytes();
    if v.len() > 0 {
        lemma_u32s_to_le_len(v.drop_last());
    }
}

pub proof fn lemma_u64s_to_le_len(v: Seq<u64>)
    ensures
        u64s_to_le(v).len() == 8 * v.len(),
    decreases v.len(),
{
    lemma_auto_spec_u64_to_from_le_bytes();
    if v.len() > 0 {
        lemma_u64s_to_le_len(v.drop_last());
    }
}

/// Element `i` of an encoded `u16` sequence sits at byte `2 * i`.
proof fn lemma_u16s_to_le_index(v: Seq<u16>, i: int)
    requires
        0 <= i < v.len(),
    ensures
        u16s_to_le(v).len() == 2 * v.len(),
        u16s_to_le(v).subrange(2 * i, 2 * i + 2) == spec_u16_to_le_bytes(v[i]),
    decreases v.len(),
{
    lemma_auto_spec_u16_to_from_le_bytes();
    lemma_u16s_to_le_len(v);
    lemma_u16s_to_le_len(v.drop_last());
    let pre = u16s_to_le(v.drop_last());
    if i < v.len() - 1 {
        lemma_u16s_to_le_index(v.drop_last(), i);
        assert(u16s_to_le(v).subrange(2 * i, 2 * i + 2) =~= pre.subrange(2 * i, 2 * i + 2));
    } else {
        assert(u16s_to_le(v).subrange(2 * i, 2 * i + 2) =~= spec_u16_to_le_bytes(v.last()));
    }
}

/// Element `i` of an encoded `u32` sequence sits at byte `4 * i`.
proof fn lemma_u32s_to_le_index(v: Seq<u32>, i: int)
    requires
        0 <= i < v.len(),
    ensures
        u32s_to_le(v).len() == 4 * v.len(),
        u32s_to_le(v).subrange(4 * i, 4 * i + 4) == spec_u32_to_le_bytes(v[i]),
    decreases v.len(),
{
    lemma_auto_spec_u32_to_from_le_bytes();
    lemma_u32s_to_le_len(v);
    lemma_u32s_to_le_len(v.drop_last());
    let pre = u32s_to_le(v.drop_last());
    if i < v.len() - 1 {
        lemma_u32s_to_le_index(v.drop_last(), i);
        assert(u32s_to_le(v).subrange(4 * i, 4 * i + 4) =~= pre.subrange(4 * i, 4 * i + 4));
    } else {
        assert(u32s_to_le(v).subrange(4 * i, 4 * i + 4) =~= spec_u32_to_le_bytes(v.last()));
    }
}

/// Element `i` of an encoded `u64` sequence sits at byte `8 * i`.
proof fn lemma_u64s_to_le_index(v: Seq<u64>, i: int)
    requires
        0 <= i < v.len(),
    ensures
        u64s_to_le(v).len() == 8 * v.len(),
        u64s_to_le(v).subrange(8 * i, 8 * i + 8) == spec_u64_to_le_bytes(v[i]),
    decreases v.len(),
{
    lemma_auto_spec_u64_to_from_le_bytes();
    lemma_u64s_to_le_len(v);
    lemma_u64s_to_le_len(v.drop_last());
    let pre = u64s_to_le(v.drop_last());
    if i < v.len() - 1 {
        lemma_u64s_to_le_index(v.drop_last(), i);
        assert(u64s_to_le(v).subrange(8 * i, 8 * i + 8) =~= pre.subrange(8 * i, 8 * i + 8));
    } else {
        assert(u64s_to_le(v).subrange(8 * i, 8 * i + 8) =~= spec_u64_to_le_bytes(v.last()));
    }
}

// ---------------------------------------------------------------------------------------
// Laws: what a read gives back of a write, and what a write leaves alone.
// ---------------------------------------------------------------------------------------

/// Reading a `u16` field right after writing `v` to it gives `v` back.
pub proof fn lemma_u16_write_read(s: Seq<u8>, off: int, v: u16)
    requires
        0 <= off,
        off + 2 <= s.len(),
    ensures
        u16_at(splice(s, off, spec_u16_to_le_bytes(v)), off) == v,
        splice(s, off, spec_u16_to_le_bytes(v)).len() == s.len(),
{
    lemma_auto_spec_u16_to_from_le_bytes();
    lemma_splice(s, off, spec_u16_to_le_bytes(v));
}

/// Reading a `u32` field right after writing `v` to it gives `v` back.
pub proof fn lemma_u32_write_read(s: Seq<u8>, off: int, v: u32)
    requires
        0 <= off,
        off + 4 <= s.len(),
    ensures
        u32_at(splice(s, off, spec_u32_to_le_bytes(v)), off) == v,
        splice(s, off, spec_u32_to_le_bytes(v)).len() == s.len(),
{
    lemma_auto_spec_u32_to_from_le_bytes();
    lemma_splice(s, off, spec_u32_to_le_bytes(v));
}

/// Reading a `u64` field right after writing `v` to it gives `v` back.
pub proof fn lemma_u64_write_read(s: Seq<u8>, off: int, v: u64)
    requires
        0 <= off,
        off + 8 <= s.len(),
    ensures
        u64_at(splice(s, off, spec_u64_to_le_bytes(v)), off) == v,
        splice(s, off, spec_u64_to_le_bytes(v)).len() == s.len(),
{
    lemma_auto_spec_u64_to_from_le_bytes();
    lemma_splice(s, off, spec_u64_to_le_bytes(v));
}

/// Writing `part` at `off` leaves a `u32` field at `other` unchanged when the two do not
/// overlap.
pub proof fn lemma_u32_disjoint_write(s: Seq<u8>, off: int, part: Seq<u8>, other: int)
    requires
        0 <= off,
        off + part.len() <= s.len(),
        0 <= other,
        other + 4 <= s.len(),
        other + 4 <= off || off + part.len() <= other,
    ensures
        u32_at(splice(s, off, part), other) == u32_at(s, other),
{
    lemma_splice(s, off, part);
    assert(splice(s, off, part).subrange(other, other + 4) =~= s.subrange(other, other + 4));
}

/// Reading a `u16` array field right after writing `v` to it gives `v` back.
pub proof fn lemma_u16s_write_read(s: Seq<u8>, off: int, v: Seq<u16>)
    requires
        0 <= off,
        off + 2 * v.len() <= s.len(),
    ensures
        u16s_at(splice(s, off, u16s_to_le(v)), off, v.len()) == v,
{
    lemma_u16s_to_le_len(v);
    lemma_auto_spec_u16_to_from_le_bytes();
    let t = splice(s, off, u16s_to_le(v));
    lemma_splice(s, off, u16s_to_le(v));
    assert forall|i: int| 0 <= i < v.len() implies #[trigger] u16_at(t, off + 2 * i) == v[i] by {
        lemma_u16s_to_le_index(v, i);
        assert(t.subrange(off + 2 * i, off + 2 * i + 2) =~= u16s_to_le(v).subrange(
            2 * i,
            2 * i + 2,
        ));
    }
    assert(u16s_at(t, off, v.len()) =~= v);
}

/// The encoding of a sequence of `u16` values decodes back to the values.
pub proof fn lemma_u16s_to_le_decode(v: Seq<u16>)
    ensures
        u16s_to_le(v).len() == 2 * v.len(),
        u16s_at(u16s_to_le(v), 0, v.len()) == v,
{
    lemma_u16s_to_le_len(v);
    let e = u16s_to_le(v);
    lemma_u16s_write_read(e, 0, v);
    assert(splice(e, 0, e) =~= e);
}

/// Reading a `u32` array field right after writing `v` to it gives `v` back.
pub proof fn lemma_u32s_write_read(s: Seq<u8>, off: int, v: Seq<u32>)
    requires
        0 <= off,
        off + 4 * v.len() <= s.len(),
    ensures
        u32s_at(splice(s, off, u32s_to_le(v)), off, v.len()) == v,
{
    lemma_u32s_to_le_len(v);
    lemma_auto_spec_u32_to_from_le_bytes();
    let t = splice(s, off, u32s_to_le(v));
    lemma_splice(s, off, u32s_to_le(v));
    assert forall|i: int| 0 <= i < v.len() implies #[trigger] u32_at(t, off + 4 * i) == v[i] by {
        lemma_u32s_to_le_index(v, i);
        assert(t.subrange(off + 4 * i, off + 4 * i + 4) =~= u32s_to_le(v).subrange(
            4 * i,
            4 * i + 4,
        ));
    }
    assert(u32s_at(t, off, v.len()) =~= v);
}

/// The encoding of a sequence of `u32` values decodes back to the values.
pub proof fn lemma_u32s_to_le_decode(v: Seq<u32>)
    ensures
        u32s_to_le(v).len() == 4 * v.len(),
        u32s_at(u32s_to_le(v), 0, v.len()) == v,
{
    lemma_u32s_to_le_len(v);
    let e = u32s_to_le(v);
    lemma_u32s_write_read(e, 0, v);
    assert(splice(e, 0, e) =~= e);
}

/// Reading a `u64` array field right after writing `v` to it gives `v` back.
pub proof fn lemma_u64s_write_read(s: Seq<u8>, off: int, v: Seq<u64>)
    requires
        0 <= off,
        off + 8 * v.len() <= s.len(),
    ensures
        u64s_at(splice(s, off, u64s_to_le(v)), off, v.len()) == v,
{
    lemma_u64s_to_le_len(v);
    lemma_auto_spec_u64_to_from_le_bytes();
    let t = splice(s, off, u64s_to_le(v));
    lemma_splice(s, off, u64s_to_le(v));
    assert forall|i: int| 0 <= i < v.len() implies #[trigger] u64_at(t, off + 8 * i) == v[i] by {
        lemma_u64s_to_le_index(v, i);
        assert(t.subrange(off + 8 * i, off + 8 * i + 8) =~= u64s_to_le(v).subrange(
            8 * i,
            8 * i + 8,
        ));
    }
    assert(u64s_at(t, off, v.len()) =~= v);
}

/// The encoding of a sequence of `u64` values decodes back to the values.
pub proof fn lemma_u64s_to_le_decode(v: Seq<u64>)
    ensures
        u64s_to_le(v).len() == 8 * v.len(),
        u64s_at(u64s_to_le(v), 0, v.len()) == v,
{
    lemma_u64s_to_le_len(v);
    let e = u64s_to_le(v);
    lemma_u64s_write_read(e, 0, v);
    assert(splice(e, 0, e) =~= e);
}

// ---------------------------------------------------------------------------------------
// Executable primitives.
// ---------------------------------------------------------------------------------------

/// Overwrites `s` from byte `off` on with `part`.
pub fn write_bytes(s: &mut [u8], off: usize, part: &[u8])
    requires
        off + part@.len() <= old(s)@.len(),
    ensures
        final(s)@ == splice(old(s)@, off as int, part@),
        final(s)@.len() == old(s)@.len(),
{
    let n = part.len();
    let mut i: usize = 0;
    while i < n
        invariant
            n == part@.len(),
            off + n <= s@.len(),
            s@.len() == old(s)@.len(),
            s@.len() == s.len(),
            0 <= i <= n,
            s@ == splice(old(s)@, off as int, part@.subrange(0, i as int)),
        decreases n - i,
    {
        proof {
            lemma_splice(old(s)@, off as int, part@.subrange(0, i as int));
        }
        s[off + i] = part[i];
        i = i + 1;
        proof {
            assert(s@.len() == s.len());
        }
        proof {
            assert(s@ =~= splice(old(s)@, off as int, part@.subrange(0, i as int)));
        }
    }
    proof {
        assert(part@.subrange(0, n as int) =~= part@);
    }
}

/// Reads the byte at offset `off`.
pub fn read_u8(s: &[u8], off: usize) -> (r: u8)
    requires
        off < s@.len(),
    ensures
        r == s@[off as int],
{
    s[off]
}

/// Reads the little-endian `u16` at offset `off`.
pub fn read_u16(s: &[u8], off: usize) -> (r: u16)
    requires
        off + 2 <= s@.len(),
    ensures
        r == u16_at(s@, off as int),
{
    proof {
        assert(s@.len() == s.len());
    }
    u16_from_le_bytes(vstd::slice::slice_subrange(s, off, off + 2))
}

/// Reads the little-endian `u32` at offset `off`.
pub fn read_u32(s: &[u8], off: usize) -> (r: u32)
    requires
        off + 4 <= s@.len(),
    ensures
        r == u32_at(s@, off as int),
{
    proof {
        assert(s@.len() == s.len());
    }
    u32_from_le_bytes(vstd::slice::slice_subrange(s, off, off + 4))
}

/// Reads the little-endian `u64` at offset `off`.
pub fn read_u64(s: &[u8], off: usize) -> (r: u64)
    requires
        off + 8 <= s@.len(),
    ensures
        r == u64_at(s@, off as int),
{
    proof {
        assert(s@.len() == s.len());
    }
    u64_from_le_bytes(vstd::slice::slice_subrange(s, off, off + 8))
}

/// Writes the byte `v` at offset `off`.
pub fn write_u8(s: &mut [u8], off: usize, v: u8)
    requires
        off < old(s)@.len(),
    ensures
        final(s)@ == splice(old(s)@, off as int, seq![v]),
        final(s)@.len() == old(s)@.len(),
{
    s[off] = v;
    proof {
        assert(s@ =~= splice(old(s)@, off as int, seq![v]));
    }
}

/// Writes `v` little-endian at offset `off`.
pub fn write_u16(s: &mut [u8], off: usize, v: u16)
    requires
        off + 2 <= old(s)@.len(),
    ensures
        final(s)@ == splice(old(s)@, off as int, spec_u16_to_le_bytes(v)),
        final(s)@.len() == old(s)@.len(),
{
    proof {
        lemma_auto_spec_u16_to_from_le_bytes();
    }
    let b = u16_to_le_bytes(v);
    write_bytes(s, off, b.as_slice());
}

/// Writes `v` little-endian at offset `off`.
pub fn write_u32(s: &mut [u8], off: usize, v: u32)
    requires
        off + 4 <= old(s)@.len(),
    ensures
        final(s)@ == splice(old(s)@, off as int, spec_u32_to_le_bytes(v)),
        final(s)@.len() == old(s)@.len(),
{
    proof {
        lemma_auto_spec_u32_to_from_le_bytes();
    }
    let b = u32_to_le_bytes(v);
    write_bytes(s, off, b.as_slice());
}

/// Writes `v` little-endian at offset `off`.
pub fn write_u64(s: &mut [u8], off: usize, v: u64)
    requires
        off + 8 <= old(s)@.len(),
    ensures
        final(s)@ == splice(old(s)@, off as int, spec_u64_to_le_bytes(v)),
        final(s)@.len() == old(s)@.len(),
{
    proof {
        lemma_auto_spec_u64_to_from_le_bytes();
    }
    let b = u64_to_le_bytes(v);
    write_bytes(s, off, b.as_slice());
}

/// Reads `N` consecutive little-endian `u16` values starting at offset `off`.
pub fn read_u16s<const N: usize>(s: &[u8], off: usize) -> (r: [u16; N])
    requires
        off + 2 * N <= s@.len(),
    ensures
        r@ == u16s_at(s@, off as int, N as nat),
{
    proof {
        assert(s@.len() == s.len());
    }
    let mut a: [u16; N] = vstd::array::array_fill_for_copy_types(0u16);
    let mut i: usize = 0;
    while i < N
        invariant
            off + 2 * N <= s@.len(),
            s@.len() == s.len(),
            0 <= i <= N,
            a@.len() == N,
            forall|j: int| 0 <= j < i ==> a@[j] == u16_at(s@, off + 2 * j),
        decreases N - i,
    {
        let v = read_u16(s, off + 2 * i);
        a[i] = v;
        i = i + 1;
    }
    proof {
        assert(a@ =~= u16s_at(s@, off as int, N as nat));
    }
    a
}

/// Writes the values of `a` little-endian, one after the other, from offset `off` on.
pub fn write_u16s<const N: usize>(s: &mut [u8], off: usize, a: &[u16; N])
    requires
        off + 2 * N <= old(s)@.len(),
    ensures
        final(s)@ == splice(old(s)@, off as int, u16s_to_le(a@)),
        final(s)@.len() == old(s)@.len(),
{
    proof {
        assert(s@.len() == s.len());
        assert(a@.len() == N);
    }
    let mut i: usize = 0;
    while i < N
        invariant
            off + 2 * N <= old(s)@.len(),
            old(s)@.len() == s@.len(),
            s@.len() == s.len(),
            a@.len() == N,
            0 <= i <= N,
            s@ == splice(old(s)@, off as int, u16s_to_le(a@.take(i as int))),
        decreases N - i,
    {
        proof {
            lemma_u16s_to_le_len(a@.take(i as int));
            lemma_splice(old(s)@, off as int, u16s_to_le(a@.take(i as int)));
        }
        write_u16(s, off + 2 * i, a[i]);
        proof {
            lemma_auto_spec_u16_to_from_le_bytes();
            let x = u16s_to_le(a@.take(i as int));
            lemma_splice_adjacent(old(s)@, off as int, x, spec_u16_to_le_bytes(a@[i as int]));
            assert(a@.take(i + 1).drop_last() =~= a@.take(i as int));
            lemma_u16s_to_le_len(a@.take(i + 1));
            lemma_splice(old(s)@, off as int, u16s_to_le(a@.take(i + 1)));
        }
        i = i + 1;
        proof {
            assert(s@.len() == s.len());
        }
    }
    proof {
        assert(a@.take(N as int) =~= a@);
        lemma_u16s_to_le_len(a@);
    }
}

/// Reads `N` consecutive little-endian `u32` values starting at offset `off`.
pub fn read_u32s<const N: usize>(s: &[u8], off: usize) -> (r: [u32; N])
    requires
        off + 4 * N <= s@.len(),
    ensures
        r@ == u32s_at(s@, off as int, N as nat),
{
    proof {
        assert(s@.len() == s.len());
    }
    let mut a: [u32; N] = vstd::array::array_fill_for_copy_types(0u32);
    let mut i: usize = 0;
    while i < N
        invariant
            off + 4 * N <= s@.len(),
            s@.len() == s.len(),
            0 <= i <= N,
            a@.len() == N,
            forall|j: int| 0 <= j < i ==> a@[j] == u32_at(s@, off + 4 * j),
        decreases N - i,
    {
        let v = read_u32(s, off + 4 * i);
        a[i] = v;
        i = i + 1;
    }
    proof {
        assert(a@ =~= u32s_at(s@, off as int, N as nat));
    }
    a
}

/// Writes the values of `a` little-endian, one after the other, from offset `off` on.
pub fn write_u32s<const N: usize>(s: &mut [u8], off: usize, a: &[u32; N])
    requires
        off + 4 * N <= old(s)@.len(),
    ensures
        final(s)@ == splice(old(s)@, off as int, u32s_to_le(a@)),
        final(s)@.len() == old(s)@.len(),
{
    proof {
        assert(s@.len() == s.len());
        assert(a@.len() == N);
    }
    let mut i: usize = 0;
    while i < N
        invariant
            off + 4 * N <= old(s)@.len(),
            old(s)@.len() == s@.len(),
            s@.len() == s.len(),
            a@.len() == N,
            0 <= i <= N,
            s@ == splice(old(s)@, off as int, u32s_to_le(a@.take(i as int))),
        decreases N - i,
    {
        proof {
            lemma_u32s_to_le_len(a@.take(i as int));
            lemma_splice(old(s)@, off as int, u32s_to_le(a@.take(i as int)));
        }
        write_u32(s, off + 4 * i, a[i]);
        proof {
            lemma_auto_spec_u32_to_from_le_bytes();
            let x = u32s_to_le(a@.take(i as int));
            lemma_splice_adjacent(old(s)@, off as int, x, spec_u32_to_le_bytes(a@[i as int]));
            assert(a@.take(i + 1).drop_last() =~= a@.take(i as int));
            lemma_u32s_to_le_len(a@.take(i + 1));
            lemma_splice(old(s)@, off as int, u32s_to_le(a@.take(i + 1)));
        }
        i = i + 1;
        proof {
            assert(s@.len() == s.len());
        }
    }
    proof {
        assert(a@.take(N as int) =~= a@);
        lemma_u32s_to_le_len(a@);
    }
}

/// Reads `N` consecutive little-endian `u64` values starting at offset `off`.
pub fn read_u64s<const N: usize>(s: &[u8], off: usize) -> (r: [u64; N])
    requires
        off + 8 * N <= s@.len(),
    ensures
        r@ == u64s_at(s@, off as int, N as nat),
{
    proof {
        assert(s@.len() == s.len());
    }
    let mut a: [u64; N] = vstd::array::array_fill_for_copy_types(0u64);
    let mut i: usize = 0;
    while i < N
        invariant
            off + 8 * N <= s@.len(),
            s@.len() == s.len(),
            0 <= i <= N,
            a@.len() == N,
            forall|j: int| 0 <= j < i ==> a@[j] == u64_at(s@, off + 8 * j),
        decreases N - i,
    {
        let v = read_u64(s, off + 8 * i);
        a[i] = v;
        i = i + 1;
    }
    proof {
        assert(a@ =~= u64s_at(s@, off as int, N as nat));
    }
    a
}

/// Writes the values of `a` little-endian, one after the other, from offset `off` on.
pub fn write_u64s<const N: usize>(s: &mut [u8], off: usize, a: &[u64; N])
    requires
        off + 8 * N <= old(s)@.len(),
    ensures
        final(s)@ == splice(old(s)@, off as int, u64s_to_le(a@)),
        final(s)@.len() == old(s)@.len(),
{
    proof {
        assert(s@.len() == s.len());
        assert(a@.len() == N);
    }
    let mut i: usize = 0;
    while i < N
        invariant
            off + 8 * N <= old(s)@.len(),
            old(s)@.len() == s@.len(),
            s@.len() == s.len(),
            a@.len() == N,
            0 <= i <= N,
            s@ == splice(old(s)@, off as int, u64s_to_le(a@.take(i as int))),
        decreases N - i,
    {
        proof {
            lemma_u64s_to_le_len(a@.take(i as int));
            lemma_splice(old(s)@, off as int, u64s_to_le(a@.take(i as int)));
        }
        write_u64(s, off + 8 * i, a[i]);
        proof {
            lemma_auto_spec_u64_to_from_le_bytes();
            let x = u64s_to_le(a@.take(i as int));
            lemma_splice_adjacent(old(s)@, off as int, x, spec_u64_to_le_bytes(a@[i as int]));
            assert(a@.take(i + 1).drop_last() =~= a@.take(i as int));
            lemma_u64s_to_le_len(a@.take(i + 1));
            lemma_splice(old(s)@, off as int, u64s_to_le(a@.take(i + 1)));
        }
        i = i + 1;
        proof {
            assert(s@.len() == s.len());
        }
    }
    proof {
        assert(a@.take(N as int) =~= a@);
        lemma_u64s_to_le_len(a@);
    }
}

/// Reads the `N` bytes starting at offset `off`.
pub fn read_u8s<const N: usize>(s: &[u8], off: usize) -> (r: [u8; N])
    requires
        off + N <= s@.len(),
    ensures
        r@ == s@.subrange(off as int, off + N),
{
    proof {
        assert(s@.len() == s.len());
    }
    let mut a: [u8; N] = vstd::array::array_fill_for_copy_types(0u8);
    let mut i: usize = 0;
    while i < N
        invariant
            off + N <= s@.len(),
            s@.len() == s.len(),
            0 <= i <= N,
            a@.len() == N,
            forall|j: int| 0 <= j < i ==> a@[j] == s@[off + j],
        decreases N - i,
    {
        a[i] = s[off + i];
        i = i + 1;
    }
    proof {
        assert(a@ =~= s@.subrange(off as int, off + N));
    }
    a
}

/// Writes the bytes of `a` from offset `off` on.
pub fn write_u8s<const N: usize>(s: &mut [u8], off: usize, a: &[u8; N])
    requires
        off + N <= old(s)@.len(),
    ensures
        final(s)@ == splice(old(s)@, off as int, a@),
        final(s)@.len() == old(s)@.len(),
{
    proof {
        assert(a@.len() == N);
    }
    write_bytes(s, off, a.as_slice());
}

} // verus!
