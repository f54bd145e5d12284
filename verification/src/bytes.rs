//! Byte-level helpers: comparison, bounds-checked windows and little-endian
//! integers.

use vstd::prelude::*;

verus! {

/// The 16-bit value whose little-endian encoding is `lo`, `hi`.
pub open spec fn le_u16(lo: u8, hi: u8) -> int {
    lo as int + 256 * (hi as int)
}

/// The first `n` little-endian bytes of `x`, least significant first.
pub open spec fn le_bytes(x: nat, n: nat) -> Seq<u8>
    decreases n,
{
    if n == 0 {
        Seq::empty()
    } else {
        seq![(x % 256) as u8] + le_bytes(x / 256, (n - 1) as nat)
    }
}

/// Whether `x` can be written in `n` bytes.
pub open spec fn fits_in_bytes(x: nat, n: nat) -> bool
    decreases n,
{
    if n == 0 {
        x == 0
    } else {
        fits_in_bytes(x / 256, (n - 1) as nat)
    }
}

/// Whether the window of `len` bytes at `offset` lies inside `total` bytes.
pub open spec fn window_in_bounds(total: int, offset: int, len: int) -> bool {
    0 <= offset && 0 <= len && offset + len <= total
}

pub proof fn lemma_le_bytes_len(x: nat, n: nat)
    ensures
        le_bytes(x, n).len() == n,
    decreases n,
{
    if n > 0 {
        lemma_le_bytes_len(x / 256, (n - 1) as nat);
    }
}

/// Two numbers that fit in `n` bytes and encode alike are the same number.
pub proof fn lemma_le_bytes_injective(x: nat, y: nat, n: nat)
    requires
        fits_in_bytes(x, n),
        fits_in_bytes(y, n),
        le_bytes(x, n) == le_bytes(y, n),
    ensures
        x == y,
    decreases n,
{
    if n > 0 {
        let m = (n - 1) as nat;
        let tx = le_bytes(x / 256, m);
        let ty = le_bytes(y / 256, m);
        let hx = seq![(x % 256) as u8];
        let hy = seq![(y % 256) as u8];
        assert(le_bytes(x, n) == hx + tx);
        assert(le_bytes(y, n) == hy + ty);
        assert((hx + tx)[0] == (x % 256) as u8);
        assert((hy + ty)[0] == (y % 256) as u8);
        assert(x % 256 == y % 256);
        assert((hx + tx).subrange(1, (hx + tx).len() as int) =~= tx);
        assert((hy + ty).subrange(1, (hy + ty).len() as int) =~= ty);
        assert(tx == ty);
        lemma_le_bytes_injective(x / 256, y / 256, m);
    }
}

/// Every `u64` fits in eight bytes.
pub proof fn lemma_u64_fits(x: u64)
    ensures
        fits_in_bytes(x as nat, 8),
{
    reveal_with_fuel(fits_in_bytes, 9);
}

/// Byte-for-byte equality of two slices.
pub fn bytes_equal(a: &[u8], b: &[u8]) -> (same: bool)
    ensures
        same == (a@ == b@),
{
    if a.len() != b.len() {
        return false;
    }
    let mut i: usize = 0;
    while i < a.len()
        invariant
            a@.len() == b@.len(),
            i <= a@.len(),
            forall|k: int| 0 <= k < i ==> a@[k] == b@[k],
        decreases a@.len() - i,
    {
        if a[i] != b[i] {
            return false;
        }
        i += 1;
    }
    assert(a@ =~= b@);
    true
}

/// The `len` bytes of `data` that start at `offset`, or `None` when that
/// window would reach past the end of `data`.
pub fn window(data: &[u8], offset: usize, len: usize) -> (out: Option<&[u8]>)
    ensures
        out is Some <==> window_in_bounds(data@.len() as int, offset as int, len as int),
        out matches Some(w) ==> w@ == data@.subrange(offset as int, offset + len),
{
    if offset > data.len() || len > data.len() - offset {
        None
    } else {
        Some(vstd::slice::slice_subrange(data, offset, offset + len))
    }
}

/// Reads the little-endian `u16` stored at `data[at]`, `data[at + 1]`.
pub fn read_u16_le(data: &[u8], at: usize) -> (value: u16)
    requires
        at + 2 <= data@.len(),
    ensures
        value as int == le_u16(data@[at as int], data@[at + 1]),
{
    let lo: u16 = data[at] as u16;
    let hi: u16 = data[at + 1] as u16;
    lo + 256 * hi
}

/// Appends the eight little-endian bytes of `x` to `out`.
pub fn push_u64_le(out: &mut Vec<u8>, x: u64)
    ensures
        final(out)@ == old(out)@ + le_bytes(x as nat, 8),
{
    let ghost start = out@;
    let mut rest: u64 = x;
    let mut i: usize = 0;
    while i < 8
        invariant
            i <= 8,
            out@ + le_bytes(rest as nat, (8 - i) as nat) == start + le_bytes(x as nat, 8),
        decreases 8 - i,
    {
        let ghost before = out@;
        let low: u8 = (rest % 256) as u8;
        out.push(low);
        proof {
            let n = (8 - i) as nat;
            let tail = le_bytes((rest / 256) as nat, (n - 1) as nat);
            assert(le_bytes(rest as nat, n) == seq![low] + tail);
            assert(before.push(low) + tail =~= before + (seq![low] + tail));
        }
        rest = rest / 256;
        i += 1;
    }
    assert(le_bytes(rest as nat, 0) =~= Seq::<u8>::empty());
    assert(out@ + Seq::<u8>::empty() =~= out@);
}

} // verus!
