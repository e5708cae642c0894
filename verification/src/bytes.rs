//! Big-endian access to mirrored byte windows.
//!
//! Every device of the memory map is a window of bytes that repeats over the
//! address range it answers to. An offset is therefore always taken modulo the
//! size of its window, byte by byte, also within one word or long word.

use vstd::prelude::*;

verus! {

/// The 16-bit value whose big-endian bytes are `hi` and `lo`.
pub open spec fn be16(hi: u8, lo: u8) -> u16 {
    (hi * 0x100 + lo) as u16
}

/// The 32-bit value with the given big-endian bytes.
pub open spec fn be32(b0: u8, b1: u8, b2: u8, b3: u8) -> u32 {
    (b0 * 0x100_0000 + b1 * 0x1_0000 + b2 * 0x100 + b3) as u32
}

/// Byte `i` of a 16-bit value, 0 being the most significant.
pub open spec fn byte16(val: u16, i: int) -> u8 {
    if i == 0 {
        (val / 0x100) as u8
    } else {
        (val % 0x100) as u8
    }
}

/// Byte `i` of a 32-bit value, 0 being the most significant.
pub open spec fn byte32(val: u32, i: int) -> u8 {
    if i == 0 {
        (val / 0x100_0000) as u8
    } else if i == 1 {
        (val / 0x1_0000 % 0x100) as u8
    } else if i == 2 {
        (val / 0x100 % 0x100) as u8
    } else {
        (val % 0x100) as u8
    }
}

/// The byte at `off` of a window of `size` bytes.
pub open spec fn rd8(s: Seq<u8>, off: int, size: int) -> u8 {
    s[off % size]
}

/// The big-endian word at `off` of a window of `size` bytes.
pub open spec fn rd16(s: Seq<u8>, off: int, size: int) -> u16 {
    be16(rd8(s, off, size), rd8(s, off + 1, size))
}

/// The big-endian long word at `off` of a window of `size` bytes.
pub open spec fn rd32(s: Seq<u8>, off: int, size: int) -> u32 {
    be32(
        rd8(s, off, size),
        rd8(s, off + 1, size),
        rd8(s, off + 2, size),
        rd8(s, off + 3, size),
    )
}

/// The window after a byte store.
pub open spec fn wr8(s: Seq<u8>, off: int, size: int, val: u8) -> Seq<u8> {
    s.update(off % size, val)
}

/// The window after a word store.
pub open spec fn wr16(s: Seq<u8>, off: int, size: int, val: u16) -> Seq<u8> {
    wr8(wr8(s, off, size, byte16(val, 0)), off + 1, size, byte16(val, 1))
}

/// The window after a long word store.
pub open spec fn wr32(s: Seq<u8>, off: int, size: int, val: u32) -> Seq<u8> {
    wr8(
        wr8(
            wr8(wr8(s, off, size, byte32(val, 0)), off + 1, size, byte32(val, 1)),
            off + 2,
            size,
            byte32(val, 2),
        ),
        off + 3,
        size,
        byte32(val, 3),
    )
}

/// The 16-bit value whose big-endian bytes are `hi` and `lo`.
pub fn from_be16(hi: u8, lo: u8) -> (r: u16)
    ensures
        r == be16(hi, lo),
{
    (hi as u16) * 0x100 + (lo as u16)
}

/// The 32-bit value with the given big-endian bytes.
pub fn from_be32(b0: u8, b1: u8, b2: u8, b3: u8) -> (r: u32)
    ensures
        r == be32(b0, b1, b2, b3),
{
    (b0 as u32) * 0x100_0000 + (b1 as u32) * 0x1_0000 + (b2 as u32) * 0x100 + (b3 as u32)
}

/// The byte at `off` of a mirrored window.
pub fn get8(v: &Vec<u8>, off: usize, size: usize) -> (r: u8)
    requires
        0 < size <= v.len(),
    ensures
        r == rd8(v@, off as int, size as int),
{
    v[off % size]
}

/// The word at `off` of a mirrored window.
pub fn get16(v: &Vec<u8>, off: usize, size: usize) -> (r: u16)
    requires
        0 < size <= v.len(),
        off <= 0x1000_0000,
    ensures
        r == rd16(v@, off as int, size as int),
{
    from_be16(v[off % size], v[(off + 1) % size])
}

/// The long word at `off` of a mirrored window.
pub fn get32(v: &Vec<u8>, off: usize, size: usize) -> (r: u32)
    requires
        0 < size <= v.len(),
        off <= 0x1000_0000,
    ensures
        r == rd32(v@, off as int, size as int),
{
    from_be32(v[off % size], v[(off + 1) % size], v[(off + 2) % size], v[(off + 3) % size])
}

/// Store a byte at `off` of a mirrored window.
pub fn put8(v: &mut Vec<u8>, off: usize, size: usize, val: u8)
    requires
        0 < size <= old(v).len(),
    ensures
        final(v)@ == wr8(old(v)@, off as int, size as int, val),
{
    let i: usize = off % size;
    v[i] = val;
}

/// Store a word at `off` of a mirrored window.
pub fn put16(v: &mut Vec<u8>, off: usize, size: usize, val: u16)
    requires
        0 < size <= old(v).len(),
        off <= 0x1000_0000,
    ensures
        final(v)@ == wr16(old(v)@, off as int, size as int, val),
{
    put8(v, off, size, (val / 0x100) as u8);
    put8(v, off + 1, size, (val % 0x100) as u8);
}

/// Store a long word at `off` of a mirrored window.
pub fn put32(v: &mut Vec<u8>, off: usize, size: usize, val: u32)
    requires
        0 < size <= old(v).len(),
        off <= 0x1000_0000,
    ensures
        final(v)@ == wr32(old(v)@, off as int, size as int, val),
{
    put8(v, off, size, (val / 0x100_0000) as u8);
    put8(v, off + 1, size, (val / 0x1_0000 % 0x100) as u8);
    put8(v, off + 2, size, (val / 0x100 % 0x100) as u8);
    put8(v, off + 3, size, (val % 0x100) as u8);
}

/// `n` zero bytes.
pub open spec fn zeros(n: nat) -> Seq<u8> {
    Seq::new(n, |i: int| 0u8)
}

/// A vector of `n` zero bytes.
pub fn zeroed(n: usize) -> (r: Vec<u8>)
    ensures
        r@ == zeros(n as nat),
{
    let r: Vec<u8> = vec![0; n];
    assert(r@ =~= zeros(n as nat));
    r
}

/// Set every byte of `v` to zero.
pub fn clear(v: &mut Vec<u8>)
    ensures
        final(v)@ == zeros(old(v)@.len()),
{
    let n: usize = v.len();
    let mut i: usize = 0;
    while i < n
        invariant
            i <= n,
            v@.len() == n,
            n == old(v)@.len(),
            forall|k: int| 0 <= k < i ==> v@[k] == 0,
        decreases n - i,
    {
        v[i] = 0;
        i += 1;
    }
    assert(v@ =~= zeros(n as nat));
}

/// A shift to the right never makes a value larger.
pub broadcast proof fn shr_u32_bound(x: u32, n: u32)
    ensures
        #[trigger] (x >> n) <= x,
{
    assert(x >> n <= x) by (bit_vector);
}

/// Composing the bytes of a word gives the word back.
pub proof fn word_bytes_round_trip(val: u16)
    ensures
        be16(byte16(val, 0), byte16(val, 1)) == val,
{
}

/// Composing the bytes of a long word gives the long word back.
pub proof fn long_bytes_round_trip(val: u32)
    ensures
        be32(byte32(val, 0), byte32(val, 1), byte32(val, 2), byte32(val, 3)) == val,
{
}

/// The bytes of a composed word are those it was composed of.
pub proof fn word_has_its_bytes(hi: u8, lo: u8)
    ensures
        byte16(be16(hi, lo), 0) == hi,
        byte16(be16(hi, lo), 1) == lo,
{
}

/// The bytes of a composed long word are those it was composed of.
pub proof fn long_has_its_bytes(b0: u8, b1: u8, b2: u8, b3: u8)
    ensures
        byte32(be32(b0, b1, b2, b3), 0) == b0,
        byte32(be32(b0, b1, b2, b3), 1) == b1,
        byte32(be32(b0, b1, b2, b3), 2) == b2,
        byte32(be32(b0, b1, b2, b3), 3) == b3,
{
}

/// Offsets less than a window's size apart fall on different bytes.
proof fn distinct_in_window(off: int, i: int, j: int, size: int)
    requires
        0 <= off,
        0 <= i < j < size,
        size > 0,
    ensures
        (off + i) % size != (off + j) % size,
        0 <= (off + i) % size < size,
        0 <= (off + j) % size < size,
{
    vstd::arithmetic::div_mod::lemma_fundamental_div_mod(off + i, size);
    vstd::arithmetic::div_mod::lemma_fundamental_div_mod(off + j, size);
    let qi = (off + i) / size;
    let qj = (off + j) / size;
    if (off + i) % size == (off + j) % size {
        assert((j - i) == size * (qj - qi)) by (nonlinear_arith)
            requires
                off + i == size * qi + (off + i) % size,
                off + j == size * qj + (off + j) % size,
                (off + i) % size == (off + j) % size,
        ;
        assert(false) by (nonlinear_arith)
            requires
                0 < j - i < size,
                j - i == size * (qj - qi),
        ;
    }
}

/// A byte read gives back what a byte store at the same offset wrote, and a
/// store of one byte leaves every other byte of the window as it was.
pub proof fn byte_store_then_load(s: Seq<u8>, off: int, size: int, val: u8)
    requires
        0 <= off,
        0 < size <= s.len(),
    ensures
        rd8(wr8(s, off, size, val), off, size) == val,
        forall|k: int|
            0 <= k < s.len() && k != off % size ==> wr8(s, off, size, val)[k] == s[k],
        wr8(s, off, size, val).len() == s.len(),
{
    vstd::arithmetic::div_mod::lemma_mod_bound(off, size);
}

/// A word read gives back what a word store at the same offset wrote, in every
/// window of at least two bytes, also where the word wraps around its end.
pub proof fn word_store_then_load(s: Seq<u8>, off: int, size: int, val: u16)
    requires
        0 <= off,
        2 <= size <= s.len(),
    ensures
        rd16(wr16(s, off, size, val), off, size) == val,
        wr16(s, off, size, val).len() == s.len(),
{
    distinct_in_window(off, 0, 1, size);
    word_bytes_round_trip(val);
}

/// A long word read gives back what a long word store at the same offset wrote,
/// in every window of at least four bytes.
pub proof fn long_store_then_load(s: Seq<u8>, off: int, size: int, val: u32)
    requires
        0 <= off,
        4 <= size <= s.len(),
    ensures
        rd32(wr32(s, off, size, val), off, size) == val,
        wr32(s, off, size, val).len() == s.len(),
{
    distinct_in_window(off, 0, 1, size);
    distinct_in_window(off, 0, 2, size);
    distinct_in_window(off, 0, 3, size);
    distinct_in_window(off, 1, 2, size);
    distinct_in_window(off, 1, 3, size);
    distinct_in_window(off, 2, 3, size);
    long_bytes_round_trip(val);
}

/// A long word store leaves the long word behind it as it was.
pub proof fn long_store_keeps_the_next(s: Seq<u8>, off: int, size: int, val: u32)
    requires
        0 <= off,
        8 <= size <= s.len(),
    ensures
        rd32(wr32(s, off, size, val), off + 4, size) == rd32(s, off + 4, size),
{
    distinct_in_window(off, 0, 4, size);
    distinct_in_window(off, 0, 5, size);
    distinct_in_window(off, 0, 6, size);
    distinct_in_window(off, 0, 7, size);
    distinct_in_window(off, 1, 4, size);
    distinct_in_window(off, 1, 5, size);
    distinct_in_window(off, 1, 6, size);
    distinct_in_window(off, 1, 7, size);
    distinct_in_window(off, 2, 4, size);
    distinct_in_window(off, 2, 5, size);
    distinct_in_window(off, 2, 6, size);
    distinct_in_window(off, 2, 7, size);
    distinct_in_window(off, 3, 4, size);
    distinct_in_window(off, 3, 5, size);
    distinct_in_window(off, 3, 6, size);
    distinct_in_window(off, 3, 7, size);
}

/// A window repeats: offsets that differ by its size read the same byte.
pub proof fn window_repeats(s: Seq<u8>, off: int, size: int)
    requires
        0 <= off,
        0 < size <= s.len(),
    ensures
        rd8(s, off + size, size) == rd8(s, off, size),
{
    vstd::arithmetic::div_mod::lemma_mod_add_multiples_vanish(off, size);
}

} // verus!
