//! What holds of the transfers of the on-chip DMA controller.

use crate::bytes::{be16, be32, byte16, byte32, long_has_its_bytes, word_has_its_bytes};
use crate::sh2::bus::{after_read16, after_read32, after_read8, read16, read32, read8, BusView};
use crate::sh2::flow_laws::{apart, behind, behind_is_ok, cell_store};
use crate::sh2::laws::{cell, memories_wf, regions_are_ok};
use crate::sh2::ram::{mem_read16, mem_read32, mem_read8, mem_write16, mem_write32};
use crate::sh2::region::{region_of, region_ok, MemRegion};
use crate::sh2::store::{
    channel, channel_ended, device_store16, device_store32, dma_move, dma_transfer, dma_units,
    sat_add, unit_cost, unit_moved, unit_size, unit_stride, with_channel, DmaChannel,
};
use crate::shared_buffers::Memory;
use vstd::prelude::*;

verus! {

/// The place some bytes further on in Work RAM or video memory.
pub open spec fn further(g: MemRegion, i: int) -> MemRegion {
    match g {
        MemRegion::LowRam(off) => MemRegion::LowRam((off + i) as usize),
        MemRegion::HighRam(off) => MemRegion::HighRam((off + i) as usize),
        MemRegion::Vdp1Vram(off) => MemRegion::Vdp1Vram((off + i) as usize),
        MemRegion::Vdp1Framebuffer(off) => MemRegion::Vdp1Framebuffer((off + i) as usize),
        MemRegion::Vdp2Vram(off) => MemRegion::Vdp2Vram((off + i) as usize),
        _ => g,
    }
}

/// Memories begin and end on the long word grid, so that an aligned unit lies in one.
#[verifier::spinoff_prover]
#[verifier::rlimit(60)]
proof fn unit_lies_in_one_memory(a: u32, u: int, i: int)
    requires
        u == 1 || u == 2 || u == 4,
        a as int % u == 0,
        0 <= i < u,
        cell(region_of(a)) is Some,
    ensures
        behind(a, i) == further(region_of(a), i),
        region_ok(region_of(a)),
{
    reveal(behind);
    regions_are_ok(a);
    assert(a + i <= u32::MAX);
}

/// What a word of memory reads as after a word store.
#[verifier::spinoff_prover]
#[verifier::rlimit(40)]
proof fn word_store(m: Memory, g: MemRegion, val: u16, h: MemRegion)
    requires
        m.wf(),
        cell(g) is Some,
        cell(h) is Some,
        region_ok(g),
        region_ok(h),
    ensures
        mem_write16(m, g, val).wf(),
        mem_read8(mem_write16(m, g, val), h) == if cell(h) == cell(further(g, 1)) {
            byte16(val, 1)
        } else if cell(h) == cell(g) {
            byte16(val, 0)
        } else {
            mem_read8(m, h)
        },
{
}

/// What a byte of memory reads as after a long word store.
#[verifier::spinoff_prover]
#[verifier::rlimit(60)]
proof fn long_store(m: Memory, g: MemRegion, val: u32, h: MemRegion)
    requires
        m.wf(),
        cell(g) is Some,
        cell(h) is Some,
        region_ok(g),
        region_ok(h),
    ensures
        mem_write32(m, g, val).wf(),
        mem_read8(mem_write32(m, g, val), h) == if cell(h) == cell(further(g, 3)) {
            byte32(val, 3)
        } else if cell(h) == cell(further(g, 2)) {
            byte32(val, 2)
        } else if cell(h) == cell(further(g, 1)) {
            byte32(val, 1)
        } else if cell(h) == cell(g) {
            byte32(val, 0)
        } else {
            mem_read8(m, h)
        },
{
}

/// A word or a long word of memory consists of its bytes.
proof fn units_consist_of_bytes(m: Memory, g: MemRegion)
    requires
        cell(g) is Some,
        region_ok(g),
    ensures
        mem_read16(m, g) == be16(mem_read8(m, g), mem_read8(m, further(g, 1))),
        mem_read32(m, g) == be32(
            mem_read8(m, g),
            mem_read8(m, further(g, 1)),
            mem_read8(m, further(g, 2)),
            mem_read8(m, further(g, 3)),
        ),
{
}

/// Whether a transfer from `src` to `dst` can take a byte `h` of memory for its own: it reads
/// as the byte of the source that belongs there, or as before where none does.
#[verifier::opaque]
pub open spec fn copied(b: BusView, after: BusView, src: u32, dst: u32, len: int, h: MemRegion)
    -> bool {
    &&& forall|j: int|
        0 <= j < len && cell(#[trigger] behind(dst, j)) == cell(h) ==> read8(after, h) == read8(
            b,
            behind(src, j),
        )
    &&& (forall|j: int| 0 <= j < len ==> cell(#[trigger] behind(dst, j)) != cell(h)) ==> read8(
        after,
        h,
    ) == read8(b, h)
}

/// One unit is copied.
#[verifier::spinoff_prover]
#[verifier::rlimit(40)]
proof fn unit_is_copied(b: BusView, size: u32, sar: u32, dar: u32, u: int, depth: nat, h: MemRegion)
    requires
        memories_wf(b),
        size <= 3,
        u == if size == 0 {
            1int
        } else if size == 1 {
            2
        } else {
            4
        },
        sar as int % u == 0,
        dar as int % u == 0,
        apart(dar, sar, u),
        cell(h) is Some,
        region_ok(h),
    ensures
        memories_wf(dma_move(b, size, sar, dar, depth)),
        copied(b, dma_move(b, size, sar, dar, depth), sar, dar, u, h),
{
    reveal(copied);
    let r = dma_move(b, size, sar, dar, depth);
    let g = region_of(sar);
    let d = region_of(dar);
    behind_is_ok(sar, 0);
    behind_is_ok(dar, 0);
    assert(behind(sar, 0) == g && behind(dar, 0) == d);
    assert(cell(behind(dar, 0)) is Some && cell(behind(sar, 0)) is Some);
    assert forall|i: int| 0 <= i < u implies behind(sar, i) == further(g, i) && behind(dar, i)
        == further(d, i) by {
        unit_lies_in_one_memory(sar, u, i);
        unit_lies_in_one_memory(dar, u, i);
    }
    units_consist_of_bytes(b.ram, g);
    if size == 0 {
        let b1 = after_read8(b, g);
        cell_store(b1, dar, 0, read8(b, g), h, depth);
        assert(read8(b1, h) == read8(b, h));
    } else if size == 1 {
        reveal(device_store16);
        let b1 = after_read16(b, g);
        let val = read16(b, g);
        assert(r == device_store16(b1, d, val));
        word_store(b1.ram, d, val, h);
        word_has_its_bytes(mem_read8(b.ram, g), mem_read8(b.ram, further(g, 1)));
        assert(behind(dar, 1) == further(d, 1) && behind(sar, 1) == further(g, 1));
        assert(cell(behind(dar, 0)) != cell(behind(dar, 1)));
    } else {
        reveal(device_store32);
        let b1 = after_read32(b, g);
        let val = read32(b, g);
        assert(r == device_store32(b1, d, val));
        long_store(b1.ram, d, val, h);
        long_has_its_bytes(
            mem_read8(b.ram, g),
            mem_read8(b.ram, further(g, 1)),
            mem_read8(b.ram, further(g, 2)),
            mem_read8(b.ram, further(g, 3)),
        );
        assert(behind(dar, 1) == further(d, 1) && behind(sar, 1) == further(g, 1));
        assert(behind(dar, 2) == further(d, 2) && behind(sar, 2) == further(g, 2));
        assert(behind(dar, 3) == further(d, 3) && behind(sar, 3) == further(g, 3));
        assert(cell(behind(dar, 0)) != cell(behind(dar, 1)));
        assert(cell(behind(dar, 0)) != cell(behind(dar, 2)));
        assert(cell(behind(dar, 0)) != cell(behind(dar, 3)));
        assert(cell(behind(dar, 1)) != cell(behind(dar, 2)));
        assert(cell(behind(dar, 1)) != cell(behind(dar, 3)));
        assert(cell(behind(dar, 2)) != cell(behind(dar, 3)));
    }
}

/// Counting on from a later address.
proof fn behind_moves(a: u32, k: int, i: int)
    requires
        0 <= k,
        0 <= i,
        a + k + i < 0x1_0000_0000,
    ensures
        behind((a + k) as u32, i) == behind(a, k + i),
{
    reveal(behind);
}

/// Areas that are apart are so without their first bytes too.
proof fn rest_is_apart(dst: u32, src: u32, u: int, len: int)
    requires
        0 < u < len,
        apart(dst, src, len),
    ensures
        apart((dst + u) as u32, (src + u) as u32, len - u),
{
    let d = (dst + u) as u32;
    let s = (src + u) as u32;
    assert forall|i: int, j: int|
        #![trigger behind(d, i), behind(s, j)]
        0 <= i < len - u && 0 <= j < len - u implies cell(behind(d, i)) is Some && cell(
        behind(s, j),
    ) is Some && cell(behind(d, i)) != cell(behind(s, j)) by {
        behind_moves(dst, u, i);
        behind_moves(src, u, j);
        assert(cell(behind(dst, u + i)) != cell(behind(src, u + j)));
    }
    assert forall|i: int, j: int|
        #![trigger behind(d, i), behind(d, j)]
        0 <= i < j < len - u implies cell(behind(d, i)) != cell(behind(d, j)) by {
        behind_moves(dst, u, i);
        behind_moves(dst, u, j);
        assert(cell(behind(dst, u + i)) != cell(behind(dst, u + j)));
    }
}

/// Copying the first bytes and then some more copies them all.
proof fn copies_follow_each_other(
    b: BusView,
    b1: BusView,
    b2: BusView,
    src: u32,
    dst: u32,
    u: int,
    more: int,
    len: int,
    h: MemRegion,
)
    requires
        0 < u,
        0 <= more,
        u + more <= len,
        apart(dst, src, len),
        cell(h) is Some,
        copied(b, b1, src, dst, u, h),
        forall|j: int|
            u <= j < len ==> copied(b, b1, src, dst, u, #[trigger] behind(src, j)),
        copied(b1, b2, (src + u) as u32, (dst + u) as u32, more, h),
    ensures
        copied(b, b2, src, dst, u + more, h),
{
    reveal(copied);
    let d = (dst + u) as u32;
    let s = (src + u) as u32;
    assert forall|j: int|
        0 <= j < u + more && cell(#[trigger] behind(dst, j)) == cell(h) implies read8(b2, h)
        == read8(b, behind(src, j)) by {
        if j < u {
            assert forall|i: int| 0 <= i < more implies cell(#[trigger] behind(d, i)) != cell(h) by {
                behind_moves(dst, u, i);
                assert(cell(behind(dst, j)) != cell(behind(dst, u + i)));
            }
            assert(read8(b2, h) == read8(b1, h));
        } else {
            behind_moves(dst, u, j - u);
            behind_moves(src, u, j - u);
            assert(cell(behind(d, j - u)) == cell(h));
            let from = behind(src, j);
            assert(copied(b, b1, src, dst, u, from));
            assert forall|i: int| 0 <= i < u implies cell(#[trigger] behind(dst, i)) != cell(
                from,
            ) by {
                assert(cell(behind(dst, i)) != cell(behind(src, j)));
            }
            assert(read8(b1, from) == read8(b, from));
        }
    }
    if forall|j: int| 0 <= j < u + more ==> cell(#[trigger] behind(dst, j)) != cell(h) {
        assert forall|i: int| 0 <= i < more implies cell(#[trigger] behind(d, i)) != cell(h) by {
            behind_moves(dst, u, i);
            assert(cell(behind(dst, u + i)) != cell(h));
        }
        assert(read8(b1, h) == read8(b, h));
    }
}

/// The end of a transfer leaves the memories alone.
proof fn ending_keeps_memories(b: BusView, ch: int, c: DmaChannel, h: MemRegion)
    requires
        memories_wf(b),
        cell(h) is Some,
    ensures
        memories_wf(channel_ended(b, ch, c)),
        read8(channel_ended(b, ch, c), h) == read8(b, h),
{
    reveal(channel_ended);
}

/// Whether a channel counts both of its addresses up, and they lie on the grid of its units.
pub open spec fn counts_up(c: DmaChannel) -> bool {
    &&& (c.chcr >> 12) & 3 == 1
    &&& (c.chcr >> 14) & 3 == 1
    &&& c.sar as int % unit_stride(c.chcr) as int == 0
    &&& c.dar as int % unit_stride(c.chcr) as int == 0
}

/// How many bytes a channel has left.
pub open spec fn bytes_left(c: DmaChannel) -> int {
    c.tcr * unit_stride(c.chcr)
}

/// Copying nothing leaves every byte as it was.
proof fn nothing_is_copied(b: BusView, after: BusView, src: u32, dst: u32, h: MemRegion)
    requires
        read8(after, h) == read8(b, h),
    ensures
        copied(b, after, src, dst, 0, h),
{
    reveal(copied);
}

/// The first unit of a transfer is copied, and the rest of the source is still there.
#[verifier::spinoff_prover]
proof fn first_unit_is_copied(b: BusView, c: DmaChannel, depth: nat, h: MemRegion)
    requires
        memories_wf(b),
        c.tcr > 0,
        counts_up(c),
        apart(c.dar, c.sar, bytes_left(c)),
        cell(h) is Some,
        region_ok(h),
    ensures
        ({
            let u = unit_stride(c.chcr) as int;
            let b1 = dma_move(b, unit_size(c.chcr), c.sar, c.dar, depth);
            &&& memories_wf(b1)
            &&& copied(b, b1, c.sar, c.dar, u, h)
            &&& forall|j: int|
                u <= j < bytes_left(c) ==> copied(
                    b,
                    b1,
                    c.sar,
                    c.dar,
                    u,
                    #[trigger] behind(c.sar, j),
                )
        }),
{
    let u = unit_stride(c.chcr) as int;
    let size = unit_size(c.chcr);
    let chcr = c.chcr;
    assert((chcr >> 10) & 3 <= 3) by (bit_vector);
    let len = bytes_left(c);
    assert(u <= len) by (nonlinear_arith)
        requires
            len == c.tcr * u,
            c.tcr >= 1,
            u >= 0,
    ;
    let b1 = dma_move(b, size, c.sar, c.dar, depth);
    unit_is_copied(b, size, c.sar, c.dar, u, depth, h);
    assert forall|j: int| u <= j < len implies copied(
        b,
        b1,
        c.sar,
        c.dar,
        u,
        #[trigger] behind(c.sar, j),
    ) by {
        behind_is_ok(c.sar, j);
        assert(cell(behind(c.dar, 0)) is Some && cell(behind(c.sar, j)) is Some);
        unit_is_copied(b, size, c.sar, c.dar, u, depth, behind(c.sar, j));
    }
}

/// The channel after its first unit, where more follow.
proof fn rest_of_a_channel(c: DmaChannel)
    requires
        c.tcr > 1,
        counts_up(c),
        apart(c.dar, c.sar, bytes_left(c)),
    ensures
        ({
            let u = unit_stride(c.chcr);
            let c1 = unit_moved(c);
            &&& c1.tcr == c.tcr - 1
            &&& c1.chcr == c.chcr
            &&& c1.sar == (c.sar + u) as u32
            &&& c1.dar == (c.dar + u) as u32
            &&& counts_up(c1)
            &&& bytes_left(c1) == bytes_left(c) - u
            &&& apart(c1.dar, c1.sar, bytes_left(c1))
        }),
{
    let u = unit_stride(c.chcr) as int;
    let len = bytes_left(c);
    assert(len - u == (c.tcr - 1) * u && len - u >= u) by (nonlinear_arith)
        requires
            len == c.tcr * u,
            c.tcr >= 2,
            u >= 0,
    ;
    rest_is_apart(c.dar, c.sar, u, len);
}

/// One step of a channel.
proof fn units_one_by_one(b: BusView, ch: int, c: DmaChannel, depth: nat)
    ensures
        dma_units(b, ch, c, depth) == if c.tcr == 0 || c.copy_clock < unit_cost(c) {
            (b, c)
        } else {
            let b1 = dma_move(b, unit_size(c.chcr), c.sar, c.dar, depth);
            let c1 = unit_moved(c);
            if c1.tcr == 0 {
                (channel_ended(b1, ch, c), DmaChannel { chcr: c.chcr | 2, ..c1 })
            } else {
                dma_units(b1, ch, c1, depth)
            }
        },
{
}

/// Bytes of so many units, and of one more.
proof fn one_unit_more(n: int, u: int)
    ensures
        (n + 1) * u == u + n * u,
{
    assert((n + 1) * u == u + n * u) by (nonlinear_arith);
}

/// What a channel moves while it can afford it is copied, unit by unit: as many bytes of the
/// destination as the counter says then read as those of the source did, and every byte
/// elsewhere as before. It only stops when nothing is left or the next unit costs too much.
#[verifier::spinoff_prover]
#[verifier::rlimit(40)]
pub proof fn units_are_copied(b: BusView, ch: int, c: DmaChannel, depth: nat, h: MemRegion)
    requires
        memories_wf(b),
        counts_up(c),
        apart(c.dar, c.sar, bytes_left(c)),
        cell(h) is Some,
        region_ok(h),
    ensures
        ({
            let (b1, c1) = dma_units(b, ch, c, depth);
            &&& memories_wf(b1)
            &&& c1.tcr <= c.tcr
            &&& c1.tcr == 0 || c1.copy_clock < unit_cost(c1)
            &&& copied(
                b,
                b1,
                c.sar,
                c.dar,
                (c.tcr - c1.tcr) * unit_stride(c.chcr),
                h,
            )
        }),
    decreases c.tcr,
{
    let u = unit_stride(c.chcr) as int;
    let (b2, c2) = dma_units(b, ch, c, depth);
    units_one_by_one(b, ch, c, depth);
    if c.tcr == 0 || c.copy_clock < unit_cost(c) {
        nothing_is_copied(b, b2, c.sar, c.dar, h);
        assert((c.tcr - c2.tcr) * u == 0);
    } else {
        let len = bytes_left(c);
        let b1 = dma_move(b, unit_size(c.chcr), c.sar, c.dar, depth);
        let c1 = unit_moved(c);
        let s = (c.sar + u) as u32;
        let d = (c.dar + u) as u32;
        first_unit_is_copied(b, c, depth, h);
        one_unit_more(c1.tcr - c2.tcr, u);
        let more = (c1.tcr - c2.tcr) * u;
        if c1.tcr == 0 {
            ending_keeps_memories(b1, ch, c, h);
            nothing_is_copied(b1, b2, s, d, h);
            assert(more == 0);
            assert(len == u) by (nonlinear_arith)
                requires
                    len == c.tcr * u,
                    c.tcr == 1,
            ;
        } else {
            rest_of_a_channel(c);
            units_are_copied(b1, ch, c1, depth, h);
            assert(0 <= more <= len - u) by (nonlinear_arith)
                requires
                    more == (c1.tcr - c2.tcr) * u,
                    0 <= c2.tcr <= c1.tcr,
                    len - u == c1.tcr * u,
                    u >= 0,
            ;
        }
        copies_follow_each_other(b, b1, b2, c.sar, c.dar, u, more, len, h);
    }
}

/// Putting a channel's registers back changes no byte of memory.
proof fn registers_hold_no_byte(
    b: BusView,
    b1: BusView,
    c: DmaChannel,
    h: MemRegion,
    ch: int,
    c1: DmaChannel,
)
    requires
        cell(h) is Some,
        copied(b, b1, c.sar, c.dar, (c.tcr - c1.tcr) * unit_stride(c.chcr), h),
    ensures
        copied(
            b,
            BusView { onchip: with_channel(b1.onchip, ch, c1), ..b1 },
            c.sar,
            c.dar,
            (c.tcr - c1.tcr) * unit_stride(c.chcr),
            h,
        ),
{
    reveal(copied);
}

/// The channel as a transfer begins.
pub open spec fn funded(b: BusView, ch: int, budget: u32) -> DmaChannel {
    let c = channel(b.onchip, ch);
    DmaChannel { copy_clock: sat_add(c.copy_clock, budget), ..c }
}

/// What a transfer consists of.
#[verifier::spinoff_prover]
proof fn transfer_is_units(b: BusView, ch: int, budget: u32, depth: nat)
    requires
        ch == 0 || ch == 1,
    ensures
        ({
            let c = funded(b, ch, budget);
            let after = dma_transfer(b, ch, budget, depth);
            let (b1, c1) = if c.tcr == 0 {
                (channel_ended(b, ch, c), DmaChannel { chcr: c.chcr | 2, ..c })
            } else {
                dma_units(b, ch, c, depth)
            };
            &&& after == BusView { onchip: with_channel(b1.onchip, ch, c1), ..b1 }
            &&& channel(after.onchip, ch).tcr == c1.tcr
        }),
{
}

/// A transfer of an on-chip DMA channel that counts both addresses up copies: as many bytes
/// of the destination as its counter has moved on then read as those of the source did, and
/// every byte elsewhere as before.
#[verifier::spinoff_prover]
#[verifier::rlimit(30)]
pub proof fn channel_transfer_copies(
    b: BusView,
    ch: int,
    budget: u32,
    depth: nat,
    h: MemRegion,
)
    requires
        ch == 0 || ch == 1,
        memories_wf(b),
        counts_up(channel(b.onchip, ch)),
        apart(
            channel(b.onchip, ch).dar,
            channel(b.onchip, ch).sar,
            bytes_left(channel(b.onchip, ch)),
        ),
        cell(h) is Some,
        region_ok(h),
    ensures
        ({
            let c = channel(b.onchip, ch);
            let after = dma_transfer(b, ch, budget, depth);
            let left = channel(after.onchip, ch).tcr;
            &&& memories_wf(after)
            &&& left <= c.tcr
            &&& copied(
                b,
                after,
                c.sar,
                c.dar,
                (c.tcr - left) * unit_stride(c.chcr),
                h,
            )
        }),
{
    let c = funded(b, ch, budget);
    let after = dma_transfer(b, ch, budget, depth);
    transfer_is_units(b, ch, budget, depth);
    if c.tcr == 0 {
        ending_keeps_memories(b, ch, c, h);
        nothing_is_copied(b, after, c.sar, c.dar, h);
    } else {
        let (b1, c1) = dma_units(b, ch, c, depth);
        units_are_copied(b, ch, c, depth, h);
        registers_hold_no_byte(b, b1, c, h, ch, c1);
    }
}

} // verus!
