//! What holds of instructions and transfers that follow each other.

use crate::sh2::alu::{sr_has, sr_with, SR_T};
use crate::sh2::bus::{after_read8, bus_granted, load32, read8, BusView};
use crate::sh2::exec::{group2, group6, op_d4, op_m, op_n, plain_executed, tas};
use crate::sh2::laws::{
    cell, device_byte_back, keeps32, keeps8, long_stored_is_read_back, memories_wf,
    reads_look_at_devices, regions_are_ok,
};
use crate::sh2::ram::{mem_read8, mem_write8};
use crate::sh2::region::{region_of, region_ok, MemRegion};
use crate::sh2::step::branch_of;
use crate::sh2::store::{
    channel_active, device_store8, dma_turn, dma_worked, scu_copy, scu_direct, store32, write8,
};
use crate::sh2::Machine;
use vstd::prelude::*;

verus! {

proof fn push_stores(m: Machine, k: int, op: u16)
    requires
        0 <= k < 15,
        op == 0x2F06 + k * 0x10,
    ensures
        plain_executed(m, op) == (Machine {
            bus: store32(m.bus, m.r[15].wrapping_sub(4), m.r[k]),
            r: m.r.update(15, m.r[15].wrapping_sub(4)),
            ..m
        }),
{
    assert(op_n(op) == 15 && op_m(op) == k && op_d4(op) == 6 && op / 0x1000 == 2);
    assert(plain_executed(m, op) == group2(m, op)) by {
        reveal(plain_executed);
    }
    reveal(group2);
}

proof fn pop_loads(m: Machine, k: int, op: u16)
    requires
        0 <= k < 15,
        op == 0x60F6 + k * 0x100,
    ensures
        plain_executed(m, op) == (Machine {
            bus: load32(m.bus, m.r[15]).0,
            r: m.r.update(k, load32(m.bus, m.r[15]).1).update(15, m.r[15].wrapping_add(4)),
            ..m
        }),
{
    assert(op_n(op) == k && op_m(op) == 15 && op_d4(op) == 6 && op / 0x1000 == 6);
    assert(plain_executed(m, op) == group6(m, op)) by {
        reveal(plain_executed);
    }
    reveal(group6);
}

/// A register pushed on the stack comes back when it is popped: MOV.L Rk,@-R15 and
/// MOV.L @R15+,Rk leave all registers as they were.
pub proof fn pushed_register_is_popped(m: Machine, k: int)
    requires
        m.wf(),
        0 <= k < 15,
        keeps32(m.bus, region_of(m.r[15].wrapping_sub(4)), m.r[k]),
    ensures
        ({
            let push = (0x2F06 + k * 0x10) as u16;
            let pop = (0x60F6 + k * 0x100) as u16;
            let after = plain_executed(plain_executed(m, push), pop);
            &&& after.r == m.r
            &&& after.sr == m.sr
            &&& after.pc == m.pc
        }),
{
    let push = (0x2F06 + k * 0x10) as u16;
    let pop = (0x60F6 + k * 0x100) as u16;
    let sp = m.r[15].wrapping_sub(4);
    long_stored_is_read_back(m.bus, sp, m.r[k]);
    push_stores(m, k, push);
    let m1 = plain_executed(m, push);
    pop_loads(m1, k, pop);
    assert(sp.wrapping_add(4) == m.r[15]);
    assert(plain_executed(m1, pop).r =~= m.r);
}

/// Whether an opcode calls a subroutine: BSR, BSRF or JSR.
pub open spec fn is_call(op: u16) -> bool {
    ||| op / 0x1000 == 0xB
    ||| op / 0x1000 == 0x0 && op % 0x100 == 0x03
    ||| op / 0x1000 == 0x4 && op % 0x100 == 0x0B
}

/// RTS goes back behind the call and its delay slot, wherever the subroutine ran.
pub proof fn return_goes_behind_the_call(m: Machine, op: u16, then: Machine)
    requires
        is_call(op),
        branch_of(m, op) matches Some((called, _)) && then.pr == called.pr,
    ensures
        branch_of(then, 0x000B) == Some((then, m.pc.wrapping_add(2))),
{
    reveal(branch_of);
}

/// A byte on which TAS succeeded is taken: TAS on it again fails.
pub proof fn taken_lock_is_refused(m: Machine, a: u32)
    requires
        m.wf(),
        keeps8(m.bus, region_of(a)),
    ensures
        !tas(tas(m, a), a).t(),
{
    reveal(tas);
    let g = region_of(a);
    regions_are_ok(a);
    let b = bus_granted(m.bus);
    let v = read8(b, g);
    assert(v | 0x80 != 0) by (bit_vector);
    let b1 = after_read8(b, g);
    assert(b1 == BusView { telemetry: b1.telemetry, ..b });
    device_byte_back(b1, g, v | 0x80);
    let m1 = tas(m, a);
    assert(m1.bus == device_store8(b1, g, v | 0x80));
    let b2 = bus_granted(m1.bus);
    reads_look_at_devices(b2, m1.bus, g);
    let sr = m1.sr;
    flag_cleared(sr);
}

proof fn flag_cleared(sr: u32)
    ensures
        !sr_has(sr_with(sr, SR_T, false), SR_T),
{
    crate::sh2::alu::flags_are_independent(sr, false);
}

/// A DMA controller that is off, or has no channel to serve, does nothing.
pub proof fn idle_dma_does_nothing(b: BusView, cycles: u32)
    requires
        b.onchip.dmaor & 0x6 == 0,
        b.onchip.dmaor & 0x1 == 0 || (!channel_active(b.onchip.chcr0) && !channel_active(
            b.onchip.chcr1,
        )),
    ensures
        dma_worked(b, cycles) == b,
{
    reveal(dma_worked);
    reveal(dma_turn);
}

/// The device behind the `i`th byte from an address on.
#[verifier::opaque]
pub open spec fn behind(a: u32, i: int) -> MemRegion {
    region_of((a + i) as u32)
}

/// Whether two areas of Work RAM or video memory have no byte in common, and the first
/// one does not run into itself.
pub open spec fn apart(dst: u32, src: u32, len: int) -> bool {
    &&& dst + len <= 0x1_0000_0000
    &&& src + len <= 0x1_0000_0000
    &&& forall|i: int, j: int|
        #![trigger behind(dst, i), behind(src, j)]
        0 <= i < len && 0 <= j < len ==> {
            &&& cell(behind(dst, i)) is Some
            &&& cell(behind(src, j)) is Some
            &&& cell(behind(dst, i)) != cell(behind(src, j))
        }
    &&& forall|i: int, j: int|
        #![trigger behind(dst, i), behind(dst, j)]
        0 <= i < j < len ==> cell(behind(dst, i)) != cell(behind(dst, j))
}

/// A byte store to Work RAM or video memory changes that byte and no other.
pub(crate) proof fn cell_store(b: BusView, a: u32, i: int, val: u8, h: MemRegion, depth: nat)
    requires
        memories_wf(b),
        0 <= i,
        a + i < 0x1_0000_0000,
        cell(behind(a, i)) is Some,
        cell(h) is Some,
        region_ok(h),
    ensures
        memories_wf(write8(b, (a + i) as u32, val, depth)),
        read8(write8(b, (a + i) as u32, val, depth), h) == if cell(h) == cell(behind(a, i)) {
            val
        } else {
            read8(b, h)
        },
{
    reveal(behind);
    reveal(device_store8);
    let at = (a + i) as u32;
    regions_are_ok(at);
    let g = region_of(at);
    assert(write8(b, at, val, depth) == device_store8(b, g, val));
    assert(read8(b, h) == mem_read8(b.ram, h));
    assert(read8(device_store8(b, g, val), h) == mem_read8(mem_write8(b.ram, g, val), h));
}

/// Reading Work RAM or video memory changes nothing but the counters.
proof fn cell_read(b: BusView, g: MemRegion, h: MemRegion)
    requires
        memories_wf(b),
        cell(g) is Some,
        cell(h) is Some,
    ensures
        memories_wf(after_read8(b, g)),
        read8(after_read8(b, g), h) == read8(b, h),
{
}

/// A read of Work RAM or video memory is counted before a store as well as after it.
proof fn counting_may_wait(b: BusView, g: MemRegion, a: u32, i: int, val: u8, depth: nat)
    requires
        0 <= i,
        a + i < 0x1_0000_0000,
        cell(g) is Some,
        cell(behind(a, i)) is Some,
    ensures
        after_read8(write8(b, (a + i) as u32, val, depth), g) == write8(
            after_read8(b, g),
            (a + i) as u32,
            val,
            depth,
        ),
{
    reveal(behind);
    reveal(device_store8);
}

pub(crate) proof fn behind_is_ok(a: u32, i: int)
    ensures
        region_ok(behind(a, i)),
        behind(a, i) == region_of((a + i) as u32),
{
    reveal(behind);
    regions_are_ok((a + i) as u32);
}

/// One byte copied.
pub open spec fn byte_copied(b: BusView, src: u32, dst: u32, i: int, depth: nat) -> BusView {
    write8(after_read8(b, behind(src, i)), (dst + i) as u32, read8(b, behind(src, i)), depth)
}

/// An entry of an indirect SCU transfer copies: every byte of the destination then reads
/// as the byte of the source did, and every byte elsewhere as it did before.
pub proof fn indirect_transfer_copies(
    b: BusView,
    src: u32,
    dst: u32,
    k: u32,
    len: u32,
    depth: nat,
    h: MemRegion,
)
    requires
        memories_wf(b),
        k <= len,
        apart(dst, src, len as int),
        cell(h) is Some,
        region_ok(h),
    ensures
        memories_wf(scu_copy(b, src, dst, k, len, depth)),
        forall|j: int|
            k <= j < len && cell(#[trigger] behind(dst, j)) == cell(h) ==> read8(
                scu_copy(b, src, dst, k, len, depth),
                h,
            ) == read8(b, behind(src, j)),
        (forall|j: int| k <= j < len ==> cell(#[trigger] behind(dst, j)) != cell(h)) ==> read8(
            scu_copy(b, src, dst, k, len, depth),
            h,
        ) == read8(b, h),
    decreases len - k,
{
    if k < len {
        let g = behind(src, k as int);
        let d = behind(dst, k as int);
        assert(cell(d) is Some && cell(g) is Some);
        behind_is_ok(src, k as int);
        cell_read(b, g, h);
        let b0 = after_read8(b, g);
        assert(src.wrapping_add(k) == (src + k) as u32);
        assert(dst.wrapping_add(k) == (dst + k) as u32);
        let b1 = byte_copied(b, src, dst, k as int, depth);
        cell_store(b0, dst, k as int, read8(b, g), h, depth);
        indirect_transfer_copies(b1, src, dst, (k + 1) as u32, len, depth, h);
        let r = scu_copy(b, src, dst, k, len, depth);
        assert(r == scu_copy(b1, src, dst, (k + 1) as u32, len, depth));
        assert forall|j: int| k <= j < len && cell(#[trigger] behind(dst, j)) == cell(h) implies
            read8(r, h) == read8(b, behind(src, j)) by {
            if j == k {
                assert forall|i: int| k + 1 <= i < len implies cell(#[trigger] behind(dst, i))
                    != cell(h) by {
                    assert(cell(behind(dst, j)) != cell(behind(dst, i)));
                }
            } else {
                behind_is_ok(src, j);
                assert(cell(d) != cell(behind(src, j)));
                cell_read(b, g, behind(src, j));
                cell_store(b0, dst, k as int, read8(b, g), behind(src, j), depth);
            }
        }
        if forall|j: int| k <= j < len ==> cell(#[trigger] behind(dst, j)) != cell(h) {
            assert(cell(d) != cell(h));
        }
    }
}

/// A direct transfer that moves its destination by two per word is a copy byte by byte.
proof fn direct_is_copy(b: BusView, src: u32, dst: u32, done: u32, len: u32, depth: nat)
    requires
        memories_wf(b),
        done <= len,
        apart(dst, src, len as int),
    ensures
        scu_direct(
            b,
            src.wrapping_add(done),
            dst.wrapping_add(done),
            (len - done) as u32,
            2,
            depth,
        ) == scu_copy(b, src, dst, done, len, depth),
    decreases len - done,
{
    let left = len - done;
    if left > 0 {
        let s = src.wrapping_add(done);
        let t = dst.wrapping_add(done);
        assert(s == src + done && t == dst + done);
        let g0 = behind(src, done as int);
        let d0 = behind(dst, done as int);
        assert(cell(g0) is Some && cell(d0) is Some);
        behind_is_ok(src, done as int);
        behind_is_ok(dst, done as int);
        cell_read(b, g0, g0);
        let b0 = after_read8(b, g0);
        let b1 = byte_copied(b, src, dst, done as int, depth);
        cell_store(b0, dst, done as int, read8(b, g0), g0, depth);
        assert(scu_copy(b, src, dst, done, len, depth) == scu_copy(
            b1,
            src,
            dst,
            (done + 1) as u32,
            len,
            depth,
        ));
        if left == 1 {
            assert(scu_copy(b1, src, dst, (done + 1) as u32, len, depth) == b1);
        } else {
            let g1 = behind(src, done + 1);
            let d1 = behind(dst, done + 1);
            assert(cell(g1) is Some && cell(d1) is Some && cell(d0) != cell(g1));
            behind_is_ok(src, done + 1);
            behind_is_ok(dst, done + 1);
            cell_read(b, g0, g1);
            counting_may_wait(b0, g1, dst, done as int, read8(b, g0), depth);
            cell_store(b0, dst, done as int, read8(b, g0), g1, depth);
            assert(read8(b1, g1) == read8(b0, g1));
            cell_read(b1, g1, g1);
            assert(s.wrapping_add(1) == (src + done + 1) as u32);
            assert(t.wrapping_add(1) == (dst + done + 1) as u32);
            assert(src.wrapping_add((done + 1) as u32) == (src + done + 1) as u32);
            assert(dst.wrapping_add((done + 1) as u32) == (dst + done + 1) as u32);
            let b2 = byte_copied(b1, src, dst, done + 1, depth);
            cell_store(after_read8(b1, g1), dst, done + 1, read8(b1, g1), g1, depth);
            assert(scu_copy(b1, src, dst, (done + 1) as u32, len, depth) == scu_copy(
                b2,
                src,
                dst,
                (done + 2) as u32,
                len,
                depth,
            ));
            assert(s.wrapping_add(2) == src.wrapping_add((done + 2) as u32));
            assert(t.wrapping_add(2) == dst.wrapping_add((done + 2) as u32));
            direct_is_copy(b2, src, dst, (done + 2) as u32, len, depth);
            assert(scu_direct(b, s, t, left as u32, 2, depth) == scu_direct(
                b2,
                s.wrapping_add(2),
                t.wrapping_add(2),
                (left - 2) as u32,
                2,
                depth,
            ));
        }
    }
}

/// A direct SCU transfer that moves its destination by two per word copies likewise.
pub proof fn direct_transfer_copies(
    b: BusView,
    src: u32,
    dst: u32,
    len: u32,
    depth: nat,
    h: MemRegion,
)
    requires
        memories_wf(b),
        apart(dst, src, len as int),
        cell(h) is Some,
        region_ok(h),
    ensures
        forall|j: int|
            0 <= j < len && cell(#[trigger] behind(dst, j)) == cell(h) ==> read8(
                scu_direct(b, src, dst, len, 2, depth),
                h,
            ) == read8(b, behind(src, j)),
        (forall|j: int| 0 <= j < len ==> cell(#[trigger] behind(dst, j)) != cell(h)) ==> read8(
            scu_direct(b, src, dst, len, 2, depth),
            h,
        ) == read8(b, h),
{
    direct_is_copy(b, src, dst, 0, len, depth);
    indirect_transfer_copies(b, src, dst, 0, len, depth, h);
    assert(src.wrapping_add(0) == src && dst.wrapping_add(0) == dst);
}

} // verus!
