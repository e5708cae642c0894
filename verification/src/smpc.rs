//! The SMPC (System Manager & Peripheral Control): command processor,
//! real-time clock and controller ports.
//!
//! The registers live in `WorkRam::smpc_regs`, one byte per offset of their
//! window; this module holds the rest of the chip's state and what its commands
//! do. What a command does outside the chip is returned as `SmpcEffects`.

pub mod clock;
pub mod cmd;
pub mod effect_laws;
pub mod laws;
pub mod reg;
pub mod region;

use crate::peripheral::{
    flushed, pad_idle, port_blank, report, status, GunState, KeyboardState, MissionStickState,
    MouseState, Pad3DState, PadState, PeripheralKind, PeripheralState, PortData, PortView,
    TwinSticksState, WheelState, PORT_DATA_CAPACITY,
};
use crate::shared_buffers::{Memory, WorkRam, SMPC_REGS_SIZE};
use crate::smpc::clock::{bcd, bcd_of, clock_seconds, utc_time, ClockSource};
use vstd::prelude::*;

verus! {

/// What a command does outside the SMPC.
#[derive(Debug, Clone, Copy, PartialEq, Eq, Structural)]
pub struct SmpcEffects {
    /// Let the slave SH-2 run.
    pub start_slave: bool,
    /// Stop the slave SH-2.
    pub stop_slave: bool,
    /// Let the sound CPU run.
    pub sound_on: bool,
    /// Stop the sound CPU.
    pub sound_off: bool,
    /// Raise the System Manager interrupt.
    pub system_manager_irq: bool,
    /// Raise the non-maskable interrupt of the master SH-2.
    pub nmi: bool,
    /// Reset the whole system.
    pub system_reset: bool,
    /// Change the dot clock: `true` for 352, `false` for 320.
    pub clock_change: Option<bool>,
}

/// Nothing happens outside.
pub open spec fn no_effects() -> SmpcEffects {
    SmpcEffects {
        start_slave: false,
        stop_slave: false,
        sound_on: false,
        sound_off: false,
        system_manager_irq: false,
        nmi: false,
        system_reset: false,
        clock_change: None,
    }
}

impl Default for SmpcEffects {
    fn default() -> (r: Self)
        ensures
            r == no_effects(),
    {
        SmpcEffects {
            start_slave: false,
            stop_slave: false,
            sound_on: false,
            sound_off: false,
            system_manager_irq: false,
            nmi: false,
            system_reset: false,
            clock_change: None,
        }
    }
}

/// How many output registers there are.
pub const OREG_COUNT: usize = 32;

/// The state of the SMPC beside its registers.
pub struct Smpc {
    /// Whether the reset button is disabled.
    pub resd: bool,
    /// The byte that was last on the chip's data bus.
    pub bustmp: u8,
    /// Backup memory, written by SETSMEM.
    pub smem: [u8; 4],
    /// The configured region.
    pub regionid: u8,
    /// Dot clock: `true` for 352, `false` for 320.
    pub dotsel: bool,
    pub mshnmi: bool,
    pub sysres: bool,
    pub sndres: bool,
    pub cdres: bool,
    /// Where the time comes from.
    pub clock: ClockSource,
    /// The host's time in seconds since 1 January 1970, as last reported.
    pub host_seconds: u64,
    /// What is in port 1.
    pub port1: PeripheralState,
    /// What is in port 2.
    pub port2: PeripheralState,
    /// The snapshot of port 1 that is being handed out.
    pub snap1: Option<PortData>,
    /// The snapshot of port 2 that is being handed out.
    pub snap2: Option<PortData>,
    /// Whether the next chunk of peripheral data is the first of a sequence.
    pub first_peri: bool,
    /// Whether a sequence of peripheral data is under way.
    pub intback: bool,
    /// A command that waits: its code, its delay in microseconds, and whether it
    /// also waits for a scan line.
    pub pending_command: Option<(u8, u32, bool)>,
    /// Whether the waiting command may run now.
    pub dispatch_ready: bool,
}

/// The value of an optional snapshot.
pub open spec fn snap_view(s: Option<PortData>) -> Option<PortView> {
    match s {
        Some(p) => Some(p@),
        None => None,
    }
}

/// The value of an SMPC.
pub struct SmpcView {
    pub resd: bool,
    pub bustmp: u8,
    pub smem: Seq<u8>,
    pub regionid: u8,
    pub dotsel: bool,
    pub mshnmi: bool,
    pub sysres: bool,
    pub sndres: bool,
    pub cdres: bool,
    pub clock: ClockSource,
    pub host_seconds: u64,
    pub port1: PeripheralState,
    pub port2: PeripheralState,
    pub snap1: Option<PortView>,
    pub snap2: Option<PortView>,
    pub first_peri: bool,
    pub intback: bool,
    pub pending_command: Option<(u8, u32, bool)>,
    pub dispatch_ready: bool,
}

impl SmpcView {
    /// A snapshot never claims more bytes than it holds.
    pub open spec fn wf(self) -> bool {
        &&& self.snap1 is Some ==> self.snap1.unwrap().size <= PORT_DATA_CAPACITY
        &&& self.snap2 is Some ==> self.snap2.unwrap().size <= PORT_DATA_CAPACITY
    }
}

/// The register file after output registers 0, 1, .. took the given bytes.
pub open spec fn oregs_filled(regs: Seq<u8>, bytes: Seq<u8>) -> Seq<u8> {
    Seq::new(
        regs.len(),
        |i: int|
            if reg::OREG_BASE <= i && (i - reg::OREG_BASE) % 2 == 0 && (i - reg::OREG_BASE) / 2
                < bytes.len() {
                bytes[(i - reg::OREG_BASE) / 2]
            } else {
                regs[i]
            },
    )
}

/// One flag of a status byte.
pub open spec fn flag(on: bool, weight: int) -> int {
    if on {
        weight
    } else {
        0
    }
}

/// The region that is reported: without a disc, detection falls back to Japan.
pub open spec fn reported_region(regionid: u8) -> u8 {
    if regionid == region::AUTODETECT {
        region::JAPAN
    } else {
        regionid
    }
}

/// The 32 output bytes of a status request.
#[verifier::opaque]
pub open spec fn status_bytes(s: SmpcView) -> Seq<u8> {
    let t = utc_time(clock_seconds(s.clock, s.host_seconds) as int);
    seq![
        (0x80 + flag(s.resd, 0x40)) as u8,
        (t.0 / 1000 % 16 * 16 + t.0 % 1000 / 100) as u8,
        (t.0 % 100 / 10 * 16 + t.0 % 10) as u8,
        (t.6 * 16 + t.1) as u8,
        bcd_of(t.2),
        bcd_of(t.3),
        bcd_of(t.4),
        bcd_of(t.5),
        0u8,
        reported_region(s.regionid),
        (0x34 + flag(s.dotsel, 0x40) + flag(s.mshnmi, 0x08) + flag(s.sysres, 0x02) + flag(
            s.sndres,
            0x01,
        )) as u8,
        flag(s.cdres, 0x40) as u8,
        s.smem[0],
        s.smem[1],
        s.smem[2],
        s.smem[3],
        0u8,
        0u8,
        0u8,
        0u8,
        0u8,
        0u8,
        0u8,
        0u8,
        0u8,
        0u8,
        0u8,
        0u8,
        0u8,
        0u8,
        0u8,
        cmd::INTBACK,
    ]
}

/// What stands before the data bytes of a port: its status and, unless nothing
/// or a gun is plugged in, the identifier.
pub open spec fn port_header(p: PortView) -> Seq<u8> {
    if p.offset != 0 {
        seq![]
    } else if p.status == status::NOT_CONNECTED || p.status == status::GUN_DIRECT {
        seq![p.status]
    } else {
        seq![p.status, p.id]
    }
}

/// The bytes of a snapshot that are still to be handed out.
#[verifier::opaque]
pub open spec fn port_pending(p: PortView) -> Seq<u8> {
    port_header(p) + if p.offset < p.size {
        p.data.subrange(p.offset as int, p.size as int)
    } else {
        seq![]
    }
}

/// As many of them as there is room for.
#[verifier::opaque]
pub open spec fn port_emitted(p: PortView, room: int) -> Seq<u8> {
    if port_pending(p).len() <= room {
        port_pending(p)
    } else {
        port_pending(p).take(room)
    }
}

/// The snapshot after that: the data bytes that went out are done with.
#[verifier::opaque]
pub open spec fn port_advanced(p: PortView, room: int) -> PortView {
    let sent = port_emitted(p, room).len() - port_header(p).len();
    PortView { offset: (p.offset + if sent > 0 { sent } else { 0 }) as usize, ..p }
}

/// The output bytes of one chunk of peripheral data: port 1, then port 2.
#[verifier::opaque]
pub open spec fn chunk_bytes(p1: PortView, p2: PortView) -> Seq<u8> {
    port_emitted(p1, OREG_COUNT as int) + port_emitted(p2, chunk_room(p1))
}

/// The room that port 1 leaves to port 2.
pub open spec fn chunk_room(p1: PortView) -> int {
    OREG_COUNT - port_emitted(p1, OREG_COUNT as int).len()
}

/// The delay of a command in microseconds, and whether it waits for a line.
pub open spec fn command_delay(s: SmpcView, regs: Seq<u8>, command: u8) -> (u32, bool) {
    if command != cmd::INTBACK {
        (1u32, false)
    } else if s.intback {
        (16000u32, true)
    } else if regs[reg::IREG0 as int] == 1 {
        (250u32, false)
    } else if regs[reg::IREG0 as int] == 0 && regs[reg::IREG1 as int] / 8 % 2 == 1 {
        (16000u32, true)
    } else {
        (1u32, false)
    }
}

/// The chip after `arm_command`.
pub open spec fn armed(s: SmpcView, regs: Seq<u8>, command: u8) -> SmpcView {
    let d = command_delay(s, regs, command);
    SmpcView { pending_command: Some((command, d.0, d.1)), dispatch_ready: false, ..s }
}

/// The identification byte that a port shows on its pins, if the peripheral
/// supports that.
pub open spec fn id_pins(s: PeripheralState) -> Option<u8> {
    match s {
        PeripheralState::Disconnected => Some(0x7Fu8),
        PeripheralState::Gun(_) => Some(0x7Cu8),
        PeripheralState::Pad(_) => Some(0x7Cu8),
        PeripheralState::Pad3D(_) => Some(0x71u8),
        PeripheralState::Keyboard(_) => Some(0x71u8),
        PeripheralState::Mouse(_) => Some(0x70u8),
        _ => None,
    }
}

/// What a data register of a port reads after `val` was written to it, where
/// `ddr` is the selected control method and `old_val` what it read before.
#[verifier::opaque]
pub open spec fn pdr_response(
    port: int,
    state: PeripheralState,
    ddr: u8,
    val: u8,
    old_val: u8,
) -> u8 {
    let b2 = report(state).data[0];
    let b3 = report(state).data[1];
    if ddr % 128 == 0 {
        match state {
            PeripheralState::Gun(gun) => if val % 128 == 0x7F {
                (0xFF - flag(gun.trigger, 0x10) - flag(gun.start, 0x20)) as u8
            } else {
                old_val
            },
            _ => old_val,
        }
    } else if ddr % 128 == 0x40 && port == 1 {
        if val / 64 % 2 == 1 {
            (0x70 + b3 / 4 % 4 * 4) as u8
        } else {
            (0x30 + b2 / 16) as u8
        }
    } else if ddr % 128 == 0x60 {
        let keep = val / 128 * 128;
        if val / 32 % 4 == 3 {
            (keep + 0x14 + b3 / 8 % 2 * 8) as u8
        } else if val / 32 % 4 == 1 {
            (keep + 0x10 + b2 / 16) as u8
        } else if val / 32 % 4 == 2 {
            (keep + 0x10 + b2 % 16) as u8
        } else {
            (keep + 0x10 + b3 / 16) as u8
        }
    } else {
        old_val
    }
}

/// The chip and its registers.
pub struct SmpcWorld {
    pub chip: SmpcView,
    pub regs: Seq<u8>,
}

/// What a register write sets off, once `val` stands in the register.
pub open spec fn register_written(w: SmpcWorld, off: int, val: u8, old_val: u8) -> SmpcWorld {
    let s = if off == reg::SF {
        w.chip
    } else {
        SmpcView { bustmp: val, ..w.chip }
    };
    if off == reg::IREG0 && s.intback && val / 64 % 2 == 1 {
        SmpcWorld {
            chip: SmpcView { intback: false, snap1: None, snap2: None, ..s },
            regs: w.regs.update(reg::SR as int, w.regs[reg::SR as int] % 16),
        }
    } else if off == reg::IREG0 && s.intback && val / 128 == 1 {
        SmpcWorld {
            chip: armed(s, w.regs, cmd::INTBACK),
            regs: w.regs.update(reg::SF as int, 1),
        }
    } else if off == reg::PDR1 {
        SmpcWorld {
            chip: s,
            regs: w.regs.update(
                reg::PDR1 as int,
                pdr_response(1, s.port1, w.regs[reg::DDR1 as int], val, old_val),
            ),
        }
    } else if off == reg::PDR2 {
        SmpcWorld {
            chip: s,
            regs: w.regs.update(
                reg::PDR2 as int,
                pdr_response(2, s.port2, w.regs[reg::DDR2 as int], val, old_val),
            ),
        }
    } else if off == reg::DDR1 && id_pins(s.port1) is Some {
        SmpcWorld { chip: s, regs: w.regs.update(reg::PDR1 as int, id_pins(s.port1).unwrap()) }
    } else if off == reg::DDR2 && id_pins(s.port2) is Some {
        SmpcWorld { chip: s, regs: w.regs.update(reg::PDR2 as int, id_pins(s.port2).unwrap()) }
    } else {
        SmpcWorld { chip: s, regs: w.regs }
    }
}

/// The timing of the command that a register write armed, if it did.
pub open spec fn register_write_arms(w: SmpcWorld, off: int, val: u8) -> Option<(u32, bool)> {
    if off == reg::IREG0 && w.chip.intback && val / 64 % 2 == 0 && val / 128 == 1 {
        Some(command_delay(w.chip, w.regs, cmd::INTBACK))
    } else {
        None
    }
}

/// Whether an INTBACK asks for the status block.
pub open spec fn wants_status(regs: Seq<u8>) -> bool {
    regs[reg::IREG0 as int] % 2 == 1
}

/// Whether an INTBACK asks for peripheral data.
pub open spec fn wants_peripheral(regs: Seq<u8>) -> bool {
    regs[reg::IREG1 as int] / 8 % 2 == 1
}

/// Whether an INTBACK breaks off a sequence of peripheral data.
pub open spec fn wants_break(regs: Seq<u8>) -> bool {
    regs[reg::IREG0 as int] / 64 % 2 == 1
}

/// The chip and the registers after one chunk of peripheral data.
#[verifier::opaque]
pub open spec fn chunk_done(w: SmpcWorld) -> SmpcWorld {
    let s = if w.regs[reg::IREG0 as int] == 0 {
        SmpcView { intback: true, first_peri: true, ..w.chip }
    } else {
        w.chip
    };
    let p1 = if s.first_peri {
        report(s.port1)
    } else if s.snap1 is Some {
        s.snap1.unwrap()
    } else {
        port_blank()
    };
    let p2 = if s.first_peri {
        report(s.port2)
    } else if s.snap2 is Some {
        s.snap2.unwrap()
    } else {
        port_blank()
    };
    SmpcWorld {
        chip: SmpcView {
            port1: if s.first_peri {
                flushed(s.port1)
            } else {
                s.port1
            },
            port2: if s.first_peri {
                flushed(s.port2)
            } else {
                s.port2
            },
            snap1: Some(port_advanced(p1, OREG_COUNT as int)),
            snap2: Some(port_advanced(p2, chunk_room(p1))),
            first_peri: false,
            ..s
        },
        regs: oregs_filled(w.regs, chunk_bytes(p1, p2)).update(
            reg::SR as int,
            ((if s.first_peri {
                0xC0int
            } else {
                0x80
            }) + w.regs[reg::IREG1 as int] / 16) as u8,
        ),
    }
}

/// The chip and the registers after an INTBACK, before the busy flag is cleared.
#[verifier::opaque]
pub open spec fn intback_body(w: SmpcWorld) -> SmpcWorld {
    let s = w.chip;
    let regs = w.regs;
    if wants_status(regs) {
        SmpcWorld {
            chip: s,
            regs: oregs_filled(regs, status_bytes(s)).update(
                reg::SR as int,
                (0x4F + flag(wants_peripheral(regs), 0x20)) as u8,
            ),
        }
    } else if wants_peripheral(regs) {
        if wants_break(regs) {
            SmpcWorld {
                chip: SmpcView { intback: false, ..s },
                regs: regs.update(reg::SR as int, regs[reg::SR as int] % 16),
            }
        } else {
            chunk_done(w)
        }
    } else {
        w
    }
}

/// The chip and the registers after a command, before the busy flag is cleared.
pub open spec fn command_body(w: SmpcWorld, command: u8) -> SmpcWorld {
    let s = w.chip;
    let regs = w.regs;
    let echoed = regs.update(reg::OREG_BASE + 62, command);
    if command == cmd::SNDON || command == cmd::SNDOFF || command == cmd::NMIREQ {
        SmpcWorld { chip: s, regs: echoed }
    } else if command == cmd::CKCHG352 {
        SmpcWorld { chip: SmpcView { dotsel: true, ..s }, regs }
    } else if command == cmd::CKCHG320 {
        SmpcWorld { chip: SmpcView { dotsel: false, ..s }, regs }
    } else if command == cmd::INTBACK {
        intback_body(w)
    } else if command == cmd::SETSMEM {
        SmpcWorld {
            chip: SmpcView {
                smem: seq![
                    regs[reg::IREG0 as int],
                    regs[reg::IREG1 as int],
                    regs[reg::IREG2 as int],
                    regs[reg::IREG3 as int],
                ],
                ..s
            },
            regs: echoed,
        }
    } else if command == cmd::RESENAB {
        SmpcWorld { chip: SmpcView { resd: false, ..s }, regs: echoed }
    } else if command == cmd::RESDISA {
        SmpcWorld { chip: SmpcView { resd: true, ..s }, regs: echoed }
    } else {
        w
    }
}

/// The chip and the registers after a command: whatever it did, the busy flag is clear.
pub open spec fn command_done(w: SmpcWorld, command: u8) -> SmpcWorld {
    let after = command_body(w, command);
    SmpcWorld { chip: after.chip, regs: after.regs.update(reg::SF as int, 0) }
}

/// What a command does outside the chip.
pub open spec fn command_effects(command: u8) -> SmpcEffects {
    if command == cmd::SSHON {
        SmpcEffects { start_slave: true, ..no_effects() }
    } else if command == cmd::SSHOFF {
        SmpcEffects { stop_slave: true, ..no_effects() }
    } else if command == cmd::SNDON {
        SmpcEffects { sound_on: true, ..no_effects() }
    } else if command == cmd::SNDOFF {
        SmpcEffects { sound_off: true, ..no_effects() }
    } else if command == cmd::SYSRES {
        SmpcEffects { system_reset: true, ..no_effects() }
    } else if command == cmd::CKCHG352 {
        SmpcEffects { clock_change: Some(true), stop_slave: true, nmi: true, ..no_effects() }
    } else if command == cmd::CKCHG320 {
        SmpcEffects { clock_change: Some(false), stop_slave: true, nmi: true, ..no_effects() }
    } else if command == cmd::INTBACK {
        SmpcEffects { system_manager_irq: true, ..no_effects() }
    } else if command == cmd::NMIREQ {
        SmpcEffects { nmi: true, ..no_effects() }
    } else {
        no_effects()
    }
}

/// The chip and the registers after the waiting command, if there is one, ran.
pub open spec fn expired_done(w: SmpcWorld) -> SmpcWorld {
    match w.chip.pending_command {
        Some((command, _, _)) => command_done(
            SmpcWorld {
                chip: SmpcView { pending_command: None, dispatch_ready: false, ..w.chip },
                regs: w.regs.update(reg::SF as int, 0),
            },
            command,
        ),
        None => w,
    }
}

/// What the waiting command does outside the chip.
pub open spec fn expired_effects(s: SmpcView) -> SmpcEffects {
    match s.pending_command {
        Some((command, _, _)) => command_effects(command),
        None => no_effects(),
    }
}

/// Hand bytes out in the output registers.
fn put_oregs(regs: &mut Vec<u8>, bytes: &Vec<u8>)
    requires
        old(regs)@.len() == SMPC_REGS_SIZE,
        bytes@.len() <= OREG_COUNT,
    ensures
        final(regs)@ == oregs_filled(old(regs)@, bytes@),
{
    let n: usize = bytes.len();
    let mut k: usize = 0;
    assert(regs@ =~= oregs_filled(old(regs)@, bytes@.take(0)));
    while k < n
        invariant
            k <= n,
            n == bytes@.len(),
            n <= OREG_COUNT,
            regs@.len() == SMPC_REGS_SIZE,
            old(regs)@.len() == SMPC_REGS_SIZE,
            regs@ == oregs_filled(old(regs)@, bytes@.take(k as int)),
        decreases n - k,
    {
        regs[reg::OREG_BASE + 2 * k] = bytes[k];
        assert(regs@ =~= oregs_filled(old(regs)@, bytes@.take(k + 1)));
        k += 1;
    }
    assert(bytes@.take(n as int) =~= bytes@);
}

/// Append the bytes of a snapshot that are due, as far as there is room.
fn emit_port(p: &mut PortData, out: &mut Vec<u8>)
    requires
        old(p).wf(),
        old(out)@.len() <= OREG_COUNT,
    ensures
        final(p).wf(),
        final(p)@ == port_advanced(old(p)@, OREG_COUNT - old(out)@.len()),
        final(out)@ == old(out)@ + port_emitted(old(p)@, OREG_COUNT - old(out)@.len()),
        final(out)@.len() <= OREG_COUNT,
{
    reveal(port_pending);
    reveal(port_emitted);
    reveal(port_advanced);
    let ghost room = OREG_COUNT - out@.len();
    let ghost base = out@;
    let ghost p0 = p@;
    let ghost pending = port_pending(p0);
    let ghost head = port_header(p0).len();
    if p.offset == 0 && out.len() < OREG_COUNT {
        out.push(p.status);
        if p.status != status::NOT_CONNECTED && p.status != status::GUN_DIRECT && out.len()
            < OREG_COUNT {
            out.push(p.id);
        }
    }
    let ghost start = out@.len() - base.len();
    assert(start == if head <= room { head as int } else { room });
    assert(out@ =~= base + pending.take(start));
    while p.offset < p.size && out.len() < OREG_COUNT
        invariant
            p.wf(),
            p0.data.len() == 16,
            p@ == (PortView { offset: p.offset, ..p0 }),
            p0.offset <= p.offset,
            p.offset <= p.size || p.offset == p0.offset,
            room == OREG_COUNT - base.len(),
            0 <= room,
            pending == port_pending(p0),
            head == port_header(p0).len(),
            start == if head <= room { head as int } else { room },
            p.offset > p0.offset ==> head <= room,
            start + (p.offset - p0.offset) <= pending.len(),
            out@.len() <= OREG_COUNT,
            out@.len() == base.len() + start + (p.offset - p0.offset),
            out@ == base + pending.take(start + (p.offset - p0.offset)),
        decreases p.size - p.offset,
    {
        reveal(port_pending);
        let ghost at = start + (p.offset - p0.offset);
        assert(start == head);
        assert(pending[at] == p0.data[p.offset as int]);
        out.push(p.data[p.offset]);
        assert(out@ =~= base + pending.take(at + 1));
        p.offset += 1;
    }
    proof {
        let at = start + (p.offset - p0.offset);
        if at == pending.len() {
            assert(pending.take(at) =~= pending);
        }
    }
}

impl Smpc {
    pub open spec fn view(&self) -> SmpcView {
        SmpcView {
            resd: self.resd,
            bustmp: self.bustmp,
            smem: self.smem@,
            regionid: self.regionid,
            dotsel: self.dotsel,
            mshnmi: self.mshnmi,
            sysres: self.sysres,
            sndres: self.sndres,
            cdres: self.cdres,
            clock: self.clock,
            host_seconds: self.host_seconds,
            port1: self.port1,
            port2: self.port2,
            snap1: snap_view(self.snap1),
            snap2: snap_view(self.snap2),
            first_peri: self.first_peri,
            intback: self.intback,
            pending_command: self.pending_command,
            dispatch_ready: self.dispatch_ready,
        }
    }

    pub open spec fn wf(&self) -> bool {
        self@.wf()
    }

    /// The power-on state with language 0.
    pub fn new() -> (r: Self)
        ensures
            r.wf(),
            r@ == smpc_init(0),
    {
        Self::with_language(0)
    }

    /// The power-on state. The language stands in the last byte of backup
    /// memory, a pad is in port 1 and nothing in port 2.
    pub fn with_language(language_id: u8) -> (r: Self)
        ensures
            r.wf(),
            r@ == smpc_init(language_id),
    {
        let r = Self {
            resd: true,
            bustmp: 0,
            smem: [0, 0, 0, language_id],
            regionid: region::AUTODETECT,
            dotsel: false,
            mshnmi: false,
            sysres: false,
            sndres: false,
            cdres: false,
            clock: ClockSource::HostWallClock,
            host_seconds: 0,
            port1: PeripheralState::Pad(PadState::default()),
            port2: PeripheralState::Disconnected,
            snap1: None,
            snap2: None,
            first_peri: false,
            intback: false,
            pending_command: None,
            dispatch_ready: false,
        };
        assert(r@.smem =~= smpc_init(language_id).smem);
        r
    }

    /// Choose the region that INTBACK reports.
    pub fn set_region(&mut self, regionid: u8)
        ensures
            final(self)@ == (SmpcView { regionid, ..old(self)@ }),
    {
        self.regionid = regionid;
    }

    /// Plug a peripheral of the given kind into a port, in its idle state, or
    /// unplug what is there. Ports other than 1 and 2 do not exist.
    pub fn set_port_peripheral(&mut self, port: usize, kind: Option<PeripheralKind>)
        ensures
            match kind {
                None => final(self)@ == with_port(
                    old(self)@,
                    port as int,
                    PeripheralState::Disconnected,
                ),
                Some(k) => exists|state: PeripheralState|
                    #![trigger is_idle(state, k)]
                    is_idle(state, k) && final(self)@ == with_port(old(self)@, port as int, state),
            },
    {
        let state = match kind {
            None => PeripheralState::Disconnected,
            Some(PeripheralKind::Pad) => PeripheralState::Pad(PadState::default()),
            Some(PeripheralKind::Wheel) => PeripheralState::Wheel(WheelState::default()),
            Some(PeripheralKind::MissionStick) => PeripheralState::MissionStick(
                MissionStickState::default(),
            ),
            Some(PeripheralKind::Pad3D) => PeripheralState::Pad3D(Pad3DState::default()),
            Some(PeripheralKind::TwinSticks) => PeripheralState::TwinSticks(
                TwinSticksState::default(),
            ),
            Some(PeripheralKind::Gun) => PeripheralState::Gun(GunState::default()),
            Some(PeripheralKind::Keyboard) => PeripheralState::Keyboard(
                KeyboardState::default(),
            ),
            Some(PeripheralKind::Mouse) => PeripheralState::Mouse(MouseState::default()),
        };
        assert(kind is Some ==> is_idle(state, kind.unwrap()));
        self.set_peripheral_state(port, state);
    }

    /// Set the buttons of a pad, plugging one in if there was none.
    pub fn set_pad_state(&mut self, port: usize, state: PadState)
        ensures
            final(self)@ == with_port(old(self)@, port as int, PeripheralState::Pad(state)),
    {
        self.set_peripheral_state(port, PeripheralState::Pad(state));
    }

    /// Set what is in a port, live state and all.
    pub fn set_peripheral_state(&mut self, port: usize, state: PeripheralState)
        ensures
            final(self)@ == with_port(old(self)@, port as int, state),
    {
        if port == 1 {
            self.port1 = state;
        } else if port == 2 {
            self.port2 = state;
        }
    }

    /// Whether the reset button is disabled.
    pub fn is_resd(&self) -> (r: bool)
        ensures
            r == self@.resd,
    {
        self.resd
    }

    /// Choose where the time comes from.
    pub fn set_clock(&mut self, clock: ClockSource)
        ensures
            final(self)@ == (SmpcView { clock, ..old(self)@ }),
    {
        self.clock = clock;
    }

    /// Report the host's time in seconds since 1 January 1970.
    pub fn set_host_seconds(&mut self, host_seconds: u64)
        ensures
            final(self)@ == (SmpcView { host_seconds, ..old(self)@ }),
    {
        self.host_seconds = host_seconds;
    }

    /// React to a byte written to register offset `off`. The byte already
    /// stands in the register; `old_val` is what stood there before. Returns
    /// the timing of a command that this armed.
    pub fn on_register_write(
        &mut self,
        off: usize,
        val: u8,
        old_val: u8,
        work_ram: &mut WorkRam,
    ) -> (r: Option<(u32, bool)>)
        requires
            old(self).wf(),
            old(work_ram).wf(),
        ensures
            final(self).wf(),
            final(work_ram).wf(),
            r == register_write_arms(world(old(self), old(work_ram)), off as int, val),
            ({
                let w = register_written(
                    world(old(self), old(work_ram)),
                    off as int,
                    val,
                    old_val,
                );
                &&& final(self)@ == w.chip
                &&& final(work_ram)@ == (Memory { smpc_regs: w.regs, ..old(work_ram)@ })
            }),
    {
        self.react_to_write(off, val, old_val, &mut work_ram.smpc_regs)
    }

    #[verifier::rlimit(30)]
    fn react_to_write(
        &mut self,
        off: usize,
        val: u8,
        old_val: u8,
        regs: &mut Vec<u8>,
    ) -> (r: Option<(u32, bool)>)
        requires
            old(self).wf(),
            old(regs)@.len() == SMPC_REGS_SIZE,
        ensures
            final(self).wf(),
            final(regs)@.len() == SMPC_REGS_SIZE,
            r == register_write_arms(
                SmpcWorld { chip: old(self)@, regs: old(regs)@ },
                off as int,
                val,
            ),
            (SmpcWorld { chip: final(self)@, regs: final(regs)@ }) == register_written(
                SmpcWorld { chip: old(self)@, regs: old(regs)@ },
                off as int,
                val,
                old_val,
            ),
    {
        if off != reg::SF {
            self.bustmp = val;
        }
        if off == reg::IREG0 && self.intback {
            if val / 64 % 2 == 1 {
                self.intback = false;
                let sr: u8 = regs[reg::SR];
                regs[reg::SR] = sr % 16;
                self.snap1 = None;
                self.snap2 = None;
                return None;
            } else if val / 128 == 1 {
                return Some(self.arm(cmd::INTBACK, regs));
            }
        }
        if off == reg::PDR1 {
            self.write_pdr(1, val, old_val, regs);
        } else if off == reg::PDR2 {
            self.write_pdr(2, val, old_val, regs);
        } else if off == reg::DDR1 {
            if let Some(nibble) = Self::ddr_id_nibble(&self.port1) {
                regs[reg::PDR1] = nibble;
            }
        } else if off == reg::DDR2 {
            if let Some(nibble) = Self::ddr_id_nibble(&self.port2) {
                regs[reg::PDR2] = nibble;
            }
        }
        None
    }

    /// Answer a write to the data register of a port, under the control method
    /// that its direction register selects.
    fn write_pdr(&self, port: usize, val: u8, old_val: u8, regs: &mut Vec<u8>)
        requires
            old(regs)@.len() == SMPC_REGS_SIZE,
            port == 1 || port == 2,
        ensures
            port == 1 ==> final(regs)@ == old(regs)@.update(
                reg::PDR1 as int,
                pdr_response(1, self@.port1, old(regs)@[reg::DDR1 as int], val, old_val),
            ),
            port == 2 ==> final(regs)@ == old(regs)@.update(
                reg::PDR2 as int,
                pdr_response(2, self@.port2, old(regs)@[reg::DDR2 as int], val, old_val),
            ),
    {
        reveal(pdr_response);
        let state: PeripheralState = if port == 1 {
            self.port1
        } else {
            self.port2
        };
        let ddr: u8 = if port == 1 {
            regs[reg::DDR1]
        } else {
            regs[reg::DDR2]
        };
        let method: u8 = ddr % 128;
        let pd = state.to_port_data();
        let b2: u8 = pd.data[0];
        let b3: u8 = pd.data[1];
        let res: u8 = if method == 0 {
            match state {
                PeripheralState::Gun(gun) => {
                    if val % 128 == 0x7F {
                        let mut b: u8 = 0xFF;
                        if gun.trigger {
                            b -= 0x10;
                        }
                        if gun.start {
                            b -= 0x20;
                        }
                        b
                    } else {
                        old_val
                    }
                },
                _ => old_val,
            }
        } else if method == 0x40 && port == 1 {
            if val / 64 % 2 == 1 {
                0x70 + b3 / 4 % 4 * 4
            } else {
                0x30 + b2 / 16
            }
        } else if method == 0x60 {
            let keep: u8 = val / 128 * 128;
            let phase: u8 = val / 32 % 4;
            if phase == 3 {
                keep + 0x14 + b3 / 8 % 2 * 8
            } else if phase == 1 {
                keep + 0x10 + b2 / 16
            } else if phase == 2 {
                keep + 0x10 + b2 % 16
            } else {
                keep + 0x10 + b3 / 16
            }
        } else {
            old_val
        };
        if port == 1 {
            regs[reg::PDR1] = res;
        } else {
            regs[reg::PDR2] = res;
        }
    }

    /// The identification byte a peripheral shows on the pins of its port.
    pub fn ddr_id_nibble(state: &PeripheralState) -> (r: Option<u8>)
        ensures
            r == id_pins(*state),
    {
        match *state {
            PeripheralState::Disconnected => Some(0x7F),
            PeripheralState::Gun(_) => Some(0x7C),
            PeripheralState::Pad(_) => Some(0x7C),
            PeripheralState::Pad3D(_) => Some(0x71),
            PeripheralState::Keyboard(_) => Some(0x71),
            PeripheralState::Mouse(_) => Some(0x70),
            _ => None,
        }
    }

    /// Read the busy flag. Only bit 0 is driven by the chip; the others show
    /// what was last on the data bus.
    pub fn read_sf(&mut self, work_ram: &WorkRam) -> (r: u8)
        requires
            work_ram.wf(),
        ensures
            r == sf_value(world(old(self), work_ram)),
            final(self)@ == (SmpcView { bustmp: r, ..old(self)@ }),
    {
        let sf_bit: u8 = work_ram.smpc_regs[reg::SF] % 2;
        self.bustmp = self.bustmp / 2 * 2 + sf_bit;
        self.bustmp
    }

    /// Let a command wait for its delay, and show the chip as busy.
    pub fn arm_command(&mut self, command: u8, work_ram: &mut WorkRam) -> (r: (u32, bool))
        requires
            old(self).wf(),
            old(work_ram).wf(),
        ensures
            final(self).wf(),
            final(work_ram).wf(),
            r == command_delay(old(self)@, old(work_ram)@.smpc_regs, command),
            final(self)@ == armed(old(self)@, old(work_ram)@.smpc_regs, command),
            final(work_ram)@ == (Memory {
                smpc_regs: old(work_ram)@.smpc_regs.update(reg::SF as int, 1),
                ..old(work_ram)@
            }),
    {
        self.arm(command, &mut work_ram.smpc_regs)
    }

    fn arm(&mut self, command: u8, regs: &mut Vec<u8>) -> (r: (u32, bool))
        requires
            old(self).wf(),
            old(regs)@.len() == SMPC_REGS_SIZE,
        ensures
            final(self).wf(),
            r == command_delay(old(self)@, old(regs)@, command),
            final(self)@ == armed(old(self)@, old(regs)@, command),
            final(regs)@ == old(regs)@.update(reg::SF as int, 1),
    {
        let ireg0: u8 = regs[reg::IREG0];
        let ireg1: u8 = regs[reg::IREG1];
        let (delay_us, wait_for_line): (u32, bool) = if command != cmd::INTBACK {
            (1, false)
        } else if self.intback {
            (16000, true)
        } else if ireg0 == 1 {
            (250, false)
        } else if ireg0 == 0 && ireg1 / 8 % 2 == 1 {
            (16000, true)
        } else {
            (1, false)
        };
        regs[reg::SF] = 1;
        self.pending_command = Some((command, delay_us, wait_for_line));
        self.dispatch_ready = false;
        (delay_us, wait_for_line)
    }

    /// Let the waiting command run.
    pub fn mark_dispatch_ready(&mut self)
        ensures
            final(self)@ == (SmpcView { dispatch_ready: true, ..old(self)@ }),
    {
        self.dispatch_ready = true;
    }

    /// Whether the waiting command may run.
    pub fn is_dispatch_ready(&self) -> (r: bool)
        ensures
            r == self@.dispatch_ready,
    {
        self.dispatch_ready
    }

    /// Run the waiting command, if there is one.
    pub fn execute_expired_command(&mut self, work_ram: &mut WorkRam) -> (r: SmpcEffects)
        requires
            old(self).wf(),
            old(work_ram).wf(),
        ensures
            final(self).wf(),
            final(work_ram).wf(),
            r == expired_effects(old(self)@),
            ({
                let w = expired_done(world(old(self), old(work_ram)));
                &&& final(self)@ == w.chip
                &&& final(work_ram)@ == (Memory { smpc_regs: w.regs, ..old(work_ram)@ })
            }),
    {
        if let Some((command, _, _)) = self.pending_command {
            self.pending_command = None;
            self.dispatch_ready = false;
            work_ram.smpc_regs[reg::SF] = 0;
            return self.run_command(command, &mut work_ram.smpc_regs);
        }
        SmpcEffects::default()
    }

    /// The output bytes of a status request.
    fn status_report(&self) -> (r: Vec<u8>)
        ensures
            r@ == status_bytes(self@),
            r@.len() == OREG_COUNT,
    {
        reveal(status_bytes);
        let (year, month, day, hour, minute, second, weekday): (
            u64,
            u8,
            u8,
            u8,
            u8,
            u8,
            u8,
        ) = self.clock.now_utc(self.host_seconds);
        assert(month <= 12 && weekday < 7);
        let mut r: Vec<u8> = Vec::new();
        r.push(
            if self.resd {
                0xC0
            } else {
                0x80
            },
        );
        r.push(((year / 1000 % 16) * 16 + (year % 1000) / 100) as u8);
        r.push(((year % 100 / 10) * 16 + year % 10) as u8);
        r.push(weekday * 16 + month);
        r.push(bcd(day));
        r.push(bcd(hour));
        r.push(bcd(minute));
        r.push(bcd(second));
        r.push(0);
        r.push(
            if self.regionid == region::AUTODETECT {
                region::JAPAN
            } else {
                self.regionid
            },
        );
        let mut flags: u8 = 0x34;
        if self.dotsel {
            flags += 0x40;
        }
        if self.mshnmi {
            flags += 0x08;
        }
        if self.sysres {
            flags += 0x02;
        }
        if self.sndres {
            flags += 0x01;
        }
        r.push(flags);
        r.push(
            if self.cdres {
                0x40
            } else {
                0
            },
        );
        r.push(self.smem[0]);
        r.push(self.smem[1]);
        r.push(self.smem[2]);
        r.push(self.smem[3]);
        let ghost first = r@;
        let mut i: usize = 0;
        while i < 15
            invariant
                i <= 15,
                r@ == first + Seq::new(i as nat, |k: int| 0u8),
            decreases 15 - i,
        {
            r.push(0);
            i += 1;
            assert(r@ =~= first + Seq::new(i as nat, |k: int| 0u8));
        }
        r.push(cmd::INTBACK);
        assert(r@ =~= status_bytes(self@));
        r
    }

    /// Hand out one chunk of peripheral data.
    #[verifier::rlimit(30)]
    fn peripheral_chunk(&mut self, regs: &mut Vec<u8>)
        requires
            old(self).wf(),
            old(regs)@.len() == SMPC_REGS_SIZE,
        ensures
            final(self).wf(),
            final(regs)@.len() == SMPC_REGS_SIZE,
            (SmpcWorld { chip: final(self)@, regs: final(regs)@ }) == chunk_done(
                SmpcWorld { chip: old(self)@, regs: old(regs)@ },
            ),
    {
        reveal(chunk_done);
        let ireg0: u8 = regs[reg::IREG0];
        let ireg1: u8 = regs[reg::IREG1];
        if ireg0 == 0 {
            self.intback = true;
            self.first_peri = true;
        }
        let first: bool = self.first_peri;
        let mut p1: PortData = PortData::default();
        let mut p2: PortData = PortData::default();
        if first {
            p1 = self.port1.to_port_data();
            p2 = self.port2.to_port_data();
            self.port1.flush_mouse_deltas();
            self.port2.flush_mouse_deltas();
        } else {
            if let Some(p) = self.snap1 {
                p1 = p;
            }
            if let Some(p) = self.snap2 {
                p2 = p;
            }
        }
        Self::chunk_port_data(&mut p1, &mut p2, regs);
        self.snap1 = Some(p1);
        self.snap2 = Some(p2);
        regs[reg::SR] = (if first {
            0xC0
        } else {
            0x80
        }) + ireg1 / 16;
        self.first_peri = false;
    }

    /// Report the status, or hand out or break off peripheral data.
    #[verifier::rlimit(30)]
    fn run_intback(&mut self, regs: &mut Vec<u8>)
        requires
            old(self).wf(),
            old(regs)@.len() == SMPC_REGS_SIZE,
        ensures
            final(self).wf(),
            final(regs)@.len() == SMPC_REGS_SIZE,
            (SmpcWorld { chip: final(self)@, regs: final(regs)@ }) == intback_body(
                SmpcWorld { chip: old(self)@, regs: old(regs)@ },
            ),
    {
        reveal(intback_body);
        let ireg0: u8 = regs[reg::IREG0];
        let ireg1: u8 = regs[reg::IREG1];
        if ireg0 % 2 == 1 {
            let bytes = self.status_report();
            put_oregs(regs, &bytes);
            regs[reg::SR] = if ireg1 / 8 % 2 == 1 {
                0x6F
            } else {
                0x4F
            };
        } else if ireg1 / 8 % 2 == 1 {
            if ireg0 / 64 % 2 == 1 {
                self.intback = false;
                let sr: u8 = regs[reg::SR];
                regs[reg::SR] = sr % 16;
            } else {
                self.peripheral_chunk(regs);
            }
        }
    }

    /// Carry out a command.
    pub fn execute_command(&mut self, command: u8, work_ram: &mut WorkRam) -> (r: SmpcEffects)
        requires
            old(self).wf(),
            old(work_ram).wf(),
        ensures
            final(self).wf(),
            final(work_ram).wf(),
            r == command_effects(command),
            ({
                let w = command_done(world(old(self), old(work_ram)), command);
                &&& final(self)@ == w.chip
                &&& final(work_ram)@ == (Memory { smpc_regs: w.regs, ..old(work_ram)@ })
            }),
    {
        self.run_command(command, &mut work_ram.smpc_regs)
    }

    #[verifier::rlimit(50)]
    fn run_command(&mut self, command: u8, regs: &mut Vec<u8>) -> (r: SmpcEffects)
        requires
            old(self).wf(),
            old(regs)@.len() == SMPC_REGS_SIZE,
        ensures
            final(self).wf(),
            final(regs)@.len() == SMPC_REGS_SIZE,
            r == command_effects(command),
            (SmpcWorld { chip: final(self)@, regs: final(regs)@ }) == command_done(
                SmpcWorld { chip: old(self)@, regs: old(regs)@ },
                command,
            ),
    {
        let mut effects = SmpcEffects::default();
        if command == cmd::SSHON {
            effects.start_slave = true;
        } else if command == cmd::SSHOFF {
            effects.stop_slave = true;
        } else if command == cmd::SNDON {
            effects.sound_on = true;
            Self::echo_oreg31(regs, cmd::SNDON);
        } else if command == cmd::SNDOFF {
            effects.sound_off = true;
            Self::echo_oreg31(regs, cmd::SNDOFF);
        } else if command == cmd::SYSRES {
            effects.system_reset = true;
        } else if command == cmd::CKCHG352 {
            effects.clock_change = Some(true);
            effects.stop_slave = true;
            self.dotsel = true;
            effects.nmi = true;
        } else if command == cmd::CKCHG320 {
            effects.clock_change = Some(false);
            effects.stop_slave = true;
            self.dotsel = false;
            effects.nmi = true;
        } else if command == cmd::INTBACK {
            effects.system_manager_irq = true;
            self.run_intback(regs);
        } else if command == cmd::SETSMEM {
            let smem: [u8; 4] = [
                regs[reg::IREG0],
                regs[reg::IREG1],
                regs[reg::IREG2],
                regs[reg::IREG3],
            ];
            self.smem = smem;
            assert(self.smem@ =~= command_body(
                SmpcWorld { chip: old(self)@, regs: old(regs)@ },
                command,
            ).chip.smem);
            Self::echo_oreg31(regs, cmd::SETSMEM);
        } else if command == cmd::NMIREQ {
            effects.nmi = true;
            Self::echo_oreg31(regs, cmd::NMIREQ);
        } else if command == cmd::RESENAB {
            self.resd = false;
            Self::echo_oreg31(regs, cmd::RESENAB);
        } else if command == cmd::RESDISA {
            self.resd = true;
            Self::echo_oreg31(regs, cmd::RESDISA);
        }
        regs[reg::SF] = 0;
        effects
    }

    /// Fill the output registers with what is due of both snapshots.
    fn chunk_port_data(p1: &mut PortData, p2: &mut PortData, ram: &mut Vec<u8>)
        requires
            old(p1).wf(),
            old(p2).wf(),
            old(ram)@.len() == SMPC_REGS_SIZE,
        ensures
            final(p1).wf(),
            final(p2).wf(),
            final(p1)@ == port_advanced(old(p1)@, OREG_COUNT as int),
            final(p2)@ == port_advanced(old(p2)@, chunk_room(old(p1)@)),
            final(ram)@ == oregs_filled(old(ram)@, chunk_bytes(old(p1)@, old(p2)@)),
    {
        reveal(chunk_bytes);
        let mut out: Vec<u8> = Vec::new();
        emit_port(p1, &mut out);
        assert(out@ =~= port_emitted(old(p1)@, OREG_COUNT as int));
        emit_port(p2, &mut out);
        put_oregs(ram, &out);
    }

    /// Echo a command in the last output register.
    fn echo_oreg31(regs: &mut Vec<u8>, command: u8)
        requires
            old(regs)@.len() == SMPC_REGS_SIZE,
        ensures
            final(regs)@ == old(regs)@.update(reg::OREG_BASE + 62, command),
    {
        regs[reg::oreg(31)] = command;
    }
}

/// A chip together with the registers in shared memory.
pub open spec fn world(s: &Smpc, work_ram: &WorkRam) -> SmpcWorld {
    SmpcWorld { chip: s@, regs: work_ram@.smpc_regs }
}

/// What the busy flag reads as.
pub open spec fn sf_value(w: SmpcWorld) -> u8 {
    (w.chip.bustmp / 2 * 2 + w.regs[reg::SF as int] % 2) as u8
}

/// The power-on state.
pub open spec fn smpc_init(language_id: u8) -> SmpcView {
    SmpcView {
        resd: true,
        bustmp: 0,
        smem: seq![0u8, 0u8, 0u8, language_id],
        regionid: region::AUTODETECT,
        dotsel: false,
        mshnmi: false,
        sysres: false,
        sndres: false,
        cdres: false,
        clock: ClockSource::HostWallClock,
        host_seconds: 0,
        port1: PeripheralState::Pad(pad_idle()),
        port2: PeripheralState::Disconnected,
        snap1: None,
        snap2: None,
        first_peri: false,
        intback: false,
        pending_command: None,
        dispatch_ready: false,
    }
}

/// The chip with something in a port.
pub open spec fn with_port(s: SmpcView, port: int, state: PeripheralState) -> SmpcView {
    if port == 1 {
        SmpcView { port1: state, ..s }
    } else if port == 2 {
        SmpcView { port2: state, ..s }
    } else {
        s
    }
}

/// Whether a peripheral is of the given kind, with nothing pressed or moved.
pub open spec fn is_idle(state: PeripheralState, kind: PeripheralKind) -> bool {
    match (kind, state) {
        (PeripheralKind::Pad, PeripheralState::Pad(p)) => p == pad_idle(),
        (PeripheralKind::Wheel, PeripheralState::Wheel(w)) => w == (WheelState {
            buttons: pad_idle(),
            axis1: 0x7F,
        }),
        (PeripheralKind::MissionStick, PeripheralState::MissionStick(k)) => k == (
        MissionStickState { buttons: pad_idle(), axis1: 0x7F, axis2: 0x7F, axis3: 0x7F }),
        (PeripheralKind::Pad3D, PeripheralState::Pad3D(k)) => k == (Pad3DState {
            buttons: pad_idle(),
            axis1: 0x7F,
            axis2: 0x7F,
            axis3: 0x7F,
            axis4: 0x7F,
        }),
        (PeripheralKind::TwinSticks, PeripheralState::TwinSticks(k)) => k == (TwinSticksState {
            buttons: pad_idle(),
            axis1: 0x7F,
            axis2: 0x7F,
            axis3: 0x7F,
            axis4: 0x7F,
            axis5: 0x7F,
            axis6: 0x7F,
            axis7: 0x7F,
        }),
        (PeripheralKind::Gun, PeripheralState::Gun(g)) => g == (GunState {
            trigger: false,
            start: false,
        }),
        (PeripheralKind::Keyboard, PeripheralState::Keyboard(k)) => k == (KeyboardState {
            buttons: pad_idle(),
            flags: 0x06,
            key: 0,
        }),
        (PeripheralKind::Mouse, PeripheralState::Mouse(m)) => m
            == crate::peripheral::mouse_idle(),
        _ => false,
    }
}

impl Default for Smpc {
    fn default() -> (r: Self)
        ensures
            r.wf(),
            r@ == smpc_init(0),
    {
        Self::new()
    }
}

} // verus!
