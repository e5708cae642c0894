//! What the commands do by their codes, and what the output registers spell out.

use crate::peripheral::{
    bit_if, mouse_flags, pad_high, pad_low, report, wheel_high, GunState, MouseState, PadState, PeripheralState,
};
use crate::shared_buffers::SMPC_REGS_SIZE;
use crate::smpc::clock::{bcd_round_trip, clock_seconds, shows, time_is_unique, utc_time};
use crate::smpc::laws::status_is_handed_out;
use crate::smpc::{
    chunk_bytes, chunk_done, command_delay, command_done, command_effects, expired_done,
    expired_effects, id_pins, intback_body, no_effects, pdr_response, port_emitted, port_pending,
    register_written, sf_value, status_bytes, SmpcView, SmpcWorld,
};
use vstd::prelude::*;

verus! {

/// Whether bit `n` of a byte, counted from the lowest, is set.
#[verifier::opaque]
pub open spec fn has_bit(v: u8, n: int) -> bool {
    let w = v as int;
    if n == 0 {
        w % 2 == 1
    } else if n == 1 {
        w / 2 % 2 == 1
    } else if n == 2 {
        w / 4 % 2 == 1
    } else if n == 3 {
        w / 8 % 2 == 1
    } else if n == 4 {
        w / 16 % 2 == 1
    } else if n == 5 {
        w / 32 % 2 == 1
    } else if n == 6 {
        w / 64 % 2 == 1
    } else {
        w / 128 % 2 == 1
    }
}

/// A number put together from eight bits has those bits.
#[verifier::spinoff_prover]
proof fn eight_bits(
    v: u8,
    b7: bool,
    b6: bool,
    b5: bool,
    b4: bool,
    b3: bool,
    b2: bool,
    b1: bool,
    b0: bool,
)
    requires
        v == bit_if(b7, 0x80) + bit_if(b6, 0x40) + bit_if(b5, 0x20) + bit_if(b4, 0x10) + bit_if(
            b3,
            0x08,
        ) + bit_if(b2, 0x04) + bit_if(b1, 0x02) + bit_if(b0, 0x01),
    ensures
        has_bit(v, 7) == b7,
        has_bit(v, 6) == b6,
        has_bit(v, 5) == b5,
        has_bit(v, 4) == b4,
        has_bit(v, 3) == b3,
        has_bit(v, 2) == b2,
        has_bit(v, 1) == b1,
        has_bit(v, 0) == b0,
{
    reveal(has_bit);
    let x0 = bit_if(b0, 1);
    let x1 = bit_if(b1, 1);
    let x2 = bit_if(b2, 1);
    let x3 = bit_if(b3, 1);
    let x4 = bit_if(b4, 1);
    let x5 = bit_if(b5, 1);
    let x6 = bit_if(b6, 1);
    let x7 = bit_if(b7, 1);
    let r7 = x7;
    let r6 = x6 + 2 * r7;
    let r5 = x5 + 2 * r6;
    let r4 = x4 + 2 * r5;
    let r3 = x3 + 2 * r4;
    let r2 = x2 + 2 * r3;
    let r1 = x1 + 2 * r2;
    assert(v == x0 + 2 * r1);
    assert(v as int / 2 == r1 && v as int % 2 == x0);
    assert(v as int / 4 == r2 && r1 % 2 == x1);
    assert(v as int / 8 == r3 && r2 % 2 == x2);
    assert(v as int / 16 == r4 && r3 % 2 == x3);
    assert(v as int / 32 == r5 && r4 % 2 == x4);
    assert(v as int / 64 == r6 && r5 % 2 == x5);
    assert(v as int / 128 == r7 && r6 % 2 == x6);
}

/// The lower half of a byte holds its lower four bits, the upper half the others.
proof fn half_bits(v: u8, h: u8)
    ensures
        h as int == v as int / 16 ==> has_bit(h, 0) == has_bit(v, 4) && has_bit(h, 1) == has_bit(
            v,
            5,
        ) && has_bit(h, 2) == has_bit(v, 6) && has_bit(h, 3) == has_bit(v, 7),
        h as int == v as int % 16 ==> has_bit(h, 0) == has_bit(v, 0) && has_bit(h, 1) == has_bit(
            v,
            1,
        ) && has_bit(h, 2) == has_bit(v, 2) && has_bit(h, 3) == has_bit(v, 3),
{
    reveal(has_bit);
}

/// A byte above 15 with a lower half added has the bits of both.
proof fn added_half(v: u8, keep: int, h: u8)
    requires
        h < 16,
        keep == 0 || keep == 1,
        v == keep * 0x80 + 0x10 + h,
    ensures
        has_bit(v, 7) == (keep == 1),
        !has_bit(v, 6),
        !has_bit(v, 5),
        has_bit(v, 4),
        has_bit(v, 3) == has_bit(h, 3),
        has_bit(v, 2) == has_bit(h, 2),
        has_bit(v, 1) == has_bit(h, 1),
        has_bit(v, 0) == has_bit(h, 0),
        v % 8 == h % 8,
{
    reveal(has_bit);
}

/// Only 0x02 starts the slave; only 0x03 and the two clock changes 0x0E and 0x0F stop it. The
/// sound processor is switched on by 0x06 and off by 0x07, and by nothing else. 0x0D resets
/// the system, 0x18 and the clock changes interrupt the master, 0x10 raises the System
/// Manager's interrupt, and each clock change says which clock it is.
pub proof fn commands_reach_the_right_chips(command: u8)
    ensures
        command_effects(command).start_slave <==> command == 0x02,
        command_effects(command).stop_slave <==> command == 0x03 || command == 0x0E || command
            == 0x0F,
        command_effects(command).sound_on <==> command == 0x06,
        command_effects(command).sound_off <==> command == 0x07,
        command_effects(command).system_reset <==> command == 0x0D,
        command_effects(command).system_manager_irq <==> command == 0x10,
        command_effects(command).nmi <==> command == 0x18 || command == 0x0E || command == 0x0F,
        command_effects(command).clock_change == Some(true) <==> command == 0x0E,
        command_effects(command).clock_change == Some(false) <==> command == 0x0F,
{
}

/// No command both starts and stops the slave, nor switches the sound both on and off.
pub proof fn commands_do_not_contradict_themselves(command: u8)
    ensures
        !(command_effects(command).start_slave && command_effects(command).stop_slave),
        !(command_effects(command).sound_on && command_effects(command).sound_off),
        command_effects(command).clock_change is Some ==> command_effects(command).stop_slave
            && command_effects(command).nmi,
{
}

/// Apart from INTBACK, 0x10, a command changes nothing in the chip but the dot clock (0x0E
/// sets it, 0x0F clears it), the reset button (0x19 lets it through, 0x1A does not), and the
/// backup memory, which 0x17 takes from the input registers at 1, 3, 5 and 7.
pub proof fn commands_change_their_own_state(w: SmpcWorld, command: u8)
    requires
        w.regs.len() == SMPC_REGS_SIZE,
        command != 0x10,
    ensures
        ({
            let after = command_done(w, command).chip;
            &&& after.dotsel == (command == 0x0E || (w.chip.dotsel && command != 0x0F))
            &&& after.resd == (command == 0x1A || (w.chip.resd && command != 0x19))
            &&& command != 0x17 ==> after.smem == w.chip.smem
            &&& command == 0x17 ==> after.smem.len() == 4 && forall|i: int|
                0 <= i < 4 ==> #[trigger] after.smem[i] == w.regs[2 * i + 1]
            &&& after == (SmpcView {
                dotsel: after.dotsel,
                resd: after.resd,
                smem: after.smem,
                ..w.chip
            })
        }),
{
}

/// Only INTBACK takes more than a microsecond: a status request 250, and peripheral data wait
/// 16000 and for a scan line.
pub proof fn commands_take_their_time(s: SmpcView, regs: Seq<u8>, command: u8)
    requires
        regs.len() == SMPC_REGS_SIZE,
    ensures
        command_delay(s, regs, command).1 <==> command == 0x10 && (s.intback || (regs[1] == 0
            && has_bit(regs[3], 3))),
        command_delay(s, regs, command).0 == 16000 <==> command_delay(s, regs, command).1,
        command_delay(s, regs, command).0 == 250 <==> command == 0x10 && !s.intback && regs[1]
            == 1,
        command_delay(s, regs, command).0 == 16000 || command_delay(s, regs, command).0 == 250
            || command_delay(s, regs, command).0 == 1,
{
    reveal(has_bit);
}

/// The digits of a time in the bytes of a status request.
#[verifier::spinoff_prover]
proof fn time_in_nibbles(s: SmpcView, t: (u64, u8, u8, u8, u8, u8, u8))
    requires
        t == utc_time(clock_seconds(s.clock, s.host_seconds) as int),
        shows(t, clock_seconds(s.clock, s.host_seconds) as int),
        t.0 < 10_000,
    ensures
        ({
            let b = status_bytes(s);
            &&& b[1] / 16 * 1000 + b[1] % 16 * 100 + b[2] / 16 * 10 + b[2] % 16 == t.0
            &&& b[3] / 16 == t.6
            &&& b[3] % 16 == t.1
            &&& b[4] / 16 * 10 + b[4] % 16 == t.2
            &&& b[5] / 16 * 10 + b[5] % 16 == t.3
            &&& b[6] / 16 * 10 + b[6] % 16 == t.4
            &&& b[7] / 16 * 10 + b[7] % 16 == t.5
            &&& b[2] % 16 <= 9
            &&& b[4] % 16 <= 9
            &&& b[5] % 16 <= 9
            &&& b[6] % 16 <= 9
            &&& b[7] % 16 <= 9
        }),
{
    reveal(status_bytes);
    let y = t.0 as int;
    let b = status_bytes(s);
    assert(y / 1000 <= 9 && y % 1000 / 100 <= 9);
    assert(b[1] == y / 1000 * 16 + y % 1000 / 100);
    assert(b[2] == y % 100 / 10 * 16 + y % 10);
    assert(b[1] / 16 == y / 1000 && b[1] % 16 == y % 1000 / 100);
    assert(b[2] / 16 == y % 100 / 10 && b[2] % 16 == y % 10);
    assert(t.6 < 7 && 1 <= t.1 <= 12 && t.2 <= 31);
    bcd_round_trip(t.2);
    bcd_round_trip(t.3);
    bcd_round_trip(t.4);
    bcd_round_trip(t.5);
}

/// Output registers 1 to 7 of a status request spell out the year, the weekday and month, the
/// day and the time of day, one decimal digit to a nibble (the month in one hexadecimal
/// digit). The registers stand two bytes apart.
#[verifier::spinoff_prover]
pub proof fn status_spells_out_the_time(w: SmpcWorld, t: (u64, u8, u8, u8, u8, u8, u8))
    requires
        w.regs.len() == SMPC_REGS_SIZE,
        has_bit(w.regs[1], 0),
        shows(t, clock_seconds(w.chip.clock, w.chip.host_seconds) as int),
        t.0 < 10_000,
    ensures
        ({
            let after = command_done(w, 0x10).regs;
            &&& after[0x23] / 16 * 1000 + after[0x23] % 16 * 100 + after[0x25] / 16 * 10
                + after[0x25] % 16 == t.0
            &&& after[0x27] / 16 == t.6
            &&& after[0x27] % 16 == t.1
            &&& after[0x29] / 16 * 10 + after[0x29] % 16 == t.2
            &&& after[0x2B] / 16 * 10 + after[0x2B] % 16 == t.3
            &&& after[0x2D] / 16 * 10 + after[0x2D] % 16 == t.4
            &&& after[0x2F] / 16 * 10 + after[0x2F] % 16 == t.5
            &&& after[0x25] % 16 <= 9
            &&& after[0x29] % 16 <= 9
            &&& after[0x2B] % 16 <= 9
            &&& after[0x2D] % 16 <= 9
            &&& after[0x2F] % 16 <= 9
        }),
{
    reveal(has_bit);
    let secs = clock_seconds(w.chip.clock, w.chip.host_seconds) as int;
    assert(shows(utc_time(secs), secs));
    time_is_unique(t, utc_time(secs), secs);
    status_is_handed_out(w, 1);
    status_is_handed_out(w, 2);
    status_is_handed_out(w, 3);
    status_is_handed_out(w, 4);
    status_is_handed_out(w, 5);
    status_is_handed_out(w, 6);
    status_is_handed_out(w, 7);
    time_in_nibbles(w.chip, t);
}

/// The flags of a status request: the reset button in bit 6 of the first output register, with
/// bit 7 always set; in register 10 the dot clock, the master's interrupt line, system and
/// sound reset in bits 6, 3, 1 and 0, with bits 5, 4 and 2 always set; the CD reset in bit 6 of
/// register 11. The last register holds the code of the command.
#[verifier::spinoff_prover]
pub proof fn status_shows_the_flags(w: SmpcWorld)
    requires
        w.regs.len() == SMPC_REGS_SIZE,
        has_bit(w.regs[1], 0),
    ensures
        ({
            let after = command_done(w, 0x10).regs;
            &&& has_bit(after[0x21], 6) == w.chip.resd
            &&& has_bit(after[0x21], 7)
            &&& after[0x21] % 0x40 == 0
            &&& has_bit(after[0x35], 6) == w.chip.dotsel
            &&& has_bit(after[0x35], 3) == w.chip.mshnmi
            &&& has_bit(after[0x35], 1) == w.chip.sysres
            &&& has_bit(after[0x35], 0) == w.chip.sndres
            &&& has_bit(after[0x35], 5)
            &&& has_bit(after[0x35], 4)
            &&& has_bit(after[0x35], 2)
            &&& !has_bit(after[0x35], 7)
            &&& has_bit(after[0x37], 6) == w.chip.cdres
            &&& after[0x37] == 0 || after[0x37] == 0x40
            &&& after[0x5F] == 0x10
        }),
{
    reveal(has_bit);
    status_is_handed_out(w, 0);
    status_is_handed_out(w, 10);
    status_is_handed_out(w, 11);
    status_is_handed_out(w, 31);
    reveal(status_bytes);
}

/// The status register after a status request says in bit 5 whether peripheral data are still
/// to come; bits 6 and 3 to 0 are set and bits 7 and 4 are clear.
pub proof fn status_request_sets_its_register(w: SmpcWorld)
    requires
        w.regs.len() == SMPC_REGS_SIZE,
        has_bit(w.regs[1], 0),
    ensures
        command_done(w, 0x10).regs[0x61] == if has_bit(w.regs[3], 3) {
            0x6Fu8
        } else {
            0x4Fu8
        },
{
    reveal(has_bit);
    reveal(intback_body);
}

/// A chunk of peripheral data sets bit 7 of the status register, and bit 6 where it is the
/// first of its sequence. The first chunk reports what is plugged in now; a later one goes on
/// with what the first one saw. Port 1 comes before port 2.
#[verifier::spinoff_prover]
pub proof fn peripheral_request_hands_out_both_ports(w: SmpcWorld)
    requires
        w.regs.len() == SMPC_REGS_SIZE,
        !has_bit(w.regs[1], 0),
        !has_bit(w.regs[1], 6),
        has_bit(w.regs[3], 3),
    ensures
        ({
            let after = command_done(w, 0x10);
            let first = w.regs[1] == 0 || w.chip.first_peri;
            &&& has_bit(after.regs[0x61], 7)
            &&& has_bit(after.regs[0x61], 6) == first
            &&& after.regs[0x61] % 16 == w.regs[3] / 16
            &&& !has_bit(after.regs[0x61], 5)
            &&& !has_bit(after.regs[0x61], 4)
            &&& !after.chip.first_peri
            &&& w.regs[1] == 0 ==> after.chip.intback
            &&& after.chip.snap1 is Some && after.chip.snap2 is Some
            &&& first ==> forall|i: int|
                0 <= i < port_emitted(report(w.chip.port1), 32).len() && i < 32
                    ==> #[trigger] after.regs[0x21 + 2 * i] == port_pending(
                    report(w.chip.port1),
                )[i]
        }),
{
    reveal(has_bit);
    reveal(intback_body);
    reveal(chunk_done);
    reveal(chunk_bytes);
    reveal(port_emitted);
    let after = command_done(w, 0x10);
    let p1 = report(w.chip.port1);
    if w.regs[1] == 0 || w.chip.first_peri {
        assert forall|i: int| 0 <= i < port_emitted(p1, 32).len() && i < 32 implies
            #[trigger] after.regs[0x21 + 2 * i] == port_pending(p1)[i] by {
            assert((0x21 + 2 * i - 0x21) / 2 == i);
        }
    }
}

/// Breaking off, by bit 6 of the first input register, ends the sequence and clears the high
/// half of the status register.
pub proof fn breaking_off_ends_a_sequence(w: SmpcWorld)
    requires
        w.regs.len() == SMPC_REGS_SIZE,
        !has_bit(w.regs[1], 0),
        has_bit(w.regs[1], 6),
        has_bit(w.regs[3], 3),
    ensures
        !command_done(w, 0x10).chip.intback,
        command_done(w, 0x10).chip == (SmpcView { intback: false, ..w.chip }),
        command_done(w, 0x10).regs[0x61] == w.regs[0x61] % 16,
{
    reveal(has_bit);
    reveal(intback_body);
}

/// While a sequence is under way, a write to the first input register breaks it off by bit 6
/// and asks for the next chunk by bit 7 alone.
pub proof fn first_input_register_steers_a_sequence(w: SmpcWorld, val: u8, old_val: u8)
    requires
        w.regs.len() == SMPC_REGS_SIZE,
    ensures
        ({
            let after = register_written(w, 0x01, val, old_val);
            &&& after.chip.bustmp == val
            &&& !w.chip.intback ==> after.regs == w.regs && after.chip.pending_command
                == w.chip.pending_command
            &&& w.chip.intback && has_bit(val, 6) ==> !after.chip.intback && after.chip.snap1 is None
                && after.chip.snap2 is None && after.regs[0x61] == w.regs[0x61] % 16
            &&& w.chip.intback && has_bit(val, 7) && !has_bit(val, 6) ==> after.regs[0x63] == 1
                && after.chip.pending_command == Some((0x10u8, 16000u32, true))
                && !after.chip.dispatch_ready
            &&& w.chip.intback && !has_bit(val, 7) && !has_bit(val, 6) ==> after.regs == w.regs
                && after.chip.pending_command == w.chip.pending_command
        }),
{
    reveal(has_bit);
}

/// Each button of a pad has a bit of its own in the two bytes of its report, clear while the
/// button is held down. The three lowest bits are set.
#[verifier::spinoff_prover]
pub proof fn pad_reports_each_button(p: PadState)
    ensures
        ({
            let r = report(PeripheralState::Pad(p));
            &&& r.status == 0xF1 && r.id == 0x02 && r.size == 2 && r.offset == 0
            &&& has_bit(r.data[0], 7) == !p.right
            &&& has_bit(r.data[0], 6) == !p.left
            &&& has_bit(r.data[0], 5) == !p.down
            &&& has_bit(r.data[0], 4) == !p.up
            &&& has_bit(r.data[0], 3) == !p.start
            &&& has_bit(r.data[0], 2) == !p.a
            &&& has_bit(r.data[0], 1) == !p.c
            &&& has_bit(r.data[0], 0) == !p.b
            &&& has_bit(r.data[1], 7) == !p.r
            &&& has_bit(r.data[1], 6) == !p.x
            &&& has_bit(r.data[1], 5) == !p.y
            &&& has_bit(r.data[1], 4) == !p.z
            &&& has_bit(r.data[1], 3) == !p.l
            &&& has_bit(r.data[1], 2) && has_bit(r.data[1], 1) && has_bit(r.data[1], 0)
        }),
{
    reveal(report);
    eight_bits(pad_high(p), !p.right, !p.left, !p.down, !p.up, !p.start, !p.a, !p.c, !p.b);
    eight_bits(pad_low(p), !p.r, !p.x, !p.y, !p.z, !p.l, true, true, true);
}

/// The buttons of a mouse and the signs and overflows of its movement set one bit each; the
/// movement follows, across and down.
#[verifier::spinoff_prover]
pub proof fn mouse_reports_its_movement(m: MouseState)
    ensures
        ({
            let r = report(PeripheralState::Mouse(m));
            &&& r.status == 0xF1 && r.id == 0xE3 && r.size == 3 && r.offset == 0
            &&& has_bit(r.data[0], 0) == m.left
            &&& has_bit(r.data[0], 1) == m.right
            &&& has_bit(r.data[0], 2) == m.middle
            &&& has_bit(r.data[0], 3) == m.start
            &&& has_bit(r.data[0], 4) == m.x_sign
            &&& has_bit(r.data[0], 5) == m.y_sign
            &&& has_bit(r.data[0], 6) == m.x_overflow
            &&& has_bit(r.data[0], 7) == m.y_overflow
            &&& r.data[1] == m.x_displacement
            &&& r.data[2] == m.y_displacement
        }),
{
    reveal(report);
    eight_bits(
        mouse_flags(m),
        m.y_overflow,
        m.x_overflow,
        m.y_sign,
        m.x_sign,
        m.start,
        m.middle,
        m.right,
        m.left,
    );
}

/// How many bytes follow the identifier is written in its low half, but for the mouse, which
/// reports three. Nothing plugged in and a gun report no data.
pub proof fn identifiers_tell_the_size(s: PeripheralState)
    ensures
        s !is Disconnected && s !is Gun && s !is Mouse ==> report(s).id % 16 == report(s).size,
        s is Mouse ==> report(s).size == 3,
        s is Disconnected ==> report(s).status == 0xF0 && report(s).size == 0,
        s is Gun ==> report(s).status == 0xA0 && report(s).size == 0,
        s !is Disconnected && s !is Gun ==> report(s).status == 0xF1,
        s is Wheel ==> report(s).id / 16 == 1,
        s is MissionStick ==> report(s).id / 16 == 1,
        s is Pad3D ==> report(s).id / 16 == 1,
        s is TwinSticks ==> report(s).id / 16 == 1,
        s is Keyboard ==> report(s).id / 16 == 3,
        report(s).offset == 0,
{
    reveal(report);
}

/// Every stick reports its buttons as a pad does, and its axes behind them in order. On a
/// wheel the axis stands in for Left up to 0x67 and for Right from 0x97.
#[verifier::spinoff_prover]
pub proof fn sticks_report_as_pads(s: PeripheralState)
    ensures
        ({
            let r = report(s);
            match s {
                PeripheralState::Wheel(w) => {
                    let p = report(PeripheralState::Pad(w.buttons));
                    &&& has_bit(r.data[0], 7) == !(w.axis1 >= 0x97)
                    &&& has_bit(r.data[0], 6) == !(w.axis1 <= 0x67)
                    &&& forall|n: int|
                        0 <= n < 6 ==> #[trigger] has_bit(r.data[0], n) == has_bit(p.data[0], n)
                    &&& r.data[1] == p.data[1]
                    &&& r.data[2] == w.axis1
                },
                PeripheralState::MissionStick(k) => {
                    let p = report(PeripheralState::Pad(k.buttons));
                    r.data.take(5) =~= seq![p.data[0], p.data[1], k.axis1, k.axis2, k.axis3]
                },
                PeripheralState::Pad3D(k) => {
                    let p = report(PeripheralState::Pad(k.buttons));
                    r.data.take(6) =~= seq![
                        p.data[0],
                        p.data[1],
                        k.axis1,
                        k.axis2,
                        k.axis3,
                        k.axis4,
                    ]
                },
                PeripheralState::TwinSticks(k) => {
                    let p = report(PeripheralState::Pad(k.buttons));
                    r.data.take(9) =~= seq![
                        p.data[0],
                        p.data[1],
                        k.axis1,
                        k.axis2,
                        k.axis3,
                        k.axis4,
                        k.axis5,
                        k.axis6,
                        k.axis7,
                    ]
                },
                PeripheralState::Keyboard(k) => {
                    let p = report(PeripheralState::Pad(k.buttons));
                    &&& r.data[0] == p.data[0]
                    &&& r.data[1] == p.data[1] - 7
                    &&& r.data[2] == k.flags
                    &&& r.data[3] == k.key
                },
                _ => true,
            }
        }),
{
    reveal(report);
    if let PeripheralState::Wheel(w) = s {
        let p = w.buttons;
        eight_bits(
            wheel_high(w),
            !(w.axis1 >= 0x97),
            !(w.axis1 <= 0x67),
            !p.down,
            !p.up,
            !p.start,
            !p.a,
            !p.c,
            !p.b,
        );
        pad_reports_each_button(p);
    }
}

/// Read by hand, with two lines selected, a pad shows a quarter of its buttons at a time, clear
/// while held down: the selection 3 shows L, 1 the directions, 2 start and A to C, 0 R and X
/// to Z. The highest bit is that of the selection and bit 4 is set.
#[verifier::spinoff_prover]
pub proof fn pad_is_read_by_quarters(p: PadState, port: int, ddr: u8, val: u8, before: u8)
    requires
        port == 1 || port == 2,
        ddr % 0x80 == 0x60,
    ensures
        ({
            let r = pdr_response(port, PeripheralState::Pad(p), ddr, val, before);
            let chosen = val as int / 0x20 % 4;
            &&& has_bit(r, 7) == has_bit(val, 7)
            &&& !has_bit(r, 6) && !has_bit(r, 5) && has_bit(r, 4)
            &&& chosen == 3 ==> has_bit(r, 3) == !p.l && r % 8 == 4
            &&& chosen == 1 ==> has_bit(r, 3) == !p.right && has_bit(r, 2) == !p.left && has_bit(
                r,
                1,
            ) == !p.down && has_bit(r, 0) == !p.up
            &&& chosen == 2 ==> has_bit(r, 3) == !p.start && has_bit(r, 2) == !p.a && has_bit(
                r,
                1,
            ) == !p.c && has_bit(r, 0) == !p.b
            &&& chosen == 0 ==> has_bit(r, 3) == !p.r && has_bit(r, 2) == !p.x && has_bit(r, 1)
                == !p.y && has_bit(r, 0) == !p.z
        }),
{
    pad_reports_each_button(p);
    let b2 = report(PeripheralState::Pad(p)).data[0];
    let b3 = report(PeripheralState::Pad(p)).data[1];
    let r = pdr_response(port, PeripheralState::Pad(p), ddr, val, before);
    let chosen = val as int / 0x20 % 4;
    let h: u8 = if chosen == 3 {
        (4 + b3 / 8 % 2 * 8) as u8
    } else if chosen == 1 {
        b2 / 16
    } else if chosen == 2 {
        b2 % 16
    } else {
        b3 / 16
    };
    assert(r == val / 128 * 128 + 0x10 + h) by {
        reveal(pdr_response);
    }
    assert(has_bit(val, 7) == (val as int / 128 == 1)) by {
        reveal(has_bit);
    }
    assert(chosen == 3 ==> has_bit(h, 3) == has_bit(b3, 3)) by {
        reveal(has_bit);
    }
    added_half(r, val as int / 128, h);
    half_bits(b2, h);
    half_bits(b3, h);
}

/// What a port shows on its pins when the direction of a line is set.
pub proof fn pins_identify_the_peripheral(s: PeripheralState)
    ensures
        s is Disconnected ==> id_pins(s) == Some(0x7Fu8),
        s is Pad || s is Gun ==> id_pins(s) == Some(0x7Cu8),
        s is Pad3D || s is Keyboard ==> id_pins(s) == Some(0x71u8),
        s is Mouse ==> id_pins(s) == Some(0x70u8),
        s is Wheel || s is MissionStick || s is TwinSticks ==> id_pins(s) is None,
{
}

/// A gun shows its trigger in bit 4 and its start button in bit 5, clear while held down, when
/// all lines are inputs and set high.
pub proof fn gun_shows_its_trigger(g: GunState, port: int, ddr: u8, val: u8, before: u8)
    requires
        ddr % 0x80 == 0,
    ensures
        ({
            let r = pdr_response(port, PeripheralState::Gun(g), ddr, val, before);
            &&& val % 0x80 != 0x7F ==> r == before
            &&& val % 0x80 == 0x7F ==> has_bit(r, 4) == !g.trigger && has_bit(r, 5) == !g.start
                && r % 16 == 15 && r / 64 == 3
        }),
{
    reveal(has_bit);
    reveal(pdr_response);
}

/// What a port hands out: its status, then its identifier, then its data; of nothing and of a gun
/// the status alone.
#[verifier::spinoff_prover]
pub proof fn ports_hand_out_in_order(s: PeripheralState, i: int)
    ensures
        ({
            let b = port_pending(report(s));
            let r = report(s);
            &&& s is Disconnected ==> b =~= seq![0xF0u8]
            &&& s is Gun ==> b =~= seq![0xA0u8]
            &&& s !is Disconnected && s !is Gun ==> {
                &&& b.len() == 2 + r.size
                &&& b[0] == 0xF1
                &&& b[1] == r.id
                &&& 0 <= i < r.size ==> b[2 + i] == r.data[i]
            }
        }),
{
    reveal(report);
    reveal(port_pending);
}

/// In the first chunk the bytes of port 2 follow those of port 1 in the output registers, as far as
/// the thirty-two of them go.
#[verifier::spinoff_prover]
pub proof fn second_port_follows_the_first(w: SmpcWorld, i: int)
    requires
        w.regs.len() == SMPC_REGS_SIZE,
        !has_bit(w.regs[1], 0),
        !has_bit(w.regs[1], 6),
        has_bit(w.regs[3], 3),
        w.regs[1] == 0 || w.chip.first_peri,
        0 <= i < port_pending(report(w.chip.port2)).len(),
        port_pending(report(w.chip.port1)).len() + i < 32,
    ensures
        command_done(w, 0x10).regs[0x21 + 2 * (port_pending(report(w.chip.port1)).len() + i)]
            == port_pending(report(w.chip.port2))[i],
{
    reveal(has_bit);
    reveal(intback_body);
    reveal(chunk_done);
    reveal(chunk_bytes);
    reveal(port_emitted);
    let n = port_pending(report(w.chip.port1)).len() + i;
    assert((0x21 + 2 * n - 0x21) / 2 == n);
}

/// The busy flag reads with the last byte of the data bus above its lowest bit.
pub proof fn busy_flag_is_the_lowest_bit(w: SmpcWorld)
    requires
        w.regs.len() == SMPC_REGS_SIZE,
    ensures
        sf_value(w) as int % 2 == w.regs[0x63] as int % 2,
        sf_value(w) as int / 2 == w.chip.bustmp as int / 2,
{
}

/// A command that waited runs once: it then waits no longer, and without one nothing happens.
pub proof fn waiting_command_runs_once(w: SmpcWorld, command: u8, delay: u32, line: bool)
    ensures
        w.chip.pending_command is None ==> expired_done(w) == w && expired_effects(w.chip)
            == no_effects(),
        w.chip.pending_command == Some((command, delay, line)) ==> expired_effects(w.chip)
            == command_effects(command),
        w.chip.pending_command == Some((command, delay, line)) && command != 0x10 ==> expired_done(
            w,
        ).chip.pending_command is None && !expired_done(w).chip.dispatch_ready,
{
}

/// Read by hand with one line selected, port 1 shows the directions of a pad while that line is low,
/// and while it is high L and the bit below it.
#[verifier::spinoff_prover]
pub proof fn pad_is_read_by_halves(p: PadState, ddr: u8, val: u8, before: u8)
    requires
        ddr % 0x80 == 0x40,
    ensures
        ({
            let r = pdr_response(1, PeripheralState::Pad(p), ddr, val, before);
            let b = report(PeripheralState::Pad(p)).data;
            &&& !has_bit(val, 6) ==> r == 0x30 + b[0] as int / 16
            &&& has_bit(val, 6) ==> r == 0x70 + b[1] as int / 4 % 4 * 4
            &&& pdr_response(2, PeripheralState::Pad(p), ddr, val, before) == before
        }),
{
    reveal(pdr_response);
    reveal(has_bit);
}

/// The data registers of the ports stand at 0x75 and 0x77 and their directions at 0x79 and 0x7B. What
/// is written to a data register is answered there; setting a direction shows the identity.
#[verifier::spinoff_prover]
pub proof fn ports_answer_in_their_registers(w: SmpcWorld, val: u8, old_val: u8)
    requires
        w.regs.len() == SMPC_REGS_SIZE,
    ensures
        register_written(w, 0x75, val, old_val).regs == w.regs.update(
            0x75,
            pdr_response(1, w.chip.port1, w.regs[0x79], val, old_val),
        ),
        register_written(w, 0x77, val, old_val).regs == w.regs.update(
            0x77,
            pdr_response(2, w.chip.port2, w.regs[0x7B], val, old_val),
        ),
        register_written(w, 0x79, val, old_val).regs == match id_pins(w.chip.port1) {
            Some(pins) => w.regs.update(0x75, pins),
            None => w.regs,
        },
        register_written(w, 0x7B, val, old_val).regs == match id_pins(w.chip.port2) {
            Some(pins) => w.regs.update(0x77, pins),
            None => w.regs,
        },
        register_written(w, 0x75, val, old_val).chip.bustmp == val,
        register_written(w, 0x63, val, old_val).chip == w.chip,
{
}

} // verus!
