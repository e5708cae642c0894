//! What holds of the System Manager's commands as a whole.

use crate::peripheral::PortView;
use crate::smpc::{
    cmd, command_done, command_effects, intback_body, no_effects, oregs_filled, port_advanced,
    port_emitted, port_header, port_pending, reg, region, status_bytes, wants_peripheral,
    wants_status, SmpcWorld,
};
use crate::shared_buffers::SMPC_REGS_SIZE;
use vstd::prelude::*;

verus! {

/// Where an output register stands in the register file.
pub open spec fn oreg_at(n: int) -> int {
    reg::OREG_BASE + 2 * n
}

/// Whether a command leaves its code in the last output register.
pub open spec fn echoes(regs: Seq<u8>, command: u8) -> bool {
    ||| command == cmd::SNDON
    ||| command == cmd::SNDOFF
    ||| command == cmd::NMIREQ
    ||| command == cmd::SETSMEM
    ||| command == cmd::RESENAB
    ||| command == cmd::RESDISA
    ||| command == cmd::INTBACK && wants_status(regs)
}

/// The status block in the output registers after a status request.
pub(crate) proof fn status_is_handed_out(w: SmpcWorld, n: int)
    requires
        w.regs.len() == SMPC_REGS_SIZE,
        wants_status(w.regs),
        0 <= n < 32,
    ensures
        command_done(w, cmd::INTBACK).regs[oreg_at(n)] == status_bytes(w.chip)[n],
        command_done(w, cmd::INTBACK).chip == w.chip,
{
    reveal(intback_body);
    reveal(status_bytes);
    let filled = oregs_filled(w.regs, status_bytes(w.chip));
    assert((oreg_at(n) - reg::OREG_BASE) / 2 == n);
    assert(filled[oreg_at(n)] == status_bytes(w.chip)[n]);
}

/// Every command clears the busy flag, and so does a code that is no command.
pub proof fn commands_clear_the_busy_flag(w: SmpcWorld, command: u8)
    requires
        w.regs.len() == SMPC_REGS_SIZE,
    ensures
        command_done(w, command).regs[reg::SF as int] == 0,
{
    reveal(intback_body);
    reveal(crate::smpc::chunk_done);
}

/// The commands that echo leave their code in output register 31. All others leave that
/// register as it was, but for an INTBACK that hands out peripheral data.
pub proof fn echo_of_commands(w: SmpcWorld, command: u8)
    requires
        w.regs.len() == SMPC_REGS_SIZE,
    ensures
        echoes(w.regs, command) ==> command_done(w, command).regs[oreg_at(31)] == command,
        !echoes(w.regs, command) && !(command == cmd::INTBACK && wants_peripheral(w.regs))
            ==> command_done(w, command).regs[oreg_at(31)] == w.regs[oreg_at(31)],
{
    if command == cmd::INTBACK && wants_status(w.regs) {
        status_is_handed_out(w, 31);
        reveal(status_bytes);
    } else if command == cmd::INTBACK {
        reveal(intback_body);
    }
}

/// A code that is no command only clears the busy flag, and has no effect outside the chip.
pub proof fn unknown_command_does_nothing(w: SmpcWorld, command: u8)
    requires
        command != cmd::SNDON,
        command != cmd::SNDOFF,
        command != cmd::NMIREQ,
        command != cmd::CKCHG352,
        command != cmd::CKCHG320,
        command != cmd::INTBACK,
        command != cmd::SETSMEM,
        command != cmd::RESENAB,
        command != cmd::RESDISA,
    ensures
        command_done(w, command) == (SmpcWorld {
            chip: w.chip,
            regs: w.regs.update(reg::SF as int, 0),
        }),
        command != cmd::SSHON && command != cmd::SSHOFF && command != cmd::SYSRES
            ==> command_effects(command) == no_effects(),
{
}

/// What SETSMEM stored comes back in output registers 12 to 15 of every later status
/// request.
pub proof fn stored_memory_is_reported(w: SmpcWorld, later: Seq<u8>, i: int)
    requires
        w.regs.len() == SMPC_REGS_SIZE,
        later.len() == SMPC_REGS_SIZE,
        wants_status(later),
        0 <= i < 4,
    ensures
        command_done(
            SmpcWorld { chip: command_done(w, cmd::SETSMEM).chip, regs: later },
            cmd::INTBACK,
        ).regs[oreg_at(12 + i)] == w.regs[reg::IREG0 + 2 * i],
{
    let w1 = SmpcWorld { chip: command_done(w, cmd::SETSMEM).chip, regs: later };
    status_is_handed_out(w1, 12 + i);
    reveal(status_bytes);
}

/// RESENAB and RESDISA show in bit 6 of output register 0 of every later status request.
pub proof fn reset_button_is_reported(w: SmpcWorld, later: Seq<u8>)
    requires
        w.regs.len() == SMPC_REGS_SIZE,
        later.len() == SMPC_REGS_SIZE,
        wants_status(later),
    ensures
        command_done(
            SmpcWorld { chip: command_done(w, cmd::RESENAB).chip, regs: later },
            cmd::INTBACK,
        ).regs[oreg_at(0)] == 0x80,
        command_done(
            SmpcWorld { chip: command_done(w, cmd::RESDISA).chip, regs: later },
            cmd::INTBACK,
        ).regs[oreg_at(0)] == 0xC0,
{
    status_is_handed_out(
        SmpcWorld { chip: command_done(w, cmd::RESENAB).chip, regs: later },
        0,
    );
    status_is_handed_out(
        SmpcWorld { chip: command_done(w, cmd::RESDISA).chip, regs: later },
        0,
    );
    reveal(status_bytes);
}

/// CKCHG352 and CKCHG320 show in bit 6 of output register 10 of every later status
/// request.
pub proof fn dot_clock_is_reported(w: SmpcWorld, later: Seq<u8>)
    requires
        w.regs.len() == SMPC_REGS_SIZE,
        later.len() == SMPC_REGS_SIZE,
        wants_status(later),
    ensures
        command_done(
            SmpcWorld { chip: command_done(w, cmd::CKCHG352).chip, regs: later },
            cmd::INTBACK,
        ).regs[oreg_at(10)] / 0x40 % 2 == 1,
        command_done(
            SmpcWorld { chip: command_done(w, cmd::CKCHG320).chip, regs: later },
            cmd::INTBACK,
        ).regs[oreg_at(10)] / 0x40 % 2 == 0,
{
    status_is_handed_out(
        SmpcWorld { chip: command_done(w, cmd::CKCHG352).chip, regs: later },
        10,
    );
    status_is_handed_out(
        SmpcWorld { chip: command_done(w, cmd::CKCHG320).chip, regs: later },
        10,
    );
    reveal(status_bytes);
}

/// Output register 9 of a status request holds the region, and Japan where the region is
/// to be detected.
pub proof fn region_is_reported(w: SmpcWorld)
    requires
        w.regs.len() == SMPC_REGS_SIZE,
        wants_status(w.regs),
    ensures
        command_done(w, cmd::INTBACK).regs[oreg_at(9)] == if w.chip.regionid
            == region::AUTODETECT {
            region::JAPAN
        } else {
            w.chip.regionid
        },
{
    status_is_handed_out(w, 9);
    reveal(status_bytes);
}

/// Asking for the status changes nothing but the registers, so asking again gives the
/// same answer.
pub proof fn status_request_is_repeatable(w: SmpcWorld, n: int)
    requires
        w.regs.len() == SMPC_REGS_SIZE,
        wants_status(w.regs),
        0 <= n < 32,
    ensures
        command_done(w, cmd::INTBACK).chip == w.chip,
        wants_status(command_done(w, cmd::INTBACK).regs),
        command_done(command_done(w, cmd::INTBACK), cmd::INTBACK).regs[oreg_at(n)]
            == command_done(w, cmd::INTBACK).regs[oreg_at(n)],
{
    let w1 = command_done(w, cmd::INTBACK);
    status_is_handed_out(w, n);
    assert(w1.regs[reg::IREG0 as int] == w.regs[reg::IREG0 as int]) by {
        reveal(intback_body);
    }
    assert(w1.regs.len() == SMPC_REGS_SIZE) by {
        reveal(intback_body);
    }
    status_is_handed_out(w1, n);
}

/// Handing a snapshot out in chunks loses no byte and repeats none: what has gone out and
/// what is still to go make up what there was. The identifier goes out with the first data
/// byte.
pub proof fn chunks_lose_nothing(p: PortView, room: int)
    requires
        p.data.len() == 16,
        p.size <= 16,
        0 <= room,
        p.offset > 0 || port_emitted(p, room).len() > port_header(p).len(),
    ensures
        port_pending(p) == port_emitted(p, room) + port_pending(port_advanced(p, room)),
{
    reveal(port_pending);
    reveal(port_emitted);
    reveal(port_advanced);
    let sent = port_emitted(p, room).len() - port_header(p).len();
    assert(sent >= 0);
    let q = port_advanced(p, room);
    if q.offset > 0 {
        assert(port_header(q) =~= seq![]);
    }
    assert(port_pending(p) =~= port_emitted(p, room) + port_pending(q));
}

} // verus!
