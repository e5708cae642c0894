//! Instructions, the bus, interrupts and the on-chip modules, one scenario each.

use saturn_core::sh2::bus::{TVSTAT_VBLANK_BIT, VBLANK_DURATION, VBLANK_INTERVAL};
use saturn_core::sh2::irq;
use saturn_core::sh2::region::get_eat_clock;
use saturn_core::sh2::Sh2;
use saturn_core::shared_buffers::WorkRam;
use saturn_core::smpc::{cmd, reg};

const SR_IMASK_SHIFT: u32 = 4;
const VBLANK_IN_LEVEL: u32 = irq::VBLANK_IN_LEVEL as u32;
const VBLANK_IN_VECTOR: u32 = irq::VBLANK_IN_VECTOR as u32;
const VBLANK_OUT_LEVEL: u32 = irq::VBLANK_OUT_LEVEL as u32;
const VBLANK_OUT_VECTOR: u32 = irq::VBLANK_OUT_VECTOR as u32;
const SMPC_IRQ_LEVEL: u32 = irq::SMPC_IRQ_LEVEL as u32;
const SMPC_IRQ_VECTOR: u32 = irq::SMPC_IRQ_VECTOR as u32;
const SOUND_REQ_IRQ_LEVEL: u32 = irq::SOUND_REQ_IRQ_LEVEL as u32;
const SOUND_REQ_IRQ_VECTOR: u32 = irq::SOUND_REQ_IRQ_VECTOR as u32;
const SMPC_SF_OFFSET: usize = reg::SF;
const SMPC_IREG1_OFFSET: usize = reg::IREG1;
const SMPC_COMREG_OFFSET: usize = reg::COMREG;
const SMPC_OREG_BASE_OFFSET: usize = reg::OREG_BASE;
const SMPC_SR_OFFSET: usize = reg::SR;
const SMPC_CMD_INTBACK: u8 = cmd::INTBACK;
const SMPC_CMD_SNDON: u8 = cmd::SNDON;
const SMPC_CMD_SNDOFF: u8 = cmd::SNDOFF;

fn make_cpu() -> Sh2 {
    Sh2::new(false, WorkRam::new())
}

#[test]
fn mov_imm_rn() {
    let mut cpu = make_cpu();
    cpu.execute(0xE5_2A); // MOV #0x2A,R5
    assert_eq!(cpu.registers[5], 0x2A);
    cpu.execute(0xE5_FF); // MOV #-1,R5 (sign extended)
    assert_eq!(cpu.registers[5], 0xFFFF_FFFF);
}

#[test]
fn add_imm() {
    let mut cpu = make_cpu();
    cpu.registers[1] = 10;
    cpu.execute(0x7105); // ADD #5,R1
    assert_eq!(cpu.registers[1], 15);
}

#[test]
fn add_reg_reg() {
    let mut cpu = make_cpu();
    cpu.registers[1] = 10;
    cpu.registers[2] = 20;
    let op = 0x3000 | (1 << 8) | (2 << 4) | 0xC;
    cpu.execute(op);
    assert_eq!(cpu.registers[1], 30);
}

#[test]
fn sub_reg_reg() {
    let mut cpu = make_cpu();
    cpu.registers[1] = 30;
    cpu.registers[2] = 12;
    let op = 0x3000 | (1 << 8) | (2 << 4) | 0x8; // SUB Rm,Rn
    cpu.execute(op);
    assert_eq!(cpu.registers[1], 18);
}

#[test]
fn cmp_eq_sets_t() {
    let mut cpu = make_cpu();
    cpu.registers[1] = 5;
    cpu.registers[2] = 5;
    let op = 0x3000 | (1 << 8) | (2 << 4) | 0x0; // CMP/EQ Rm,Rn
    cpu.execute(op);
    assert!(cpu.t());
    cpu.registers[2] = 6;
    cpu.execute(op);
    assert!(!cpu.t());
}

#[test]
fn and_or_xor_reg() {
    let mut cpu = make_cpu();
    cpu.registers[1] = 0b1100;
    cpu.registers[2] = 0b1010;
    cpu.execute(0x2000 | (1 << 8) | (2 << 4) | 0x9); // AND
    assert_eq!(cpu.registers[1], 0b1000);

    cpu.registers[1] = 0b1100;
    cpu.execute(0x2000 | (1 << 8) | (2 << 4) | 0xB); // OR
    assert_eq!(cpu.registers[1], 0b1110);

    cpu.registers[1] = 0b1100;
    cpu.execute(0x2000 | (1 << 8) | (2 << 4) | 0xA); // XOR
    assert_eq!(cpu.registers[1], 0b0110);
}

#[test]
fn shift_ops() {
    let mut cpu = make_cpu();
    cpu.registers[3] = 0b0001;
    cpu.execute(0x4000 | (3 << 8) | 0x00); // SHLL
    assert_eq!(cpu.registers[3], 0b0010);
    cpu.execute(0x4000 | (3 << 8) | 0x01); // SHLR
    assert_eq!(cpu.registers[3], 0b0001);
}

#[test]
fn bra_takes_delay_slot_then_jumps() {
    let mut cpu = make_cpu();
    cpu.pc = 0x0600_0000;
    let bra_opcode: u16 = 0xA000 | 0x001;
    cpu.write_word(0x0600_0000, bra_opcode);
    cpu.write_word(0x0600_0002, 0xE0_2A); // delay slot: MOV #0x2A,R0
    cpu.step();
    assert_eq!(
        cpu.registers[0], 0x2A,
        "delay slot instruction did not execute"
    );
    assert_eq!(cpu.pc, 0x0600_0006, "branch target incorrect");
}

#[test]
fn bsr_and_rts_roundtrip() {
    let mut cpu = make_cpu();
    cpu.pc = 0x0600_0000;
    cpu.write_word(0x0600_0000, 0xB000 | 0x001);
    cpu.write_word(0x0600_0002, 0x0009); // delay slot: NOP
    cpu.step();
    assert_eq!(cpu.pr, 0x0600_0004);
    assert_eq!(cpu.pc, 0x0600_0006);

    cpu.write_word(0x0600_0006, 0x000B); // RTS
    cpu.write_word(0x0600_0008, 0x0009); // delay slot: NOP
    cpu.step();
    assert_eq!(cpu.pc, 0x0600_0004);
}

#[test]
fn bt_bf_no_delay_slot() {
    let mut cpu = make_cpu();
    cpu.set_t(true);
    cpu.pc = 0x0600_0000;
    cpu.write_word(0x0600_0000, 0x8900 | 0x02);
    cpu.step();
    assert_eq!(cpu.pc, 0x0600_0008);
}

#[test]
fn bf_s_matches_real_bios_wait_loop() {
    let mut cpu = make_cpu();
    cpu.pc = 0x0600_03B8;
    cpu.write_word(0x0600_03B8, 0xE440); // MOV #0x40,R4
    cpu.write_word(0x0600_03BA, 0x2302); // MOV.L R0,@R3
    cpu.write_word(0x0600_03BC, 0x4410); // DT R4
    cpu.write_word(0x0600_03BE, 0x8FFC); // BF/S -4
    cpu.write_word(0x0600_03C0, 0x0009); // delay slot: NOP
    cpu.step(); // MOV #0x40,R4 -> R4=0x40
    cpu.step(); // MOV.L R0,@R3
    cpu.step(); // DT R4 -> R4=0x3F, T=0
    cpu.step(); // BF/S -> must land back on MOV.L (0x3BA), not on the setup (0x3B8)
    assert_eq!(
        cpu.pc, 0x0600_03BA,
        "BF/S landed 2 bytes short of the real loop body"
    );
    assert_eq!(
        cpu.registers[4], 0x3F,
        "loop counter must not have been reset by re-running the setup instruction"
    );
}

#[test]
fn mov_l_load_store_register_indirect() {
    let mut cpu = make_cpu();
    cpu.registers[1] = 0x0600_0010;
    cpu.registers[2] = 0xDEAD_BEEF;
    cpu.execute(0x2000 | (1 << 8) | (2 << 4) | 0x2);
    cpu.execute(0x6000 | (3 << 8) | (1 << 4) | 0x2);
    assert_eq!(cpu.registers[3], 0xDEAD_BEEF);
}

#[test]
fn lds_l_pop_pr_then_rts() {
    let mut cpu = make_cpu();
    cpu.registers[15] = 0x0601_0000;
    cpu.write_long(0x0601_0000, 0x0000_1234); // saved return address on the stack
    cpu.pc = 0x0600_0000;
    cpu.write_word(0x0600_0000, 0x4F26); // LDS.L @R15+,PR
    cpu.write_word(0x0600_0002, 0x000B); // RTS
    cpu.write_word(0x0600_0004, 0x0009); // RTS delay slot: NOP
    cpu.step(); // LDS.L @R15+,PR
    assert_eq!(cpu.pr, 0x0000_1234, "PR was not popped from the stack");
    assert_eq!(
        cpu.registers[15], 0x0601_0004,
        "R15 was not post-incremented"
    );
    cpu.step(); // RTS
    assert_eq!(cpu.pc, 0x0000_1234, "RTS did not return to the popped PR");
}

#[test]
fn smpc_status_moved_off_high_ram_start() {
    let mut cpu = make_cpu();
    cpu.write_word(0x0600_0000, 0x1234);
    assert_eq!(cpu.read_word(0x0600_0000), 0x1234);
    assert_eq!(cpu.read_word(0x0010_0000), 0x0000);
}

#[test]
fn smpc_sf_reads_idle() {
    let mut cpu = make_cpu();
    assert_eq!(cpu.read_byte(0x0010_0000 + SMPC_SF_OFFSET as u32), 0x00);
}

#[test]
fn intback_populates_real_status_and_fires_system_manager_irq() {
    let mut cpu = make_cpu();
    let base = 0x0010_0000u32;
    cpu.write_byte(base + SMPC_COMREG_OFFSET as u32, SMPC_CMD_INTBACK);

    assert_eq!(
        cpu.read_byte(base + SMPC_OREG_BASE_OFFSET as u32),
        0x80,
        "OREG0: normal startup, resd=0"
    );
    assert_eq!(
        cpu.read_byte(base + (SMPC_OREG_BASE_OFFSET + 9 * 2) as u32),
        0x01,
        "OREG9: region defaults to Japan"
    );
    assert_eq!(
        cpu.read_byte(base + (SMPC_OREG_BASE_OFFSET + 10 * 2) as u32),
        0x34,
        "OREG10: flags all clear"
    );
    assert_eq!(
        cpu.read_byte(base + SMPC_SR_OFFSET as u32),
        0x6F,
        "SR: no peripheral data requested (IREG1 bit3 unset)"
    );
    assert!(
        cpu.bus.irq.smpc_irq_pending,
        "INTBACK completion must raise the System Manager interrupt"
    );

    cpu.sr = 0;
    cpu.vbr = 0x0601_0000;
    cpu.registers[15] = 0x0601_1000;
    cpu.pc = 0x0600_0000;
    cpu.write_long(cpu.vbr.wrapping_add(SMPC_IRQ_VECTOR * 4), 0x0600_3000);
    cpu.write_word(0x0600_0000, 0x0009); // NOP, preempted by the interrupt
    cpu.write_word(0x0600_3000, 0x0009); // handler entry
    cpu.step();
    assert_eq!(
        cpu.pc, 0x0600_3002,
        "did not jump through the System Manager vector"
    );
    assert!(
        !cpu.bus.irq.smpc_irq_pending,
        "pending flag must clear once serviced"
    );
    assert_eq!(
        (cpu.sr >> SR_IMASK_SHIFT) & 0xF,
        SMPC_IRQ_LEVEL,
        "mask must raise to this interrupt's own level"
    );
}

#[test]
fn intback_requesting_peripheral_data_sets_sr_bit5() {
    let mut cpu = make_cpu();
    let base = 0x0010_0000u32;
    cpu.write_byte(base + SMPC_IREG1_OFFSET as u32, 0x08); // bit3: peripheral data wanted
    cpu.write_byte(base + SMPC_COMREG_OFFSET as u32, SMPC_CMD_INTBACK);
    assert_eq!(
        cpu.read_byte(base + SMPC_SR_OFFSET as u32),
        0x6F,
        "SR bit5 set when IREG1 bit3 requests peripheral data"
    );
}

#[test]
fn sndon_sndoff_flip_the_m68k_control_flag() {
    let mut cpu = make_cpu();
    cpu.bus.m68k_control = Some(false);
    let base = 0x0010_0000u32;

    cpu.write_byte(base + SMPC_COMREG_OFFSET as u32, SMPC_CMD_SNDON);
    assert!(
        cpu.bus.m68k_control == Some(true),
        "SNDON must set the flag"
    );

    cpu.write_byte(base + SMPC_COMREG_OFFSET as u32, SMPC_CMD_SNDOFF);
    assert!(
        cpu.bus.m68k_control == Some(false),
        "SNDOFF must clear the flag"
    );
}

#[test]
fn sound_req_irq_enters_through_its_own_vector_at_level_9() {
    let mut cpu = make_cpu();
    cpu.bus.irq.sound_req_irq = Some(true);
    cpu.sr = 0; // nothing masked
    cpu.vbr = 0x0601_0000;
    cpu.registers[15] = 0x0601_1000;
    cpu.pc = 0x0600_0000;
    cpu.write_word(0x0600_0000, 0x0009); // NOP, preempted by the interrupt
    cpu.write_long(cpu.vbr.wrapping_add(SOUND_REQ_IRQ_VECTOR * 4), 0x0600_4000);
    cpu.write_word(0x0600_4000, 0x0009); // handler entry

    cpu.step();
    assert_eq!(
        cpu.pc, 0x0600_4002,
        "did not jump through the Sound Request vector"
    );
    assert!(
        cpu.bus.irq.sound_req_irq == Some(false),
        "flag must clear once serviced"
    );
    assert_eq!(
        (cpu.sr >> SR_IMASK_SHIFT) & 0xF,
        SOUND_REQ_IRQ_LEVEL,
        "mask must raise to this interrupt's own level"
    );
}

#[test]
fn sound_ram_is_real_readwrite_memory() {
    let mut cpu = make_cpu();
    cpu.write_long(0x25A0_0000, 0xCAFEBABE);
    assert_eq!(cpu.read_long(0x25A0_0000), 0xCAFEBABE);
    cpu.write_word(0x25B0_0400, 0xA000);
    assert_eq!(cpu.read_word(0x25B0_0400), 0xA000);
}

#[test]
fn vblank_interrupt_masked_stays_pending() {
    let mut cpu = make_cpu();
    cpu.sr = 0x0000_00F0; // mask level 15: everything blocked
    cpu.pc = 0x0600_0000;
    cpu.write_word(0x0600_0000, 0x0009); // NOP
    cpu.request_vblank_interrupt();
    cpu.step();
    assert!(
        cpu.bus.irq.vblank_pending,
        "a masked interrupt must stay pending, not fire"
    );
    assert_eq!(
        cpu.pc, 0x0600_0002,
        "masked interrupt must not have diverted execution"
    );
}

#[test]
fn vblank_interrupt_enters_and_returns() {
    let mut cpu = make_cpu();
    cpu.sr = 0; // mask level 0: nothing blocked
    cpu.vbr = 0x0601_0000;
    cpu.registers[15] = 0x0601_1000;
    cpu.pc = 0x0600_0000;
    cpu.write_word(0x0600_0000, 0x0009); // NOP -- never actually fetched; interrupt preempts it
    cpu.write_long(cpu.vbr.wrapping_add(VBLANK_IN_VECTOR * 4), 0x0600_2000);
    cpu.write_word(0x0600_2000, 0x0009); // NOP
    cpu.write_word(0x0600_2002, 0x002B); // RTE
    cpu.write_word(0x0600_2004, 0x0009); // RTE delay slot: NOP

    cpu.request_vblank_interrupt();
    cpu.step();
    assert_eq!(
        cpu.pc, 0x0600_2002,
        "did not jump through the VBR vector table"
    );
    assert!(!cpu.bus.irq.vblank_pending, "pending flag must clear once serviced");
    assert_eq!(
        (cpu.sr >> SR_IMASK_SHIFT) & 0xF,
        VBLANK_IN_LEVEL,
        "mask must raise to the interrupt's own level while it runs"
    );

    cpu.step(); // RTE (+ delay slot)
    assert_eq!(
        cpu.pc, 0x0600_0000,
        "RTE did not return to the interrupted PC"
    );
    assert_eq!(cpu.sr, 0, "RTE did not restore the original SR");
    assert_eq!(
        cpu.registers[15], 0x0601_1000,
        "R15 must be back where it started after the push/pop pair"
    );
}

#[test]
fn vblank_out_interrupt_masked_stays_pending() {
    let mut cpu = make_cpu();
    cpu.sr = 0x0000_00F0; // mask level 15: everything blocked
    cpu.pc = 0x0600_0000;
    cpu.write_word(0x0600_0000, 0x0009); // NOP
    cpu.request_vblank_out_interrupt();
    cpu.step();
    assert!(
        cpu.bus.irq.vblank_out_pending,
        "a masked interrupt must stay pending, not fire"
    );
    assert_eq!(
        cpu.pc, 0x0600_0002,
        "masked interrupt must not have diverted execution"
    );
}

#[test]
fn vblank_out_interrupt_enters_and_returns() {
    let mut cpu = make_cpu();
    cpu.sr = 0; // mask level 0: nothing blocked
    cpu.vbr = 0x0601_0000;
    cpu.registers[15] = 0x0601_1000;
    cpu.pc = 0x0600_0000;
    cpu.write_word(0x0600_0000, 0x0009); // NOP -- never actually fetched; interrupt preempts it
    cpu.write_long(cpu.vbr.wrapping_add(VBLANK_OUT_VECTOR * 4), 0x0600_2000);
    cpu.write_word(0x0600_2000, 0x0009); // NOP
    cpu.write_word(0x0600_2002, 0x002B); // RTE
    cpu.write_word(0x0600_2004, 0x0009); // RTE delay slot: NOP

    cpu.request_vblank_out_interrupt();
    cpu.step();
    assert_eq!(
        cpu.pc, 0x0600_2002,
        "did not jump through the VBR vector table"
    );
    assert!(
        !cpu.bus.irq.vblank_out_pending,
        "pending flag must clear once serviced"
    );
    assert_eq!(
        (cpu.sr >> SR_IMASK_SHIFT) & 0xF,
        VBLANK_OUT_LEVEL,
        "mask must raise to the interrupt's own level while it runs"
    );

    cpu.step(); // RTE (+ delay slot)
    assert_eq!(
        cpu.pc, 0x0600_0000,
        "RTE did not return to the interrupted PC"
    );
    assert_eq!(cpu.sr, 0, "RTE did not restore the original SR");
    assert_eq!(
        cpu.registers[15], 0x0601_1000,
        "R15 must be back where it started after the push/pop pair"
    );
}

#[test]
fn vblank_in_outranks_vblank_out_when_both_pending() {
    let mut cpu = make_cpu();
    cpu.sr = 0;
    cpu.pc = 0x0600_0000;
    cpu.write_word(0x0600_0000, 0x0009); // NOP
    cpu.request_vblank_out_interrupt();
    cpu.request_vblank_interrupt();
    cpu.step();
    assert!(
        !cpu.bus.irq.vblank_pending,
        "the higher-priority interrupt must be serviced first"
    );
    assert!(
        cpu.bus.irq.vblank_out_pending,
        "the lower-priority interrupt must stay pending behind it"
    );
    assert_eq!((cpu.sr >> SR_IMASK_SHIFT) & 0xF, VBLANK_IN_LEVEL);
}

#[test]
fn tvstat_vblank_bit_reflects_real_frame_timing() {
    let mut cpu = make_cpu();
    cpu.bus.next_vblank_due = Some(cpu.bus.now_us + VBLANK_INTERVAL);
    assert_eq!(
        cpu.bus.tvstat_word() & TVSTAT_VBLANK_BIT,
        TVSTAT_VBLANK_BIT,
        "must read VBLANK set right after the frame period starts"
    );

    cpu.bus.next_vblank_due =
        Some(cpu.bus.now_us + VBLANK_DURATION + 5_000);
    assert_eq!(
        cpu.bus.tvstat_word() & TVSTAT_VBLANK_BIT,
        0,
        "must read VBLANK clear well into active display"
    );
}

#[test]
fn tvstat_byte_split_matches_real_bios_access_pattern() {
    let mut cpu = make_cpu();
    cpu.bus.next_vblank_due = Some(cpu.bus.now_us + VBLANK_INTERVAL);
    assert_eq!(
        cpu.read_byte(0x25F8_0004),
        0x00,
        "TVSTAT high byte has no bits we model"
    );
    assert_eq!(
        cpu.read_byte(0x25F8_0005),
        0x08,
        "TVSTAT low byte carries the VBLANK bit"
    );
}

#[test]
fn div1_single_step_matches_hand_traced_algorithm() {
    let mut cpu = make_cpu();
    cpu.registers[1] = 1000;
    cpu.registers[2] = 7;
    cpu.execute(0x0019); // DIV0U: Q=M=T=0
    let div1_op = 0x3000 | (1 << 8) | (2 << 4) | 0x4; // DIV1 R2,R1
    cpu.execute(div1_op);
    assert_eq!(cpu.registers[1], 1993);
    assert!(!cpu.q());
    assert!(!cpu.m());
    assert!(cpu.t());
}

#[test]
fn div0s_seeds_qm_for_div1() {
    let mut cpu = make_cpu();
    cpu.registers[1] = 0x8000_0000; // negative
    cpu.registers[2] = 0x0000_0001; // positive
    cpu.execute(0x2000 | (1 << 8) | (2 << 4) | 0x7); // DIV0S R2,R1
    assert!(cpu.q(), "Q must seed from Rn's sign bit");
    assert!(!cpu.m(), "M must seed from Rm's sign bit");
    assert!(cpu.t(), "T = Q^M for a sign mismatch");
}

#[test]
fn trapa_pushes_sr_then_pc_and_jumps_through_vbr() {
    let mut cpu = make_cpu();
    cpu.sr = 0x55; // arbitrary, just needs to round-trip
    cpu.vbr = 0x0601_0000;
    cpu.registers[15] = 0x0601_1000;
    cpu.pc = 0x0600_0000;
    cpu.write_word(0x0600_0000, 0xC3_2A); // TRAPA #0x2A
    cpu.write_long(cpu.vbr.wrapping_add(0x2A * 4), 0x0600_3000);
    cpu.step();
    assert_eq!(cpu.pc, 0x0600_3000, "did not jump through VBR + imm*4");
    assert_eq!(
        cpu.registers[15],
        0x0601_1000 - 8,
        "must push exactly 2 longwords"
    );
    assert_eq!(
        cpu.read_long(0x0601_1000 - 8),
        0x0600_0002,
        "pushed return address must be right after TRAPA"
    );
    assert_eq!(
        cpu.read_long(0x0601_1000 - 4),
        0x55,
        "pushed SR must be the pre-trap value"
    );
}

#[test]
fn peripheral_regions_are_real_readwrite_memory() {
    let mut cpu = make_cpu();
    let probes: &[(u32, &str)] = &[
        (0x0580_0000, "CS2/CD-ROM regs"),
        (0x05A0_0000, "sound ram"),
        (0x05B0_0000, "SCSP regs"),
        (0x05C0_0000, "VDP1 VRAM"),
        (0x05C8_0000, "VDP1 framebuffer"),
        (0x05D0_0000, "VDP1 regs"),
        (0x05E0_0000, "VDP2 VRAM"),
        (0x05F0_0000, "VDP2 CRAM"),
        (0x05F8_0000, "VDP2 regs"),
        (0x05FE_0000, "SCU regs"),
    ];
    for &(addr, name) in probes {
        cpu.write_long(addr, 0x1234_5678);
        assert_eq!(
            cpu.read_long(addr),
            0x1234_5678,
            "{name} at {addr:#010X} is not real read/write memory"
        );
    }
}

#[test]
fn smpc_register_window_mirrors_every_512kb() {
    let mut cpu = make_cpu();
    assert_eq!(cpu.read_byte(0x0010_0063), 0x00); // SF at the window's start
    assert_eq!(cpu.read_byte(0x0017_0063), 0x00); // same offset, mirrored deep in the window
}

#[test]
fn test_onchip_division() {
    let mut cpu = make_cpu();
    cpu.write_long(0xFFFFFF00, 3); // DVSR = 3
    cpu.write_long(0xFFFFFF04, 100); // DVDNT = 100 -> triggers division
    assert_eq!(cpu.read_long(0xFFFFFF04), 33); // Quotient DVDNTL = 33
    assert_eq!(cpu.read_long(0xFFFFFF10), 1); // Remainder DVDNTH = 1

    cpu.write_long(0xFFFFFF00, 0); // DVSR = 0
    cpu.write_long(0xFFFFFF04, 100); // DVDNT = 100 -> triggers division by zero
    assert_eq!(cpu.read_long(0xFFFFFF08) & 1, 1); // DVCR overflow flag = 1

    cpu.write_long(0xFFFFFF00, 4); // DVSR = 4
    cpu.write_long(0xFFFFFF10, 1); // DVDNTH = 1
    cpu.write_long(0xFFFFFF14, 0); // DVDNTL = 0 -> triggers division
    assert_eq!(cpu.read_long(0xFFFFFF04), 0x40000000); // Quotient DVDNTL = 0x40000000
    assert_eq!(cpu.read_long(0xFFFFFF10), 0); // Remainder DVDNTH = 0
}

#[test]
fn test_scu_dma_direct() {
    let mut cpu = make_cpu();
    cpu.write_long(0x00200000, 0x11223344);
    cpu.write_long(0x00200004, 0x55667788);

    cpu.write_long(0x05FE0000, 0x00200000); // D0R (Read Addr)
    cpu.write_long(0x05FE0004, 0x00201000); // D0W (Write Addr)
    cpu.write_long(0x05FE0008, 8); // D0C (Count = 8 bytes)
    cpu.write_long(0x05FE000C, 1); // D0AD (Address increment mode)
    cpu.write_long(0x05FE0014, 0); // D0MD (Direct Mode)

    cpu.write_long(0x05FE0010, 1);

    assert_eq!(cpu.read_long(0x00201000), 0x11223344);
    assert_eq!(cpu.read_long(0x00201004), 0x55667788);

    assert_eq!(cpu.read_long(0x05FE0010), 0);
}

#[test]
fn test_cdrom_handshake() {
    let mut cpu = make_cpu();

    cpu.write_word(0x05800000, 0x0000); // CR1
    cpu.write_word(0x05800002, 0x0000); // CR2
    cpu.write_word(0x05800004, 0x0000); // CR3
    cpu.write_word(0x05800006, 0x0000); // CR4 (triggers command)

    assert_eq!(cpu.read_word(0x05800000), 0x0400);
    assert_eq!(cpu.read_word(0x05800008), 0x0001);
}

#[test]
fn test_sleep() {
    let mut cpu = make_cpu();
    cpu.sr = 0; // mask level 0
    cpu.vbr = 0x0601_0000;
    cpu.registers[15] = 0x0601_1000;
    cpu.pc = 0x0600_0000;
    cpu.write_word(0x0600_0000, 0x001B);
    cpu.write_long(cpu.vbr.wrapping_add(VBLANK_IN_VECTOR * 4), 0x0600_2000);
    cpu.write_word(0x0600_2000, 0x0009); // NOP inside handler

    let cycles_before = cpu.bus.cycles;
    cpu.step(); // executes SLEEP
    assert_eq!(cpu.pc, 0x0600_0000, "SLEEP must not advance PC");
    assert_eq!(
        cpu.bus.cycles,
        cycles_before.wrapping_add(3),
        "SLEEP must charge 3 cycles"
    );

    cpu.request_vblank_interrupt();
    cpu.step(); // takes interrupt and executes handler first instruction
    assert_eq!(
        cpu.pc, 0x0600_2002,
        "PC must have diverged to interrupt vector handler + 2"
    );
}

#[test]
fn test_braf_bsrf() {
    let mut cpu = make_cpu();
    cpu.pc = 0x0600_1000;
    cpu.write_word(0x0600_1000, 0x0123); // BRAF R1 (nibble B = 1)
    cpu.write_word(0x0600_1002, 0xE212); // MOV #0x12, R2 (delay slot)
    cpu.registers[1] = 0x40;
    cpu.step();
    assert_eq!(cpu.registers[2], 0x12, "delay slot must execute");
    assert_eq!(
        cpu.pc, 0x0600_1044,
        "BRAF target must be PC_br + Rn + 4 (0x0600_1000 + 0x40 + 4)"
    );

    cpu.pc = 0x0600_1000;
    cpu.write_word(0x0600_1000, 0x0103); // BSRF R1 (nibble B = 1)
    cpu.write_word(0x0600_1002, 0xE224); // MOV #0x24, R2 (delay slot)
    cpu.registers[1] = 0x40;
    cpu.step();
    assert_eq!(cpu.registers[2], 0x24, "delay slot must execute");
    assert_eq!(cpu.pc, 0x0600_1044, "BSRF target must be PC_br + Rn + 4");
    assert_eq!(cpu.pr, 0x0600_1004, "PR must be PC_br + 4");
}

#[test]
fn test_mac_l_mac_w() {
    let mut cpu = make_cpu();
    cpu.registers[1] = 0x0020_0000; // Rn
    cpu.registers[2] = 0x0020_0010; // Rm
    cpu.write_long(0x0020_0000, 0x1000);
    cpu.write_long(0x0020_0010, 0x2000);

    cpu.macl = 0x500;
    cpu.mach = 0;
    cpu.execute(0x012F); // MAC.L @R2+,@R1+ (n=1, m=2)
    assert_eq!(cpu.registers[1], 0x0020_0004);
    assert_eq!(cpu.registers[2], 0x0020_0014);
    assert_eq!(cpu.macl, 0x0200_0500);
    assert_eq!(cpu.mach, 0);

    cpu.registers[1] = 0x0020_0100;
    cpu.registers[2] = 0x0020_0110;
    cpu.write_word(0x0020_0100, 0x1234u16);
    cpu.write_word(0x0020_0110, 0x5678u16);
    cpu.macl = 0x1000;
    cpu.mach = 0xFFFFFFFF; // should be overwritten or modified
    cpu.set_s(false);
    cpu.execute(0x412F); // MAC.W @R2+,@R1+ (n=1, m=2)
    assert_eq!(cpu.registers[1], 0x0020_0102);
    assert_eq!(cpu.registers[2], 0x0020_0112);
    assert_eq!(cpu.macl, 0x0626_1060);
    assert_eq!(cpu.mach, 0);
}

#[test]
fn test_gbr_byte_ops() {
    let mut cpu = make_cpu();
    cpu.gbr = 0x0020_0000;
    cpu.registers[0] = 0x10;
    let addr = 0x0020_0010;

    cpu.write_byte(addr, 0x5A);
    cpu.execute(0xCC3C); // TST.B #0x3C,@(R0,GBR) -> 0x5A & 0x3C = 0x18 != 0 -> T = 0
    assert!(!cpu.t());
    cpu.execute(0xCC84); // TST.B #0x84,@(R0,GBR) -> 0x5A & 0x84 = 0 -> T = 1
    assert!(cpu.t());

    cpu.write_byte(addr, 0x5A);
    cpu.execute(0xCD0F); // AND.B #0x0F,@(R0,GBR) -> 0x5A & 0x0F = 0x0A
    assert_eq!(cpu.read_byte(addr), 0x0A);

    cpu.write_byte(addr, 0x5A);
    cpu.execute(0xCEAA); // XOR.B #0xAA,@(R0,GBR) -> 0x5A ^ 0xAA = 0xF0
    assert_eq!(cpu.read_byte(addr), 0xF0);

    cpu.write_byte(addr, 0x5A);
    cpu.execute(0xCFF0); // OR.B #0xF0,@(R0,GBR) -> 0x5A | 0xF0 = 0xFA
    assert_eq!(cpu.read_byte(addr), 0xFA);
}

#[test]
fn test_cache_purge_behavior() {
    let mut cpu = make_cpu();
    cpu.write_long(0x4020_0008, 0x12345678);
    assert_eq!(cpu.read_long(0x0020_0008), 0); // Low RAM remains 0

    cpu.write_byte(0x4020_0000, 0xAA);
    assert_eq!(cpu.read_byte(0x0020_0000), 0xAA);
    cpu.write_word(0x4020_0002, 0xBBCC);
    assert_eq!(cpu.read_word(0x0020_0002), 0xBBCC);

    assert_eq!(cpu.read_byte(0x4020_0000), 0xFF);
    assert_eq!(cpu.read_word(0x4020_0002), 0xFFFF);
    assert_eq!(cpu.read_long(0x4020_0004), 0xFFFFFFFF);

    cpu.write_byte(0xA020_0000, 0x55);
    assert_eq!(cpu.read_byte(0xA020_0000), 0x55);
    assert_eq!(cpu.read_byte(0x0020_0000), 0x55);
}

#[test]
fn test_cache_arrays_and_execution() {
    let mut cpu = make_cpu();
    cpu.write_long(0x6000_0000, 0x11223344);
    assert_eq!(cpu.bus.address_array[0], 0x11223344);
    assert_eq!(cpu.read_long(0x6000_0400), 0x11223344); // mirrors every 1KB

    assert_eq!(cpu.read_byte(0x6000_0000), 0);

    cpu.write_byte(0xC000_0010, 0xAA);
    cpu.write_byte(0xC000_0011, 0xBB);
    assert_eq!(cpu.bus.data_array[0x10], 0xAA);
    assert_eq!(cpu.bus.data_array[0x11], 0xBB);
    assert_eq!(cpu.read_byte(0xC000_0010), 0xAA);
    assert_eq!(cpu.read_byte(0xC000_0011), 0xBB);

    cpu.bus.data_array[0] = 0x00;
    cpu.bus.data_array[1] = 0x09; // NOP
    cpu.pc = 0xC000_0000;
    let cycles_before = cpu.bus.cycles;
    cpu.step();
    assert_eq!(cpu.pc, 0xC000_0002);
    assert_eq!(cpu.bus.cycles, cycles_before + 1); // NOP cycles
    assert!(!cpu.illegal_instruction_flag);
}

#[test]
fn test_memory_bus_phase_1() {
    let mut cpu = make_cpu();

    assert_eq!(cpu.read_long(0x4000_0000), 0xFFFFFFFF);
    assert_eq!(cpu.read_word(0x4000_0000), 0xFFFF);
    assert_eq!(cpu.read_byte(0x4000_0000), 0xFF);

    cpu.write_long(0x0020_0000, 0x12345678);
    assert_eq!(cpu.read_long(0xA020_0000), 0x12345678);

    cpu.write_long(0xC000_0000, 0xDEADBEEF);
    assert_eq!(cpu.read_long(0xC000_1000), 0xDEADBEEF);
    assert_eq!(cpu.read_long(0xC000_0000), 0xDEADBEEF);

    let mut cpu2 = Sh2::new(true, WorkRam::new());
    assert_eq!(cpu2.read_long(0xC000_0000), 0); // Core 1 sees 0

    cpu.write_long(0x6000_0000, 0x1234);
    assert_eq!(cpu.read_long(0x6000_0400), 0x1234); // mirrors every 1KB
    assert_eq!(cpu.read_byte(0x6000_0000), 0); // byte/word fall to Unmapped/0

    assert_eq!(cpu.read_long(0xE020_0000), 0);
    cpu.write_long(0xE020_0000, 0x99999999);
    assert_eq!(cpu.read_long(0x0020_0000), 0x12345678); // Low RAM unaffected

    assert_eq!(cpu.read_word(0x0E00_0000), 0);
}

#[test]
fn test_memory_bus_phase_2() {
    let mut cpu = make_cpu();

    cpu.write_byte(0x0600_0000, 0x11);
    assert_eq!(cpu.read_byte(0x0610_0000), 0x11);
    cpu.write_byte(0x0608_0000, 0x22);
    assert_eq!(cpu.read_byte(0x0618_0000), 0x22);
    assert_eq!(cpu.read_byte(0x0600_0000), 0x11); // no collision

    cpu.write_byte(0x05D0_0000, 0xAA);
    assert_eq!(cpu.read_byte(0x05D0_0100), 0xAA);

    cpu.write_byte(0x05F8_0000, 0xBB);
    assert_eq!(cpu.read_byte(0x05F8_0200), 0xBB);

    cpu.bus.next_vblank_due = Some(cpu.bus.now_us + VBLANK_INTERVAL);
    assert_eq!(cpu.read_byte(0x05F8_0204), 0x00);
    assert_eq!(cpu.read_byte(0x05F8_0205), 0x08);

    cpu.write_byte(0x05FE_0000, 0xCC);
    assert_eq!(cpu.read_byte(0x05FE_0100), 0xCC);

    cpu.write_byte(0x0018_0000, 0x55);
    assert_eq!(cpu.read_byte(0x0018_0001), 0x55);
    assert_eq!(cpu.read_byte(0x0018_0000), 0x00);

    cpu.write_byte(0x05A0_0000, 0x77);
    assert_eq!(cpu.read_byte(0x05A4_0000), 0x77);

    cpu.write_byte(0x05B0_0400, 0x02); // set bit 9
    cpu.write_byte(0x05A0_0000, 0x88);
    assert_eq!(cpu.read_byte(0x05A4_0000), 0x00); // 256KB mirror mode is off, offset 256KB should be 0
    assert_eq!(cpu.read_byte(0x05A8_0000), 0xFF); // offset > 512KB (0x80000) returns all-ones (0xFF)

    cpu.write_byte(0x0580_0000, 0x12);
    assert_eq!(cpu.read_byte(0x0581_8000), 0); // FIFO offset doesn't alias onto CR1
}

#[test]
fn test_illegal_instruction_exceptions() {
    let mut cpu = make_cpu();
    cpu.vbr = 0x0020_0000;
    cpu.write_long(0x0020_0010, 0x0020_0100);
    cpu.registers[15] = 0x0020_0500;
    cpu.sr = 0x0000_00F0; // dummy SR

    cpu.write_word(0x0020_0080, 0x0000);
    cpu.pc = 0x0020_0080;
    cpu.step();

    assert_eq!(cpu.pc, 0x0020_0100);
    assert_eq!(cpu.registers[15], 0x0020_04F8);
    assert_eq!(cpu.read_long(0x0020_04F8), 0x0020_0082); // PC pushed
    assert_eq!(cpu.read_long(0x0020_04FC), 0x0000_00F0); // SR pushed
    assert!(cpu.illegal_instruction_flag);

    cpu.illegal_instruction_flag = false;
    cpu.registers[15] = 0x0020_0500;
    cpu.write_word(0x0020_0080, 0xFFFF);
    cpu.pc = 0x0020_0080;
    cpu.step();

    assert_eq!(cpu.pc, 0x0020_0100);
    assert_eq!(cpu.registers[15], 0x0020_04F8);
    assert_eq!(cpu.read_long(0x0020_04F8), 0x0020_0082); // PC pushed
    assert!(cpu.illegal_instruction_flag);
}

#[test]
fn test_onchip_p4_t1_reset_values() {
    let mut cpu_master = make_cpu();
    let mut cpu_slave = Sh2::new(true, WorkRam::new());

    assert_eq!(cpu_master.read_byte(0xFFFFFE00), 0x00); // SMR
    assert_eq!(cpu_master.read_byte(0xFFFFFE01), 0xFF); // BRR
    assert_eq!(cpu_master.read_byte(0xFFFFFE02), 0x00); // SCR
    assert_eq!(cpu_master.read_byte(0xFFFFFE03), 0xFF); // TDR
    assert_eq!(cpu_master.read_byte(0xFFFFFE04), 0x84); // SSR
    assert_eq!(cpu_master.read_byte(0xFFFFFE05), 0x00); // RDR

    assert_eq!(cpu_master.read_byte(0xFFFFFE10), 0x01); // TIER
    assert_eq!(cpu_master.read_byte(0xFFFFFE11), 0x00); // FTCSR
    assert_eq!(cpu_master.read_word(0xFFFFFE12), 0x0000); // FRC
    assert_eq!(cpu_master.read_word(0xFFFFFE14), 0xFFFF); // OCRA/OCRB
    assert_eq!(cpu_master.read_byte(0xFFFFFE16), 0x00); // TCR
    assert_eq!(cpu_master.read_byte(0xFFFFFE17), 0xE0); // TOCR
    assert_eq!(cpu_master.read_word(0xFFFFFE18), 0x0000); // FICR

    assert_eq!(cpu_master.read_word(0xFFFFFE60), 0x0000); // IPRB
    assert_eq!(cpu_master.read_word(0xFFFFFE62), 0x0000); // VCRA
    assert_eq!(cpu_master.read_word(0xFFFFFE64), 0x0000); // VCRB
    assert_eq!(cpu_master.read_word(0xFFFFFE66), 0x0000); // VCRC
    assert_eq!(cpu_master.read_word(0xFFFFFE68), 0x0000); // VCRD
    assert_eq!(cpu_master.read_word(0xFFFFFEE0), 0x0000); // ICR
    assert_eq!(cpu_master.read_word(0xFFFFFEE2), 0x0000); // IPRA
    assert_eq!(cpu_master.read_word(0xFFFFFEE4), 0x0000); // VCRWDT

    assert_eq!(cpu_master.read_byte(0xFFFFFE80), 0x18); // WTCSR
    assert_eq!(cpu_master.read_byte(0xFFFFFE81), 0x00); // WTCNT
    assert_eq!(cpu_master.read_byte(0xFFFFFE83), 0x1F); // RSTCSR

    assert_eq!(cpu_master.read_byte(0xFFFFFE91), 0x60); // SBYCR
    assert_eq!(cpu_master.read_byte(0xFFFFFE92), 0x00); // CCR

    assert_eq!(cpu_master.read_word(0xFFFFFFE0), 0x03F0);
    assert_eq!(cpu_slave.read_word(0xFFFFFFE0), 0x83F0);
    assert_eq!(cpu_master.read_word(0xFFFFFFE4), 0x00FC); // BCR2
    assert_eq!(cpu_master.read_word(0xFFFFFFE8), 0xAAFF); // WCR
    assert_eq!(cpu_master.read_word(0xFFFFFFEC), 0x0000); // MCR
    assert_eq!(cpu_master.read_word(0xFFFFFFF0), 0x0000); // RTCSR
    assert_eq!(cpu_master.read_word(0xFFFFFFF4), 0x0000); // RTCNT
    assert_eq!(cpu_master.read_word(0xFFFFFFF8), 0x0000); // RTCOR

    assert_eq!(cpu_master.read_byte(0xFFFFFE71), 0x00); // DRCR0
    assert_eq!(cpu_master.read_byte(0xFFFFFE72), 0x00); // DRCR1
}

#[test]
fn test_onchip_p4_t2_write_masking() {
    let mut cpu = make_cpu();

    cpu.write_word(0xFFFFFE60, 0xFFFF); // IPRB -> val & 0xFF00
    assert_eq!(cpu.read_word(0xFFFFFE60), 0xFF00);

    cpu.write_word(0xFFFFFE62, 0xFFFF); // VCRA -> val & 0x7F7F
    assert_eq!(cpu.read_word(0xFFFFFE62), 0x7F7F);

    cpu.write_word(0xFFFFFE64, 0xFFFF); // VCRB -> val & 0x7F7F
    assert_eq!(cpu.read_word(0xFFFFFE64), 0x7F7F);

    cpu.write_word(0xFFFFFE66, 0xFFFF); // VCRC -> val & 0x7F7F
    assert_eq!(cpu.read_word(0xFFFFFE66), 0x7F7F);

    cpu.write_word(0xFFFFFE68, 0xFFFF); // VCRD -> val & 0x7F7F
    assert_eq!(cpu.read_word(0xFFFFFE68), 0x7F7F);

    cpu.write_word(0xFFFFFEE0, 0xFFFF); // ICR -> val & 0x0101
    assert_eq!(cpu.read_word(0xFFFFFEE0), 0x0101);

    cpu.write_word(0xFFFFFEE2, 0xFFFF); // IPRA -> val & 0xFFF0
    assert_eq!(cpu.read_word(0xFFFFFEE2), 0xFFF0);

    cpu.write_word(0xFFFFFEE4, 0xFFFF); // VCRWDT -> val & 0x7F7F
    assert_eq!(cpu.read_word(0xFFFFFEE4), 0x7F7F);

    cpu.write_byte(0xFFFFFE92, 0xFF); // CCR -> val & 0xCF
    assert_eq!(cpu.read_byte(0xFFFFFE92), 0xCF);

    cpu.write_byte(0xFFFFFE91, 0xFF); // SBYCR -> val & 0xDF
    assert_eq!(cpu.read_byte(0xFFFFFE91), 0xDF);

    cpu.write_long(0xFFFFFFE0, 0x1FF7_00FC); // BCR1 = (bcr1&0x8000) | (val>>16 & 0x1FF7), BCR2 = val & 0xFC
    assert_eq!(cpu.read_word(0xFFFFFFE0), 0x1FF7); // master bit 15 is 0
    assert_eq!(cpu.read_word(0xFFFFFFE4), 0x00FC);

    cpu.write_long(0xFFFFFFE8, 0x1234_FEFC); // WCR, MCR
    assert_eq!(cpu.read_word(0xFFFFFFE8), 0x1234);
    assert_eq!(cpu.read_word(0xFFFFFFEC), 0xFEFC);

    cpu.write_long(0xFFFFFFF0, 0x00F8_0000); // RTCSR
    assert_eq!(cpu.read_word(0xFFFFFFF0), 0x00F8);

    cpu.write_long(0xFFFFFFF8, 0x00FF_0000); // RTCOR
    assert_eq!(cpu.read_word(0xFFFFFFF8), 0x00FF);

    cpu.write_byte(0xFFFFFE71, 0xFF); // DRCR0 -> val & 3
    assert_eq!(cpu.read_byte(0xFFFFFE71), 0x03);
}

#[test]
fn test_onchip_p4_t3_destructive_byte_write_quirks() {
    let mut cpu = make_cpu();

    cpu.write_word(0xFFFFFE60, 0x1234);
    cpu.write_byte(0xFFFFFE60, 0x55);
    assert_eq!(cpu.read_word(0xFFFFFE60), 0x5500);

    cpu.write_word(0xFFFFFE68, 0x1234);
    cpu.write_byte(0xFFFFFE68, 0x55);
    assert_eq!(cpu.read_word(0xFFFFFE68), 0x5500 & 0x7F00);

    cpu.write_word(0xFFFFFE60, 0x1234);
    cpu.write_byte(0xFFFFFE61, 0x55);
    assert_eq!(cpu.read_word(0xFFFFFE60), 0x1200); // remains 0x1200 (since 0x34 is low byte, but wait, write_word does val & 0xFF00, so 0x34 was already masked to 0!)

    cpu.write_word(0xFFFFFE68, 0x1234 & 0x7F7F);
    cpu.write_byte(0xFFFFFE69, 0x55);
    assert_eq!(cpu.read_word(0xFFFFFE68), 0x1234 & 0x7F7F);
}

#[test]
fn test_onchip_p4_t4_access_width_matrix() {
    let mut cpu = make_cpu();

    cpu.write_byte(0xFFFFFE92, 0x0C);
    assert_eq!(cpu.read_byte(0xFFFFFE92), 0x0C);
    assert_eq!(cpu.read_word(0xFFFFFE92), 0x0C00); // read as word

    cpu.write_word(0xFFFFFE92, 0x0F00);
    assert_eq!(cpu.read_byte(0xFFFFFE92), 0x0F);

    cpu.write_long(0xFFFFFFE0, 0x1FF7_0000);
    assert_eq!(cpu.read_word(0xFFFFFFE2), 0x1FF7); // read BCR1 at +2

    cpu.write_word(0xFFFFFFE0, 0x0000); // word write to BCR1 ignored
    assert_eq!(cpu.read_word(0xFFFFFFE2), 0x1FF7);
}

#[test]
fn test_tas_b_fallback() {
    let mut cpu = make_cpu();
    cpu.write_byte(0x0020_0000, 0x55);
    cpu.registers[1] = 0x0020_0000;
    cpu.execute(0x411B); // TAS.B @R1
    assert_eq!(cpu.read_byte(0x0020_0000), 0xD5); // 0x55 | 0x80 = 0xD5
    assert!(!cpu.t()); // MSB was 0

    cpu.write_byte(0x0010_0000, 0x00);
    cpu.registers[2] = 0x0010_0000;
    cpu.execute(0x421B); // TAS.B @R2
    assert_eq!(cpu.read_byte(0x0010_0000), 0x80); // 0x00 | 0x80 = 0x80
    assert!(cpu.t()); // MSB was 0
}

#[test]
fn test_onchip_p5_t1_sort_dedupe() {
    let mut cpu = make_cpu();
    cpu.queue_send(0x40, 15);
    cpu.queue_send(0x47, 8);
    cpu.queue_send(0x41, 14);
    cpu.queue_send(0x40, 2); // Duplicate vector, must be ignored and not change level

    let q = match &cpu.bus.irq.irq_in {
        Some(q_ref) => q_ref,
        None => &cpu.bus.irq.local_irq_in,
    };

    assert_eq!(q.pending.len(), 3);
    assert_eq!(q.pending[0].vector, 0x47);
    assert_eq!(q.pending[0].level, 8);
    assert_eq!(q.pending[1].vector, 0x41);
    assert_eq!(q.pending[1].level, 14);
    assert_eq!(q.pending[2].vector, 0x40);
    assert_eq!(q.pending[2].level, 15);
}

#[test]
fn test_onchip_p5_t2_strictly_greater_masking() {
    let mut cpu = make_cpu();
    cpu.sr = 8 << SR_IMASK_SHIFT; // mask = 8
    cpu.vbr = 0x0600_0000;
    cpu.registers[15] = 0x0600_1000;
    cpu.pc = 0x0600_0100;
    cpu.write_word(0x0600_0100, 0x0009); // NOP

    cpu.write_long(
        cpu.vbr.wrapping_add(SMPC_IRQ_VECTOR as u32 * 4),
        0x0600_2000,
    );
    cpu.write_word(0x0600_2000, 0x0009);

    cpu.write_long(
        cpu.vbr.wrapping_add(SOUND_REQ_IRQ_VECTOR as u32 * 4),
        0x0600_3000,
    );
    cpu.write_word(0x0600_3000, 0x0009);

    cpu.queue_send(SMPC_IRQ_VECTOR as u8, SMPC_IRQ_LEVEL as u8); // level 8: must not deliver
    cpu.step();
    assert_eq!(cpu.pc, 0x0600_0102); // Executing normal flow (PC advanced to next instruction)

    cpu.queue_send(SOUND_REQ_IRQ_VECTOR as u8, SOUND_REQ_IRQ_LEVEL as u8); // level 9: must deliver
    cpu.step();
    assert_eq!(cpu.pc, 0x0600_3002); // Branched to handler!
}

#[test]
fn test_onchip_p5_t3_one_per_call() {
    let mut cpu = make_cpu();
    cpu.sr = 0;
    cpu.vbr = 0x0600_0000;
    cpu.registers[15] = 0x0600_1000;
    cpu.queue_send(0x47, 8);
    cpu.queue_send(0x41, 14);

    cpu.write_long(cpu.vbr.wrapping_add(0x41 * 4), 0x0600_2000);
    cpu.write_long(cpu.vbr.wrapping_add(0x47 * 4), 0x0600_3000);
    cpu.write_word(0x0600_2000, 0x0009); // NOP inside handler
    cpu.write_word(0x0600_3000, 0x0009); // NOP inside handler

    cpu.step(); // Steps the first (highest priority: 0x41 level 14)
    assert_eq!(cpu.pc, 0x0600_2002);

    let q = match &cpu.bus.irq.irq_in {
        Some(q_ref) => q_ref,
        None => &cpu.bus.irq.local_irq_in,
    };
    assert!(q.pending.iter().any(|x| x.vector == 0x47));
}

#[test]
fn test_onchip_p5_t4_nmi_clamp() {
    let mut cpu = make_cpu();
    cpu.sr = 15 << SR_IMASK_SHIFT; // Mask 15 (maximum normal mask)
    cpu.vbr = 0x0600_0000;
    cpu.registers[15] = 0x0600_1000;
    cpu.write_long(cpu.vbr.wrapping_add(0xB * 4), 0x0600_2000); // NMI vector 11 -> offset 0x2C
    cpu.write_word(0x0600_2000, 0x0009);

    cpu.nmi();
    assert_eq!(cpu.bus.onchip.icr & 0x8000, 0x8000); // Bit 15 set

    cpu.step(); // NMI must bypass mask 15 and execute
    assert_eq!(cpu.pc, 0x0600_2002);
    assert_eq!((cpu.sr >> SR_IMASK_SHIFT) & 0xF, 0xF); // Mask clamped to 15 (0xF)
}

#[test]
fn test_onchip_p5_t6_delay_slot_no_interrupt() {
    let mut cpu = make_cpu();
    cpu.sr = 15 << SR_IMASK_SHIFT; // Mask 15: VBLANK-IN is masked
    cpu.vbr = 0x0600_0000;
    cpu.registers[15] = 0x0600_1000;

    cpu.write_long(
        cpu.vbr.wrapping_add(VBLANK_IN_VECTOR as u32 * 4),
        0x0600_2000,
    );
    cpu.write_word(0x0600_2000, 0x0009);

    cpu.registers[1] = 0; // Value to write to SR
    cpu.pc = 0x0600_0000;
    cpu.write_word(0x0600_0000, 0xA00E); // BRA + 0x10 -> 0x0600_0020
    cpu.write_word(0x0600_0002, 0x410E); // delay slot: LDC R1, SR

    cpu.queue_send(VBLANK_IN_VECTOR as u8, VBLANK_IN_LEVEL as u8);

    cpu.step(); // Steps BRA + delay slot (LDC R1, SR).
    assert_eq!((cpu.sr >> SR_IMASK_SHIFT) & 0xF, 0);
    assert_eq!(cpu.pc, 0x0600_0020);

    cpu.step(); // Now we step starting at target, which services the unmasked VBLANK-IN
    assert_eq!(cpu.pc, 0x0600_2002);

    let pushed_pc = cpu.read_long(cpu.registers[15]);
    assert_eq!(pushed_pc, 0x0600_0020);
}

#[test]
fn test_divu_p6_t1_crash_regression_overflow() {
    let mut cpu = make_cpu();

    cpu.write_long(0xFFFFFF00, 0xFFFF_FFFF); // DVSR = -1
    cpu.write_long(0xFFFFFF04, 0x8000_0000); // DVDNT = i32::MIN -> triggers division
    assert_eq!(cpu.read_long(0xFFFFFF04), 0x8000_0000); // Quotient wrapped to i32::MIN
    assert_eq!(cpu.read_long(0xFFFFFF10), 0); // Remainder is 0

    cpu.write_long(0xFFFFFF00, 0xFFFF_FFFF); // DVSR = -1
    cpu.write_long(0xFFFFFF10, 0x8000_0000); // DVDNTH = i32::MIN
    cpu.write_long(0xFFFFFF14, 0x0000_0000); // DVDNTL = 0 -> triggers 64-bit division
    assert_eq!(cpu.read_long(0xFFFFFF08) & 1, 1); // DVCR overflow flag set
}

#[test]
fn test_divu_p6_t4_overflow_interrupt() {
    let mut cpu = make_cpu();
    cpu.sr = 0; // mask = 0 (unmasked)
    cpu.vbr = 0x0600_0000;
    cpu.registers[15] = 0x0600_1000;

    cpu.write_long(0xFFFFFF0C, 0x48); // VCRDIV vector = 0x48
    cpu.write_word(0xFFFFFEE2, 0x9000); // IPRA level for DIVU = 9 (bits 12-15)

    cpu.write_long(0xFFFFFF08, 0x2);

    cpu.write_long(cpu.vbr.wrapping_add(0x48 * 4), 0x0600_2000);
    cpu.write_word(0x0600_2000, 0x0009);

    cpu.write_long(0xFFFFFF00, 0); // DVSR = 0
    cpu.write_long(0xFFFFFF04, 100); // Trigger

    cpu.step();

    assert_eq!(cpu.pc, 0x0600_2002);
}

#[test]
fn test_frt_p7_t1_prescaler() {
    let mut cpu = make_cpu();
    cpu.write_byte(0xFFFFFE16, 0); // TCR = 0
    assert_eq!(cpu.bus.frc_shift, 3);
    assert_eq!(cpu.read_byte(0xFFFFFE16), 0);

    cpu.write_byte(0xFFFFFE16, 1); // TCR = 1
    assert_eq!(cpu.bus.frc_shift, 5);
    assert_eq!(cpu.read_byte(0xFFFFFE16), 1);

    cpu.write_byte(0xFFFFFE16, 2); // TCR = 2
    assert_eq!(cpu.bus.frc_shift, 7);
    assert_eq!(cpu.read_byte(0xFFFFFE16), 2);

    cpu.write_byte(0xFFFFFE16, 3); // TCR = 3 -> external, frc_shift unchanged/disabled
    assert_eq!(cpu.bus.frc_shift, 7);
    assert_eq!(cpu.read_byte(0xFFFFFE16), 3);
}

#[test]
fn test_frt_p7_t2_counter_advance() {
    let mut cpu = make_cpu();
    cpu.bus.frc_shift = 3;
    cpu.bus.frc_leftover = 0;
    cpu.bus.onchip.frc = 0;

    cpu.frt_exec(43);
    assert_eq!(cpu.bus.onchip.frc, 5);
    assert_eq!(cpu.bus.frc_leftover, 3);

    cpu.frt_exec(87);
    assert_eq!(cpu.bus.onchip.frc, 16);
    assert_eq!(cpu.bus.frc_leftover, 2);
}

#[test]
fn test_frt_p7_t3_ftcsr_write_clear() {
    let mut cpu = make_cpu();
    cpu.bus.onchip.ftcsr = 0x0E;
    cpu.write_byte(0xFFFFFE11, 0x0A);
    assert_eq!(cpu.bus.onchip.ftcsr, 0x0A);

    cpu.write_byte(0xFFFFFE11, 0x01);
    assert_eq!(cpu.bus.onchip.ftcsr, 0x01);
}

#[test]
fn test_frt_p7_t4_ocra_ocrb_selector() {
    let mut cpu = make_cpu();
    cpu.write_byte(0xFFFFFE17, 0x00);
    cpu.write_word(0xFFFFFE14, 0x1234);
    assert_eq!(cpu.bus.onchip.ocra, 0x1234);
    assert_eq!(cpu.bus.onchip.ocrb, 0xFFFF);

    cpu.write_byte(0xFFFFFE17, 0x10);
    cpu.write_word(0xFFFFFE14, 0x5678);
    assert_eq!(cpu.bus.onchip.ocra, 0x1234);
    assert_eq!(cpu.bus.onchip.ocrb, 0x5678);
}

#[test]
fn test_frt_p7_t5_compare_match_cclra() {
    let mut cpu = make_cpu();
    cpu.sr = 0;
    cpu.vbr = 0x0600_0000;
    cpu.registers[15] = 0x0600_1000;
    cpu.bus.frc_shift = 0;

    cpu.bus.onchip.ocra = 0x100;
    cpu.bus.onchip.ocrb = 0xFFFF;
    cpu.bus.onchip.tier = 0x08;
    cpu.bus.onchip.ftcsr = 0x01;
    cpu.bus.onchip.vcrc = 0x50;
    cpu.bus.onchip.iprb = 0x0A00;

    cpu.write_long(cpu.vbr.wrapping_add(0x50 * 4), 0x0600_2000);
    cpu.write_word(0x0600_2000, 0x0009);

    cpu.bus.onchip.frc = 0x0FF;
    cpu.frt_exec(1);

    assert_eq!(cpu.bus.onchip.ftcsr & 0x08, 0x08);
    assert_eq!(cpu.bus.onchip.frc, 0);

    cpu.step();
    assert_eq!(cpu.pc, 0x0600_2002);

    let mut cpu2 = make_cpu();
    cpu2.bus.frc_shift = 0;
    cpu2.bus.onchip.ocra = 0x100;
    cpu2.bus.onchip.ocrb = 0xFFFF;
    cpu2.bus.onchip.tier = 0x00;
    cpu2.bus.onchip.ftcsr = 0x00;
    cpu2.bus.onchip.frc = 0x0FF;
    cpu2.frt_exec(1);
    assert_eq!(cpu2.bus.onchip.frc, 0x100);
}

#[test]
fn test_frt_p7_t6_missed_compare_deviation() {
    let mut cpu = make_cpu();
    cpu.bus.frc_shift = 0;
    cpu.bus.onchip.ocra = 0x0100;
    cpu.bus.onchip.ocrb = 0xFFFF;
    cpu.bus.onchip.frc = 0;

    cpu.frt_exec(0x10050);

    assert_eq!(cpu.bus.onchip.ftcsr & 0x08, 0);
    assert_eq!(cpu.bus.onchip.ftcsr & 0x02, 0x02);
}

#[test]
fn test_frt_p7_t7_tier_ici_rearm() {
    let mut cpu = make_cpu();
    cpu.sr = 0;
    cpu.vbr = 0x0600_0000;
    cpu.registers[15] = 0x0600_1000;
    cpu.bus.onchip.vcrc = 0x5100;
    cpu.bus.onchip.iprb = 0x0A00;

    cpu.write_long(cpu.vbr.wrapping_add(0x51 * 4), 0x0600_2000);
    cpu.write_word(0x0600_2000, 0x0009);

    cpu.bus.onchip.ftcsr = 0x80;
    cpu.write_byte(0xFFFFFE10, 0x80);

    cpu.step();
    assert_eq!(cpu.pc, 0x0600_2002);
}

#[test]
fn test_cycles_p8_t1_base_costs() {
    let mut cpu = make_cpu();

    cpu.write_word(0x0600_1000, 0x0009);
    cpu.pc = 0x0600_1000;
    let c = cpu.bus.cycles;
    cpu.step();
    assert_eq!(cpu.bus.cycles - c, 1);

    cpu.write_word(0x0600_1000, 0x000B);
    cpu.write_word(0x0600_1002, 0x0009);
    cpu.pr = 0x0600_1004;
    cpu.pc = 0x0600_1000;
    let c = cpu.bus.cycles;
    cpu.step();
    assert_eq!(cpu.bus.cycles - c, 3); // 2 base + 1 delay slot NOP

    cpu.write_word(0x0600_1000, 0x001B);
    cpu.pc = 0x0600_1000;
    let c = cpu.bus.cycles;
    cpu.step();
    assert_eq!(cpu.bus.cycles - c, 3);
}

#[test]
fn test_cycles_p8_t2_wait_states() {
    let mut cpu = make_cpu();

    let c = cpu.bus.cycles;
    cpu.read_byte(0x0600_0000);
    assert_eq!(cpu.bus.cycles - c, 0);

    let c = cpu.bus.cycles;
    cpu.read_byte(0x0020_0000);
    assert_eq!(cpu.bus.cycles - c, 12);

    let c = cpu.bus.cycles;
    cpu.read_byte(0x0000_0000);
    assert_eq!(cpu.bus.cycles - c, 16);

    let c = cpu.bus.cycles;
    cpu.read_byte(0x05A0_0000);
    assert_eq!(cpu.bus.cycles - c, 50);

    let c = cpu.bus.cycles;
    cpu.write_byte(0x0600_0000, 0);
    assert_eq!(cpu.bus.cycles - c, 2);

    let c = cpu.bus.cycles;
    cpu.write_byte(0x0020_0000, 0);
    assert_eq!(cpu.bus.cycles - c, 7);
}

#[test]
fn test_cycles_p8_t3_conditional_branch() {
    let mut cpu = make_cpu();

    cpu.set_t(true);
    cpu.write_word(0x0600_1000, 0x8900); // BT to relative offset +0
    cpu.pc = 0x0600_1000;
    let c = cpu.bus.cycles;
    cpu.step();
    assert_eq!(cpu.bus.cycles - c, 3);

    cpu.set_t(false);
    cpu.write_word(0x0600_1000, 0x8900);
    cpu.pc = 0x0600_1000;
    let c = cpu.bus.cycles;
    cpu.step();
    assert_eq!(cpu.bus.cycles - c, 1);
}

#[test]
fn test_dmac_p9_t1_transfer_modes() {
    let src_modes = [0, 1, 2]; // fixed, increment, decrement
    let dst_modes = [0, 1, 2];
    let sizes = [0, 1, 2, 3]; // byte, word, longword, burst

    for &src_mode in &src_modes {
        for &dst_mode in &dst_modes {
            for &size in &sizes {
                let mut cpu = make_cpu();

                let src_base = 0x0600_1000;
                for i in 0..64 {
                    cpu.write_byte(src_base + i, (i + 1) as u8);
                }

                let dst_base = 0x0600_2000;
                for i in 0..64 {
                    cpu.write_byte(dst_base + i, 0);
                }

                let stride = match size {
                    0 => 1,
                    1 => 2,
                    2 | 3 => 4,
                    _ => 1,
                } as u32;

                let count = 4;
                let sar = if src_mode == 2 {
                    src_base + 32
                } else {
                    src_base
                };

                let dar = if dst_mode == 2 {
                    dst_base + 32
                } else {
                    dst_base
                };

                cpu.write_long(0xFFFF_FF80, sar); // SAR0
                cpu.write_long(0xFFFF_FF84, dar); // DAR0
                cpu.write_long(0xFFFF_FF88, count); // TCR0
                cpu.write_long(
                    0xFFFF_FF8C,
                    (dst_mode << 14) | (src_mode << 12) | (size << 10) | 1,
                ); // CHCR0: DE=1
                cpu.write_long(0xFFFF_FFB0, 1); // DMAOR: DME=1

                cpu.dma_proc(1000);

                assert_ne!(
                    cpu.read_long(0xFFFF_FF8C) & 2,
                    0,
                    "TE bit must be set upon completion"
                );

                let mut expected_dst = vec![0u8; 64];
                let mut temp_sar = sar;
                let mut temp_dar = dar;
                for _ in 0..count {
                    let offset_s = (temp_sar - src_base) as usize;
                    let offset_d = (temp_dar - dst_base) as usize;
                    for b in 0..stride {
                        expected_dst[offset_d + b as usize] = (offset_s + b as usize + 1) as u8;
                    }
                    match src_mode {
                        1 => temp_sar += stride,
                        2 => temp_sar -= stride,
                        _ => {}
                    }
                    match dst_mode {
                        1 => temp_dar += stride,
                        2 => temp_dar -= stride,
                        _ => {}
                    }
                }

                for i in 0..64 {
                    let actual = cpu.read_byte(dst_base + i as u32);
                    assert_eq!(
                        actual, expected_dst[i],
                        "Mismatch at offset {} for mode src={}, dst={}, size={}",
                        i, src_mode, dst_mode, size
                    );
                }
            }
        }
    }
}

#[test]
fn test_dmac_p9_t2_te_clear() {
    let mut cpu = make_cpu();
    cpu.write_byte(0x0600_1000, 42);
    cpu.write_long(0xFFFF_FF80, 0x0600_1000); // SAR0
    cpu.write_long(0xFFFF_FF84, 0x0600_2000); // DAR0
    cpu.write_long(0xFFFF_FF88, 1); // TCR0
    cpu.write_long(0xFFFF_FF8C, 1); // CHCR0: DE=1
    cpu.write_long(0xFFFF_FFB0, 1); // DMAOR: DME=1

    cpu.dma_proc(1000);

    let chcr = cpu.read_long(0xFFFF_FF8C);
    assert_ne!(chcr & 2, 0, "TE must be set");

    cpu.write_long(0xFFFF_FF8C, chcr | 2);
    assert_ne!(
        cpu.read_long(0xFFFF_FF8C) & 2,
        0,
        "TE must survive when written with 1"
    );

    cpu.bus.onchip.chcr0m = 2;
    cpu.write_long(0xFFFF_FF8C, chcr & !2);
    assert_ne!(
        cpu.read_long(0xFFFF_FF8C) & 2,
        0,
        "TE must survive writing 0 if shadow register has TE set"
    );

    let _ = cpu.read_long(0xFFFF_FF8C);
    assert_eq!(
        cpu.bus.onchip.chcr0m,
        0,
        "Shadow register must clear on read"
    );

    cpu.write_long(0xFFFF_FFB0, 0);

    cpu.write_long(0xFFFF_FF8C, chcr & !2);
    assert_eq!(
        cpu.read_long(0xFFFF_FF8C) & 2,
        0,
        "TE must clear when writing 0 after reading"
    );
}

#[test]
fn test_dmac_p9_t3_arming_gate() {
    let mut cpu = make_cpu();
    cpu.write_byte(0x0600_1000, 99);

    cpu.write_long(0xFFFF_FFB0, 0); // DMAOR = 0
    cpu.write_long(0xFFFF_FF80, 0x0600_1000); // SAR0
    cpu.write_long(0xFFFF_FF84, 0x0600_2000); // DAR0
    cpu.write_long(0xFFFF_FF88, 1); // TCR0
    cpu.write_long(0xFFFF_FF8C, 1); // CHCR0: DE=1

    cpu.dma_proc(200);
    assert_eq!(
        cpu.read_long(0xFFFF_FF88),
        1,
        "Transfer must not occur when DME=0"
    );

    cpu.write_long(0xFFFF_FFB0, 1); // DMAOR = 1
    cpu.write_long(0xFFFF_FF8C, 1); // CHCR0: DE=1
    cpu.dma_proc(200);
    assert_eq!(
        cpu.read_long(0xFFFF_FF88),
        0,
        "Transfer must occur when DME=1"
    );

    cpu.write_long(0xFFFF_FF88, 1);
    cpu.write_long(0xFFFF_FF8C, 0); // Clear TE
    let _ = cpu.read_long(0xFFFF_FF8C); // Clear shadow
    cpu.write_long(0xFFFF_FFB0, 3); // DMAOR = 3 (DME=1, NMIF=1)
    cpu.write_long(0xFFFF_FF8C, 1); // CHCR0: DE=1

    cpu.dma_proc(200);
    assert_eq!(
        cpu.read_long(0xFFFF_FF88),
        1,
        "Transfer must not occur when NMIF=1"
    );
    assert_eq!(
        cpu.read_long(0xFFFF_FFB0) & 1,
        0,
        "DME must be cleared on NMIF/AE abort"
    );
}

#[test]
fn test_dmac_p9_t4_completion_interrupt() {
    let mut cpu = make_cpu();
    cpu.write_byte(0x0600_1000, 77);

    cpu.write_long(0xFFFF_FF80, 0x0600_1000); // SAR0
    cpu.write_long(0xFFFF_FF84, 0x0600_2000); // DAR0
    cpu.write_long(0xFFFF_FF88, 1); // TCR0
    cpu.write_long(0xFFFF_FF8C, 5); // CHCR0: DE=1, IE=1 (bit 2)
    cpu.write_long(0xFFFF_FFA0, 0x1234); // VCRDMA0
    cpu.write_word(0xFFFF_FEE2, 0x0500); // IPRA: DMAC level = 5

    cpu.write_long(0xFFFF_FFB0, 1); // DMAOR: DME=1

    cpu.dma_proc(200);

    let pending = &cpu.bus.irq.local_irq_in.pending;
    assert_eq!(pending.len(), 1, "Interrupt must be queued");
    assert_eq!(pending[0].vector, 0x34, "Vector must be VCRDMA0 & 0xFF");
    assert_eq!(pending[0].level, 5, "Level must match IPRA bits 11-8");
}

#[test]
fn test_dmac_p9_t5_eat_table() {
    let mut cpu = make_cpu();

    assert_eq!(get_eat_clock(0x0600_1000, 0x0600_2000), 14);
    assert_eq!(get_eat_clock(0x05C0_1000, 0x05C0_2000), 570);

    cpu.write_long(0xFFFF_FF80, 0x0600_1000); // SAR0
    cpu.write_long(0xFFFF_FF84, 0x0600_2000); // DAR0
    cpu.write_long(0xFFFF_FF88, 20); // TCR0
    cpu.write_long(0xFFFF_FF8C, 9); // CHCR0: DE=1, size=0, "dual channel" bit set (bit 3 = 1, no budget doubling)
    cpu.write_long(0xFFFF_FFB0, 1); // DMAOR: DME=1 -- this write alone burns the 200-cycle arm burst (14 units done, 4 cycles banked)

    cpu.dma_proc(79);
    assert_ne!(cpu.read_long(0xFFFF_FF88), 0);

    cpu.dma_proc(1);
    assert_eq!(cpu.read_long(0xFFFF_FF88), 0);
}

#[test]
fn reset_reads_vector_from_bios() {
    let mut cpu = make_cpu();
    let mut bios = vec![0u8; 0x80000];
    bios[0..4].copy_from_slice(&0x0000_0100u32.to_be_bytes());
    bios[4..8].copy_from_slice(&0x0601_0000u32.to_be_bytes());
    cpu.load_bios(bios);
    cpu.reset();
    assert_eq!(cpu.pc, 0x0000_0100);
    assert_eq!(cpu.registers[15], 0x0601_0000);
}
