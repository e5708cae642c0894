//! The System Manager: commands, registers and ports.

use saturn_core::peripheral::{GunState, MouseState, PadState, PeripheralKind, PeripheralState};
use saturn_core::sh2::Sh2;
use saturn_core::shared_buffers::WorkRam;
use saturn_core::smpc::clock::ClockSource;
use saturn_core::smpc::{cmd, reg, region, Smpc};

const SMPC_BASE: u32 = 0x0010_0000;

fn execute_smpc(cpu: &mut Sh2) {
    let effects = cpu
        .bus
        .smpc
        .as_mut()
        .unwrap()
        .execute_expired_command(&mut cpu.bus.work_ram);
    cpu.bus.apply_smpc_effects(effects);
}

fn wired_cpu() -> Sh2 {
    let mut cpu = Sh2::new(false, WorkRam::new());
    cpu.bus.smpc = Some(Smpc::new());
    cpu
}

fn wired_cpu_with_clock(clock: ClockSource) -> Sh2 {
    let mut cpu = wired_cpu();
    cpu.bus.smpc.as_mut().unwrap().set_clock(clock);
    cpu
}

fn do_intback_status(cpu: &mut Sh2) {
    cpu.write_byte(SMPC_BASE + reg::IREG0 as u32, 0x01);
    cpu.write_byte(SMPC_BASE + reg::COMREG as u32, cmd::INTBACK);
    execute_smpc(cpu);
}

#[test]
fn fresh_register_view_is_all_zero() {
    let mut work_ram = WorkRam::new();
    let ram = &work_ram.smpc_regs;
    assert!(
        ram.iter().all(|&b| b == 0),
        "SmpcReset zeroes all 64 real registers"
    );
}

#[test]
fn oreg0_reports_reset_disable_state() {
    let mut cpu = wired_cpu();
    cpu.write_byte(SMPC_BASE + reg::IREG0 as u32, 0x01);
    cpu.write_byte(SMPC_BASE + reg::COMREG as u32, cmd::INTBACK);
    execute_smpc(&mut cpu);
    assert_eq!(
        cpu.bus.work_ram.smpc_regs[reg::oreg(0)],
        0xC0,
        "fresh resd=true"
    );

    cpu.write_byte(SMPC_BASE + reg::COMREG as u32, cmd::RESENAB);
    execute_smpc(&mut cpu);
    cpu.write_byte(SMPC_BASE + reg::COMREG as u32, cmd::INTBACK);
    execute_smpc(&mut cpu);
    assert_eq!(
        cpu.bus.work_ram.smpc_regs[reg::oreg(0)],
        0x80,
        "after RESENAB"
    );

    cpu.write_byte(SMPC_BASE + reg::COMREG as u32, cmd::RESDISA);
    execute_smpc(&mut cpu);
    cpu.write_byte(SMPC_BASE + reg::COMREG as u32, cmd::INTBACK);
    execute_smpc(&mut cpu);
    assert_eq!(
        cpu.bus.work_ram.smpc_regs[reg::oreg(0)],
        0xC0,
        "after RESDISA"
    );
}

#[test]
fn intback_status_sr_tracks_ireg1_bit3() {
    let mut cpu = wired_cpu();
    cpu.write_byte(SMPC_BASE + reg::IREG1 as u32, 0x02);
    cpu.write_byte(SMPC_BASE + reg::IREG0 as u32, 0x01);
    cpu.write_byte(SMPC_BASE + reg::COMREG as u32, cmd::INTBACK);
    execute_smpc(&mut cpu);
    assert_eq!(
        cpu.bus.work_ram.smpc_regs[reg::SR],
        0x4F,
        "IREG1=0x02 -> SR=0x4F"
    );

    cpu.write_byte(SMPC_BASE + reg::IREG1 as u32, 0x0A);
    cpu.write_byte(SMPC_BASE + reg::COMREG as u32, cmd::INTBACK);
    execute_smpc(&mut cpu);
    assert_eq!(
        cpu.bus.work_ram.smpc_regs[reg::SR],
        0x6F,
        "IREG1=0x0A -> SR=0x6F"
    );
}

#[test]
fn oreg31_echo_matrix() {
    let echoed = [
        cmd::SNDON,
        cmd::SNDOFF,
        cmd::INTBACK,
        cmd::SETSMEM,
        cmd::NMIREQ,
        cmd::RESENAB,
        cmd::RESDISA,
    ];
    let not_echoed = [
        cmd::SSHON,
        cmd::SSHOFF,
        cmd::CKCHG352,
        cmd::CKCHG320,
        cmd::MSHON,
        cmd::CDON,
        cmd::CDOFF,
        cmd::SYSRES,
    ];

    for &command in &echoed {
        let mut cpu = wired_cpu();
        cpu.write_byte(SMPC_BASE + reg::IREG0 as u32, 0x01);
        cpu.write_byte(SMPC_BASE + reg::COMREG as u32, command);
        execute_smpc(&mut cpu);
        assert_eq!(
            cpu.bus.work_ram.smpc_regs[reg::oreg(31)],
            command,
            "command {:#04X} must echo into OREG31",
            command
        );
    }
    for &command in &not_echoed {
        let mut cpu = wired_cpu();
        cpu.bus.work_ram.smpc_regs[reg::oreg(31)] = 0x5A; // sentinel
        cpu.write_byte(SMPC_BASE + reg::COMREG as u32, command);
        execute_smpc(&mut cpu);
        assert_eq!(
            cpu.bus.work_ram.smpc_regs[reg::oreg(31)],
            0x5A,
            "command {:#04X} must not touch OREG31",
            command
        );
    }
}

#[test]
fn sf_handshake_matches_real_bios_sequence() {
    let mut cpu = wired_cpu();
    cpu.write_byte(SMPC_BASE + reg::SF as u32, 0x01);
    cpu.write_byte(SMPC_BASE + reg::IREG0 as u32, 0x01);
    cpu.write_byte(SMPC_BASE + reg::IREG1 as u32, 0x02);
    cpu.write_byte(SMPC_BASE + reg::IREG2 as u32, 0xF0);
    cpu.write_byte(SMPC_BASE + reg::COMREG as u32, cmd::INTBACK);
    execute_smpc(&mut cpu);
    let sf = cpu.read_byte(SMPC_BASE + reg::SF as u32);
    assert_eq!(
        sf & 1,
        0,
        "SF bit 0 must clear once INTBACK finishes, or the real BIOS spins forever"
    );
}

#[test]
fn sf_read_returns_bustmp_high_bits() {
    let mut cpu = wired_cpu();
    cpu.write_byte(SMPC_BASE + 0x0F, 0xF0); // padding offset
    cpu.write_byte(SMPC_BASE + reg::SF as u32, 0x01);
    assert_eq!(cpu.read_byte(SMPC_BASE + reg::SF as u32), 0xF1);
}

#[test]
fn unrecognised_comreg_clears_sf_without_dispatching() {
    let mut cpu = wired_cpu();
    cpu.bus.work_ram.smpc_regs[reg::oreg(0)] = 0x5A; // sentinel
    cpu.write_byte(SMPC_BASE + reg::SF as u32, 0x01);
    cpu.write_byte(SMPC_BASE + reg::COMREG as u32, 0x05);
    execute_smpc(&mut cpu);
    assert_eq!(
        cpu.read_byte(SMPC_BASE + reg::SF as u32) & 1,
        0,
        "SF must clear"
    );
    assert_eq!(
        cpu.bus.work_ram.smpc_regs[reg::oreg(0)],
        0x5A,
        "OREG0 must be untouched"
    );
}

#[test]
fn intback_rtc_bcd_layout() {
    let mut cpu = wired_cpu_with_clock(ClockSource::Fixed(946_684_800));
    do_intback_status(&mut cpu);
    {
        let ram = &cpu.bus.work_ram.smpc_regs;
        assert_eq!(ram[reg::oreg(1)], 0x20, "OREG1 (year thousands/hundreds)");
        assert_eq!(ram[reg::oreg(2)], 0x00, "OREG2 (year tens/units)");
        assert_eq!(
            ram[reg::oreg(3)],
            0x61,
            "OREG3 (weekday<<4 | month), Saturday=6, Jan=1"
        );
        assert_eq!(ram[reg::oreg(4)], 0x01, "OREG4 (day BCD)");
        assert_eq!(ram[reg::oreg(5)], 0x00, "OREG5 (hour BCD)");
        assert_eq!(ram[reg::oreg(6)], 0x00, "OREG6 (minute BCD)");
        assert_eq!(ram[reg::oreg(7)], 0x00, "OREG7 (second BCD)");
    }

    let mut cpu = wired_cpu_with_clock(ClockSource::Fixed(1_009_287_959));
    do_intback_status(&mut cpu);
    {
        let ram = &cpu.bus.work_ram.smpc_regs;
        assert_eq!(
            ram[reg::oreg(3)] & 0x0F,
            0x0C,
            "OREG3 low nibble: December is nibble 0xC, not BCD"
        );
        assert_eq!(
            ram[reg::oreg(3)] >> 4,
            0x2,
            "OREG3 high nibble: Tuesday = 2"
        );
        assert_eq!(ram[reg::oreg(4)], 0x25, "OREG4 (day 25, BCD)");
        assert_eq!(ram[reg::oreg(5)], 0x13, "OREG5 (hour 13, BCD)");
        assert_eq!(ram[reg::oreg(6)], 0x45, "OREG6 (minute 45, BCD)");
        assert_eq!(ram[reg::oreg(7)], 0x59, "OREG7 (second 59, BCD)");
    }
}

#[test]
fn oreg10_encodes_dot_clock() {
    let mut cpu = wired_cpu_with_clock(ClockSource::Fixed(0));
    do_intback_status(&mut cpu);
    assert_eq!(
        cpu.bus.work_ram.smpc_regs[reg::oreg(10)],
        0x34,
        "all flags clear"
    );
    let mut smpc = Smpc::new();
    smpc.dotsel = true;
    let mut work_ram2 = WorkRam::new();
    work_ram2.smpc_regs[reg::IREG0] = 0x01;
    smpc.execute_command(cmd::INTBACK, &mut work_ram2);
    assert_eq!(
        work_ram2.smpc_regs[reg::oreg(10)],
        0x74,
        "dotsel=true"
    );
}

#[test]
fn setsmem_round_trips_through_oreg12_15() {
    let mut cpu = wired_cpu_with_clock(ClockSource::Fixed(0));
    cpu.write_byte(SMPC_BASE + reg::IREG0 as u32, 0xDE);
    cpu.write_byte(SMPC_BASE + reg::IREG1 as u32, 0xAD);
    cpu.write_byte(SMPC_BASE + reg::IREG2 as u32, 0xBE);
    cpu.write_byte(SMPC_BASE + reg::IREG3 as u32, 0xEF);
    cpu.write_byte(SMPC_BASE + reg::COMREG as u32, cmd::SETSMEM);
    execute_smpc(&mut cpu);
    assert_eq!(
        cpu.bus.work_ram.smpc_regs[reg::oreg(31)],
        cmd::SETSMEM
    );

    cpu.write_byte(SMPC_BASE + reg::IREG0 as u32, 0x01);
    cpu.write_byte(SMPC_BASE + reg::COMREG as u32, cmd::INTBACK);
    execute_smpc(&mut cpu);
    let ram = &cpu.bus.work_ram.smpc_regs;
    assert_eq!(ram[reg::oreg(12)], 0xDE, "OREG12");
    assert_eq!(ram[reg::oreg(13)], 0xAD, "OREG13");
    assert_eq!(ram[reg::oreg(14)], 0xBE, "OREG14");
    assert_eq!(ram[reg::oreg(15)], 0xEF, "OREG15");
}

#[test]
fn smem_reset_state() {
    let smpc = Smpc::with_language(5); // Japanese
    assert_eq!(smpc.smem, [0x00, 0x00, 0x00, 0x05]);
}

#[test]
fn region_reported_in_oreg9() {
    let regions = [
        region::JAPAN,
        region::ASIA_NTSC,
        region::NORTH_AMERICA,
        region::CENTRAL_SOUTH_AMERICA_NTSC,
        region::KOREA,
        region::ASIA_PAL,
        region::EUROPE,
        region::CENTRAL_SOUTH_AMERICA_PAL,
    ];
    for &r in &regions {
        let mut cpu = wired_cpu_with_clock(ClockSource::Fixed(0));
        cpu.bus.smpc.as_mut().unwrap().set_region(r);
        do_intback_status(&mut cpu);
        assert_eq!(
            cpu.bus.work_ram.smpc_regs[reg::oreg(9)],
            r,
            "region {:#04X}",
            r
        );
    }

    let mut cpu = wired_cpu_with_clock(ClockSource::Fixed(0));
    cpu.bus.smpc.as_mut().unwrap()
        .set_region(region::AUTODETECT);
    do_intback_status(&mut cpu);
    assert_eq!(
        cpu.bus.work_ram.smpc_regs[reg::oreg(9)],
        region::JAPAN,
        "AUTODETECT -> JAPAN fallback"
    );
}

#[test]
fn port1_defaults_to_a_connected_pad_port2_to_disconnected() {
    let smpc = Smpc::new();
    assert_eq!(
        smpc.port1,
        PeripheralState::Pad(PadState::default()),
        "port 1 defaults to a connected, idle pad"
    );
    assert_eq!(
        smpc.port2,
        PeripheralState::Disconnected,
        "port 2 must default to disconnected, not a phantom idle pad"
    );
}

#[test]
fn set_port_peripheral_and_set_peripheral_state_both_reach_ddr_and_intback() {
    let mut smpc = Smpc::new();
    let mut work_ram = WorkRam::new();

    smpc.set_port_peripheral(2, Some(PeripheralKind::Mouse));
    assert_eq!(
        smpc.port2,
        PeripheralState::Mouse(MouseState::default())
    );
    let old = work_ram.smpc_regs[reg::DDR2];
    smpc.on_register_write(reg::DDR2, 0x00, old, &mut work_ram);
    assert_eq!(
        work_ram.smpc_regs[reg::PDR2],
        0x70,
        "mouse's own DDR nibble must show up on port 2 too"
    );

    smpc.set_port_peripheral(2, None);
    let old = work_ram.smpc_regs[reg::DDR2];
    smpc.on_register_write(reg::DDR2, 0x00, old, &mut work_ram);
    assert_eq!(work_ram.smpc_regs[reg::PDR2], 0x7F);
}

#[test]
fn ckchg352_sets_dotsel_and_ckchg320_clears_it() {
    let mut cpu = wired_cpu_with_clock(ClockSource::Fixed(0));
    cpu.write_byte(SMPC_BASE + reg::COMREG as u32, cmd::CKCHG352);
    execute_smpc(&mut cpu);
    do_intback_status(&mut cpu);
    assert_eq!(
        cpu.bus.work_ram.smpc_regs[reg::oreg(10)] & 0x40,
        0x40,
        "OREG10 bit 6 (dotsel) must be set after CKCHG352"
    );

    cpu.write_byte(SMPC_BASE + reg::COMREG as u32, cmd::CKCHG320);
    execute_smpc(&mut cpu);
    do_intback_status(&mut cpu);
    assert_eq!(
        cpu.bus.work_ram.smpc_regs[reg::oreg(10)] & 0x40,
        0,
        "OREG10 bit 6 must clear after CKCHG320"
    );
}

#[test]
fn pdr1_four_phase_idle_pad() {
    let mut smpc = Smpc::new();
    let mut work_ram = WorkRam::new();
    work_ram.smpc_regs[reg::DDR1] = 0x60;

    let cases: &[(u8, u8)] = &[
        (0x60, 0x1C), // 1st Data: 0x14 | (0xFF & 0x08)
        (0x20, 0x1F), // 2nd Data: 0x10 | ((0xFF >> 4) & 0xF)
        (0x40, 0x1F), // 3rd Data: 0x10 | (0xFF & 0xF)
        (0x00, 0x1F), // 4th Data: 0x10 | ((0xFF >> 4) & 0xF)
    ];
    for &(val, expected) in cases {
        let old = work_ram.smpc_regs[reg::PDR1];
        smpc.on_register_write(reg::PDR1, val, old, &mut work_ram);
        assert_eq!(
            work_ram.smpc_regs[reg::PDR1],
            expected,
            "phase select {val:#04x}"
        );
    }
}

#[test]
fn pdr1_four_phase_a_and_right() {
    let mut smpc = Smpc::new();
    let mut work_ram = WorkRam::new();
    let mut pad = PadState::default();
    pad.a = true;
    pad.right = true;
    smpc.set_pad_state(1, pad);
    work_ram.smpc_regs[reg::DDR1] = 0x60;

    let cases: &[(u8, u8)] = &[
        (0x60, 0x1C), // 0x14 | (0xFF & 0x08)
        (0x20, 0x17), // 0x10 | ((0x7B >> 4) & 0xF) = 0x10 | 0x07
        (0x40, 0x1B), // 0x10 | (0x7B & 0xF) = 0x10 | 0x0B
        (0x00, 0x1F), // 0x10 | ((0xFF >> 4) & 0xF)
    ];
    for &(val, expected) in cases {
        let old = work_ram.smpc_regs[reg::PDR1];
        smpc.on_register_write(reg::PDR1, val, old, &mut work_ram);
        assert_eq!(
            work_ram.smpc_regs[reg::PDR1],
            expected,
            "phase select {val:#04x}"
        );
    }
}

#[test]
fn pdr1_preserves_written_bit7() {
    let mut smpc = Smpc::new();
    let mut work_ram = WorkRam::new();
    work_ram.smpc_regs[reg::DDR1] = 0x60;
    let old = work_ram.smpc_regs[reg::PDR1];
    smpc.on_register_write(reg::PDR1, 0x80 | 0x60, old, &mut work_ram); // bit7 set + phase 1
    assert_eq!(
        work_ram.smpc_regs[reg::PDR1],
        0x80 | 0x1C,
        "the written bit 7 must survive into the result"
    );
}

#[test]
fn pdr1_gun_button_read_at_mode_0x00() {
    let mut smpc = Smpc::new();
    let mut work_ram = WorkRam::new();
    let mut gun = GunState::default();
    gun.trigger = true;
    smpc.set_peripheral_state(1, PeripheralState::Gun(gun));
    work_ram.smpc_regs[reg::DDR1] = 0x00;

    let old = work_ram.smpc_regs[reg::PDR1];
    smpc.on_register_write(reg::PDR1, 0x7F, old, &mut work_ram);
    assert_eq!(
        work_ram.smpc_regs[reg::PDR1],
        0xFF & !(1 << 4),
        "trigger pressed must clear bit 4"
    );
}

#[test]
fn unknown_control_method_leaves_pdr_untouched() {
    let mut smpc = Smpc::new();
    let mut work_ram = WorkRam::new();
    work_ram.smpc_regs[reg::DDR1] = 0x20; // not 0x00/0x40/0x60
    work_ram.smpc_regs[reg::PDR1] = 0xAA;

    let old = work_ram.smpc_regs[reg::PDR1];
    smpc.on_register_write(reg::PDR1, 0x55, old, &mut work_ram);
    assert_eq!(
        work_ram.smpc_regs[reg::PDR1],
        0xAA,
        "an unrecognised control method must leave PDR1 exactly as it was"
    );
}

#[test]
fn intback_peripheral_one_pad_port1_matches_the_worked_example() {
    let mut cpu = wired_cpu_with_clock(ClockSource::Fixed(0));
    cpu.write_byte(SMPC_BASE + reg::IREG1 as u32, 0x08); // peripheral data wanted
    cpu.write_byte(SMPC_BASE + reg::IREG0 as u32, 0x00); // peripheral-only path
    cpu.write_byte(SMPC_BASE + reg::COMREG as u32, cmd::INTBACK);
    execute_smpc(&mut cpu);

    let ram = &cpu.bus.work_ram.smpc_regs;
    assert_eq!(ram[reg::oreg(0)], 0xF1);
    assert_eq!(ram[reg::oreg(1)], 0x02);
    assert_eq!(ram[reg::oreg(2)], 0xFF);
    assert_eq!(ram[reg::oreg(3)], 0xFF);
    assert_eq!(ram[reg::oreg(4)], 0xF0);
}

#[test]
fn intback_peripheral_both_ports_empty_matches_the_worked_example() {
    let mut cpu = wired_cpu_with_clock(ClockSource::Fixed(0));
    cpu.bus.smpc.as_mut().unwrap()
        .set_port_peripheral(1, None);
    cpu.write_byte(SMPC_BASE + reg::IREG1 as u32, 0x08);
    cpu.write_byte(SMPC_BASE + reg::IREG0 as u32, 0x00);
    cpu.write_byte(SMPC_BASE + reg::COMREG as u32, cmd::INTBACK);
    execute_smpc(&mut cpu);

    let ram = &cpu.bus.work_ram.smpc_regs;
    assert_eq!(ram[reg::oreg(0)], 0xF0);
    assert_eq!(ram[reg::oreg(1)], 0xF0);
}

#[test]
fn intback_peripheral_sr_first_vs_subsequent() {
    let mut cpu = wired_cpu_with_clock(ClockSource::Fixed(0));
    cpu.write_byte(SMPC_BASE + reg::IREG1 as u32, 0x08);
    cpu.write_byte(SMPC_BASE + reg::IREG0 as u32, 0x00);
    cpu.write_byte(SMPC_BASE + reg::COMREG as u32, cmd::INTBACK);
    execute_smpc(&mut cpu);
    assert_eq!(
        cpu.bus.work_ram.smpc_regs[reg::SR] & 0xC0,
        0xC0,
        "first chunk: bit7|bit6 set"
    );

    cpu.write_byte(SMPC_BASE + reg::IREG0 as u32, 0x80);
    execute_smpc(&mut cpu);
    assert_eq!(
        cpu.bus.work_ram.smpc_regs[reg::SR] & 0xC0,
        0x80,
        "subsequent chunk: only bit7 set"
    );
}

#[test]
fn intback_break_clears_sr_high_nibble_and_drops_the_snapshot() {
    let mut cpu = wired_cpu_with_clock(ClockSource::Fixed(0));
    cpu.write_byte(SMPC_BASE + reg::IREG1 as u32, 0x08);
    cpu.write_byte(SMPC_BASE + reg::IREG0 as u32, 0x00);
    cpu.write_byte(SMPC_BASE + reg::COMREG as u32, cmd::INTBACK);
    execute_smpc(&mut cpu);

    cpu.write_byte(SMPC_BASE + reg::IREG0 as u32, 0x40);
    assert_eq!(
        cpu.bus.work_ram.smpc_regs[reg::SR] & 0xF0,
        0,
        "break must clear SR's high nibble immediately (synchronous, no dispatch needed)"
    );
    assert!(
        cpu.bus.smpc.as_mut().unwrap().snap1.is_none(),
        "the in-progress snapshot must be dropped, not resumed by a later INTBACK"
    );
}

#[test]
fn drive_intback_from_real_sh2_and_read_oreg2() {
    let mut cpu = wired_cpu();
    {
        let smpc = cpu.bus.smpc.as_mut().unwrap();
        let mut pad = PadState::default();
        pad.a = true;
        pad.start = true;
        smpc.set_pad_state(1, pad);
    }
    cpu.write_byte(SMPC_BASE + reg::IREG2 as u32, 0xF0);
    cpu.write_byte(SMPC_BASE + reg::IREG1 as u32, 0x08); // peripheral data
    cpu.write_byte(SMPC_BASE + reg::IREG0 as u32, 0x00); // and no status
    cpu.write_byte(SMPC_BASE + reg::SF as u32, 0x01);
    cpu.write_byte(SMPC_BASE + reg::COMREG as u32, cmd::INTBACK);
    let _effects = cpu
        .bus
        .smpc
        .as_mut()
        .unwrap()
        .execute_expired_command(&mut cpu.bus.work_ram);

    assert_eq!(cpu.read_byte(SMPC_BASE + reg::oreg(0) as u32), 0xF1);
    assert_eq!(cpu.read_byte(SMPC_BASE + reg::oreg(1) as u32), 0x02);
    assert_eq!(cpu.read_byte(SMPC_BASE + reg::oreg(2) as u32), 0xF3);
    assert_eq!(cpu.read_byte(SMPC_BASE + reg::oreg(3) as u32), 0xFF);
}

/// The reset button: a non-maskable interrupt, unless it is disabled.
fn press_reset_button(cpu: &mut Sh2) {
    if !cpu.bus.smpc.as_ref().unwrap().is_resd() {
        cpu.nmi();
    }
}

fn nmi_is_pending(cpu: &Sh2) -> bool {
    cpu.bus
        .irq
        .local_irq_in
        .pending
        .iter()
        .any(|int| int.vector == 0x0B && int.level == 16)
}

#[test]
fn reset_button_is_inert_until_resenab() {
    let mut cpu = wired_cpu();
    press_reset_button(&mut cpu);
    assert!(
        !nmi_is_pending(&cpu),
        "Reset button must not fire NMI while resd is true"
    );

    cpu.bus
        .smpc
        .as_mut()
        .unwrap()
        .execute_command(cmd::RESENAB, &mut cpu.bus.work_ram);

    press_reset_button(&mut cpu);
    assert!(
        nmi_is_pending(&cpu),
        "Reset button must fire NMI (vector 0x0B, level 16) after RESENAB"
    );
}

#[test]
fn ckchg_stops_the_slave() {
    let mut smpc = Smpc::new();
    let mut work_ram = WorkRam::new();
    smpc.execute_command(cmd::SSHON, &mut work_ram);
    let effects = smpc.execute_command(cmd::CKCHG352, &mut work_ram);
    assert!(effects.stop_slave, "CKCHG352 must stop the slave");
}

#[test]
fn breaking_off_clears_the_busy_flag() {
    let mut smpc = Smpc::new();
    let mut ram = WorkRam::new();
    smpc.intback = true;
    ram.smpc_regs[reg::IREG0] = 0x40;
    ram.smpc_regs[reg::IREG1] = 0x08;
    ram.smpc_regs[reg::SR] = 0xCF;
    ram.smpc_regs[reg::SF] = 1;
    let effects = smpc.execute_command(cmd::INTBACK, &mut ram);
    assert!(effects.system_manager_irq);
    assert!(!smpc.intback);
    assert_eq!((ram.smpc_regs[reg::SF], ram.smpc_regs[reg::SR]), (0, 0x0F));
}

#[test]
fn every_code_clears_the_busy_flag() {
    for command in 0..=255u8 {
        let mut smpc = Smpc::new();
        let mut ram = WorkRam::new();
        ram.smpc_regs[reg::SF] = 1;
        smpc.execute_command(command, &mut ram);
        assert_eq!(ram.smpc_regs[reg::SF], 0, "command {command:#04X}");
    }
}
