//! Memory, interrupts, instructions and transfers that follow each other.

use saturn_core::arith::divide;
use saturn_core::bytes::{from_be16, from_be32};
use saturn_core::interrupts::InterruptQueue;
use saturn_core::sh2::region::{
    check_bus_miss, mem_cycles_r, mem_cycles_w, translate, BusMiss, MemRegion,
};
use saturn_core::sh2::trace::MissLog;
use saturn_core::sh2::Sh2;
use saturn_core::shared_buffers::{Vram, WorkRam};
use saturn_core::smpc::clock::{bcd, civil_from_days, ClockSource};
use saturn_core::smpc::{cmd, reg, Smpc};

fn make_cpu() -> Sh2 {
    Sh2::new(false, WorkRam::new())
}

#[test]
fn bytes_and_numbers() {
    assert_eq!(from_be16(0x12, 0x34), 0x1234);
    assert_eq!(from_be32(0x12, 0x34, 0x56, 0x78), 0x1234_5678);
    assert_eq!(divide(-7, 2), (-3, -1));
    assert_eq!(divide(7, -2), (-3, 1));
}

#[test]
fn queue_orders_by_level_and_keeps_vectors_apart() {
    let mut q = InterruptQueue::new();
    q.send(0x40, 15);
    q.send(0x47, 8);
    q.send(0x46, 9);
    q.send(0x47, 12); // already pending
    let levels: Vec<u8> = q.pending.iter().map(|p| p.level).collect();
    assert_eq!(levels, vec![8, 9, 15]);
    assert_eq!(q.peek().map(|p| p.vector), Some(0x40));
    q.remove(0x40);
    assert_eq!(q.peek().map(|p| p.vector), Some(0x46));
    q.remove(0x40);
    assert_eq!(q.pending.len(), 2);
    assert_eq!(InterruptQueue::new().peek(), None);
}

#[test]
fn queue_drops_what_it_has_no_room_for() {
    let mut q = InterruptQueue::new();
    for v in 0..60u8 {
        q.send(v, 1);
    }
    assert_eq!(q.pending.len(), 50);
}

#[test]
fn vram_refuses_an_address_behind_its_end() {
    let mut v = Vram::new();
    assert_eq!(v.write_byte(0x4_0001, 9), Ok(()));
    assert_eq!(v.vram_b[1], 9);
    assert_eq!(v.write_byte(0x8_0000, 1), Err("VRAM out of bounds".to_string()));
    v.clear_on_command();
    assert_eq!(v.vram_b[1], 0);
}

#[test]
fn high_ram_repeats() {
    let mut ram = WorkRam::new();
    ram.write_high_ram_long(0x10_0004, 0x0102_0304);
    assert_eq!(ram.read_high_ram_long(0x4), 0x0102_0304);
    assert_eq!(ram.read_high_ram_word(0x6), 0x0304);
    ram.write_high_ram_word(0x4, 0xAABB);
    assert_eq!(ram.read_high_ram_byte(0x5), 0xBB);
    ram.write_high_ram_byte(0x5, 0xCC);
    assert_eq!(ram.read_high_ram_long(0x4), 0xAACC_0304);
    ram.low_ram[3] = 7;
    ram.clear_low_ram();
    ram.clear_high_ram();
    assert_eq!((ram.low_ram[3], ram.high_ram[4]), (0, 0));
}

#[test]
fn the_map_and_its_wait_states() {
    assert_eq!(translate(0x0600_0010), MemRegion::HighRam(0x10));
    assert_eq!(translate(0x2600_0010), MemRegion::HighRam(0x10));
    assert_eq!(translate(0x0010_00E3), MemRegion::Smpc(0x63));
    assert_eq!(translate(0x0400_0000), MemRegion::Unmapped);
    assert_eq!(translate(0x4600_0000), MemRegion::PurgeArea);
    assert_eq!(translate(0xFFFF_FE10), MemRegion::OnChip(0x10));
    assert_eq!(mem_cycles_r(0x0000_0000), 16);
    assert_eq!(mem_cycles_r(0x05A0_0000), 50);
    assert_eq!(mem_cycles_r(0x0600_0000), 0);
    assert_eq!(mem_cycles_w(0x0020_0000), 7);
    assert_eq!(mem_cycles_w(0x0600_0000), 2);
}

#[test]
fn misses_are_told_apart() {
    assert_eq!(check_bus_miss(0x0600_0000), None);
    assert_eq!(check_bus_miss(0x4000_0000), Some(BusMiss::CacheArea));
    assert_eq!(check_bus_miss(0xE000_0000), Some(BusMiss::BelowOnChip));
    assert_eq!(check_bus_miss(0x1600_0000), Some(BusMiss::Bit28Alias));
    assert_eq!(check_bus_miss(0x8600_0000), Some(BusMiss::Area4Alias));
    assert_eq!(check_bus_miss(0x0200_0000), Some(BusMiss::UnmappedCs0));
    assert_eq!(check_bus_miss(0x0400_0000), Some(BusMiss::UnmappedCs1));
    assert_eq!(check_bus_miss(0x0100_0000), Some(BusMiss::UnmappedFrtCapture));
    assert_eq!(check_bus_miss(0x0900_0000), Some(BusMiss::UnmappedHole));
    assert_eq!(check_bus_miss(0x0008_0000), Some(BusMiss::BiosMirror));
    assert_eq!(check_bus_miss(0x0019_0000), Some(BusMiss::BackupRamMirror));
    assert_eq!(check_bus_miss(0x05D0_0100), Some(BusMiss::Vdp1RegsMirror));
    assert_eq!(check_bus_miss(0x05F8_0200), Some(BusMiss::Vdp2RegsMirror));
    assert_eq!(check_bus_miss(0x05FE_0100), Some(BusMiss::ScuRegsMirror));
    assert_eq!(check_bus_miss(0x0610_0000), Some(BusMiss::HighRamMirror));
}

#[test]
fn what_is_stored_is_read_back() {
    for &a in &[0x0020_0010u32, 0x0600_0010, 0x05C0_0010, 0x05E0_0010, 0x05F0_0010, 0x05A0_0010] {
        let mut cpu = make_cpu();
        cpu.write_byte(a, 0x5A);
        assert_eq!(cpu.read_byte(a), 0x5A);
        cpu.write_word(a, 0x1357);
        assert_eq!(cpu.read_word(a), 0x1357);
        cpu.write_long(a, 0x89AB_CDEF);
        assert_eq!(cpu.read_long(a), 0x89AB_CDEF);
    }
}

#[test]
fn rom_and_holes_take_nothing() {
    let mut cpu = make_cpu();
    cpu.load_bios(vec![0x11; 8]);
    cpu.write_long(0x0000_0000, 0xFFFF_FFFF);
    assert_eq!(cpu.read_long(0), 0x1111_1111);
    cpu.write_long(0x0400_0000, 1);
    assert_eq!(cpu.read_long(0x0400_0000), 0);
}

#[test]
fn narrow_stores_pass_the_purge_area() {
    let mut cpu = make_cpu();
    cpu.write_byte(0x4600_0020, 0x77);
    assert_eq!(cpu.read_byte(0x0600_0020), 0x77);
    cpu.write_word(0x4600_0022, 0x8899);
    assert_eq!(cpu.read_word(0x0600_0022), 0x8899);
    cpu.write_long(0x4600_0020, 0);
    assert_eq!(cpu.read_long(0x0600_0020), 0x7700_8899);
}

#[test]
fn colour_ram_halves_stay_equal_with_1024_colours() {
    let mut cpu = make_cpu();
    cpu.write_word(0x05F0_0002, 0xABCD);
    assert_eq!(cpu.read_word(0x05F0_0802), 0xABCD);
    cpu.write_word(0x05F0_0810, 0x1234);
    assert_eq!(cpu.read_word(0x05F0_0010), 0x1234);
    // With 2048 colours the halves are apart.
    cpu.write_word(0x05F8_000E, 0x1000);
    cpu.write_word(0x05F0_0002, 0x1111);
    assert_eq!(cpu.read_word(0x05F0_0802), 0xABCD);
}

#[test]
fn return_undoes_an_interrupt() {
    let mut cpu = make_cpu();
    cpu.sr = 0x0000_0001;
    cpu.vbr = 0x0601_0000;
    cpu.registers[15] = 0x0602_0000;
    cpu.registers[3] = 0xCAFE;
    cpu.pc = 0x0600_0100;
    cpu.write_long(0x0601_0000 + 0x50 * 4, 0x0600_4000);
    cpu.write_word(0x0600_4000, 0x002B); // RTE
    cpu.write_word(0x0600_4002, 0x0009); // NOP
    cpu.queue_send(0x50, 5);
    cpu.step();
    assert_eq!(cpu.pc, 0x0600_0100);
    assert_eq!(cpu.sr, 0x0000_0001);
    assert_eq!(cpu.registers[15], 0x0602_0000);
    assert_eq!(cpu.registers[3], 0xCAFE);
}

#[test]
fn a_pushed_register_is_popped() {
    let mut cpu = make_cpu();
    cpu.registers[15] = 0x0602_0000;
    cpu.registers[4] = 0x1234_5678;
    cpu.execute(0x2F46); // MOV.L R4,@-R15
    assert_eq!(cpu.registers[15], 0x0601_FFFC);
    cpu.registers[4] = 0;
    cpu.execute(0x64F6); // MOV.L @R15+,R4
    assert_eq!((cpu.registers[4], cpu.registers[15]), (0x1234_5678, 0x0602_0000));
}

#[test]
fn a_subroutine_returns_behind_its_call() {
    let mut cpu = make_cpu();
    cpu.pc = 0x0600_0000;
    cpu.registers[1] = 0x0600_0100;
    cpu.write_word(0x0600_0000, 0x410B); // JSR @R1
    cpu.write_word(0x0600_0002, 0x0009);
    cpu.write_word(0x0600_0100, 0x000B); // RTS
    cpu.write_word(0x0600_0102, 0x0009);
    cpu.step();
    assert_eq!((cpu.pc, cpu.pr), (0x0600_0100, 0x0600_0004));
    cpu.step();
    assert_eq!(cpu.pc, 0x0600_0004);
}

#[test]
fn a_taken_lock_is_refused() {
    let mut cpu = make_cpu();
    cpu.registers[2] = 0x0600_0800;
    cpu.execute(0x421B); // TAS.B @R2
    assert!(cpu.t());
    assert_eq!(cpu.read_byte(0x0600_0800), 0x80);
    cpu.execute(0x421B);
    assert!(!cpu.t());
}

#[test]
fn after_reset_only_the_non_maskable_interrupt_is_served() {
    let mut cpu = make_cpu();
    cpu.reset();
    assert_eq!(cpu.sr, 0xF0);
    cpu.registers[15] = 0x0602_0000;
    cpu.vbr = 0x0601_0000;
    cpu.pc = 0x0600_0000;
    cpu.write_long(0x0601_0000 + 0x0B * 4, 0x0600_5000);
    cpu.queue_send(0x40, 15);
    cpu.service_pending_interrupt();
    assert_eq!(cpu.pc, 0x0600_0000);
    cpu.nmi();
    cpu.service_pending_interrupt();
    assert_eq!(cpu.pc, 0x0600_5000);
    assert_eq!((cpu.sr >> 4) & 0xF, 15);
}

#[test]
fn division_is_exact() {
    for &(a, b) in &[(100i32, 7i32), (-100, 7), (100, -7), (-100, -7), (i32::MIN, 3)] {
        let mut cpu = make_cpu();
        cpu.write_long(0xFFFF_FF00, b as u32);
        cpu.write_long(0xFFFF_FF04, a as u32);
        let q = cpu.read_long(0xFFFF_FF14) as i32;
        let r = cpu.read_long(0xFFFF_FF10) as i32;
        assert_eq!((q, r), (a / b, a % b));
    }
    let mut cpu = make_cpu();
    cpu.write_long(0xFFFF_FF00, 0);
    cpu.write_long(0xFFFF_FF04, 5);
    assert_eq!(cpu.read_long(0xFFFF_FF08) & 1, 1);
}

#[test]
fn the_timer_does_not_mind_pieces() {
    let mut whole = make_cpu();
    let mut pieces = make_cpu();
    whole.bus.frc_shift = 3;
    pieces.bus.frc_shift = 3;
    whole.frt_exec(1003);
    pieces.frt_exec(500);
    pieces.frt_exec(3);
    pieces.frt_exec(500);
    assert_eq!(whole.bus.onchip.frc, 125);
    assert_eq!(whole.bus.frc_leftover, 3);
    assert_eq!(pieces.bus.onchip.frc, whole.bus.onchip.frc);
    assert_eq!(pieces.bus.frc_leftover, whole.bus.frc_leftover);
}

#[test]
fn input_capture_notes_the_count() {
    let mut cpu = make_cpu();
    cpu.bus.onchip.frc = 0x1234;
    cpu.frt_input_capture();
    assert_eq!(cpu.bus.onchip.ficr, 0x1234);
    assert_eq!(cpu.bus.onchip.ftcsr & 0x80, 0x80);
}

#[test]
fn a_direct_transfer_copies() {
    let mut cpu = make_cpu();
    for i in 0..7u32 {
        cpu.write_byte(0x0020_0000 + i, 0x10 + i as u8);
    }
    cpu.write_long(0x05FE_0000, 0x0020_0000);
    cpu.write_long(0x05FE_0004, 0x0600_2000);
    cpu.write_long(0x05FE_0008, 7);
    cpu.write_long(0x05FE_000C, 1);
    cpu.write_long(0x05FE_0014, 0);
    cpu.write_long(0x05FE_0010, 0x101);
    for i in 0..7u32 {
        assert_eq!(cpu.read_byte(0x0600_2000 + i), 0x10 + i as u8);
    }
    assert_eq!(cpu.read_byte(0x0600_2007), 0);
    assert_eq!(cpu.read_long(0x05FE_0010), 0);
}

#[test]
fn an_indirect_transfer_copies_every_entry() {
    let mut cpu = make_cpu();
    cpu.write_long(0x0020_0100, 0xA1A2_A3A4);
    cpu.write_long(0x0020_0200, 0xB1B2_B3B4);
    // Two entries: size, destination, source; the last one is marked.
    cpu.write_long(0x0600_3000, 4);
    cpu.write_long(0x0600_3004, 0x0600_4000);
    cpu.write_long(0x0600_3008, 0x0020_0100);
    cpu.write_long(0x0600_300C, 0x8000_0004);
    cpu.write_long(0x0600_3010, 0x0600_5000);
    cpu.write_long(0x0600_3014, 0x0020_0200);
    cpu.write_long(0x05FE_0000, 0x0600_3000);
    cpu.write_long(0x05FE_0014, 0x0001_0000);
    cpu.write_long(0x05FE_0010, 0x101);
    assert_eq!(cpu.read_long(0x0600_4000), 0xA1A2_A3A4);
    assert_eq!(cpu.read_long(0x0600_5000), 0xB1B2_B3B4);
}

#[test]
fn frames_raise_their_interrupts() {
    let mut cpu = make_cpu();
    cpu.start_frames(0);
    cpu.poll_frame(16_665);
    assert!(!cpu.bus.irq.vblank_pending);
    cpu.poll_frame(16_666);
    assert!(cpu.bus.irq.vblank_pending);
    assert!(!cpu.bus.irq.vblank_out_pending);
    cpu.poll_frame(16_666 + 2_417);
    assert!(cpu.bus.irq.vblank_out_pending);
}

#[test]
fn a_core_meets_the_others_once_per_batch() {
    let mut cpu = make_cpu();
    assert!(!cpu.sync_due(31, 1000));
    assert!(cpu.sync_due(1, 1000));
    assert!(cpu.sync_due(4, 50));
    assert!(cpu.sync_due(1, 5));
}

#[test]
fn the_calendar() {
    assert_eq!(civil_from_days(0), (1970, 1, 1));
    assert_eq!(civil_from_days(11_016), (2000, 2, 29));
    assert_eq!(civil_from_days(-1), (1969, 12, 31));
    assert_eq!(bcd(59), 0x59);
    assert_eq!(
        ClockSource::Fixed(1_009_287_959).now_utc(0),
        (2001, 12, 25, 13, 45, 59, 2)
    );
    assert_eq!(ClockSource::HostWallClock.now_utc(86_400).2, 2);
}

#[test]
fn the_host_clock_is_reported() {
    let mut smpc = Smpc::new();
    let mut ram = WorkRam::new();
    smpc.set_host_seconds(946_684_800);
    ram.smpc_regs[reg::IREG0] = 1;
    smpc.execute_command(cmd::INTBACK, &mut ram);
    assert_eq!(ram.smpc_regs[reg::oreg(1)], 0x20);
    assert_eq!(ram.smpc_regs[reg::oreg(4)], 0x01);
    // Asking again gives the same answer.
    let first = ram.smpc_regs.clone();
    smpc.execute_command(cmd::INTBACK, &mut ram);
    assert_eq!(ram.smpc_regs, first);
}

#[test]
fn commands_wait_until_they_are_due() {
    let mut smpc = Smpc::new();
    let mut ram = WorkRam::new();
    ram.smpc_regs[reg::IREG0] = 1;
    assert_eq!(smpc.arm_command(cmd::INTBACK, &mut ram), (250, false));
    assert_eq!(ram.smpc_regs[reg::SF], 1);
    assert!(!smpc.is_dispatch_ready());
    smpc.mark_dispatch_ready();
    assert!(smpc.is_dispatch_ready());
    let effects = smpc.execute_expired_command(&mut ram);
    assert!(effects.system_manager_irq);
    assert_eq!(ram.smpc_regs[reg::SF], 0);
    assert_eq!(smpc.arm_command(cmd::SNDON, &mut ram), (1, false));
}

#[test]
fn requests_are_taken_from_the_queue() {
    let mut cpu = make_cpu();
    cpu.queue_send(0x41, 3);
    cpu.queue_send(0x42, 7);
    assert_eq!(cpu.queue_peek().map(|p| (p.vector, p.level)), Some((0x42, 7)));
    cpu.queue_remove(0x42);
    assert_eq!(cpu.queue_peek().map(|p| p.vector), Some(0x41));
}

/// A core in front of a run of branches, each in the delay slot of the one before.
fn branches(n: u32) -> Sh2 {
    let mut cpu = make_cpu();
    for i in 0..n {
        cpu.write_word(0x0600_1000 + 2 * i, 0xA001); // BRA
    }
    cpu.write_word(0x0600_1000 + 2 * n, 0x7101); // ADD #1,R1
    cpu.pc = 0x0600_1000;
    cpu
}

#[test]
fn branches_nest_in_delay_slots() {
    let mut cpu = branches(500);
    cpu.step();
    assert_eq!(cpu.registers[1], 1);
    assert!(!cpu.bus.nesting_overrun);
}

#[test]
fn nesting_is_cut_off_at_the_limit() {
    let mut cpu = branches(2000);
    cpu.step();
    assert_eq!(cpu.registers[1], 0);
    assert!(cpu.bus.nesting_overrun);
}

#[test]
fn accesses_to_high_ram_are_counted() {
    let mut cpu = make_cpu();
    cpu.write_byte(0x0600_0000, 1);
    cpu.write_word(0x0600_0002, 2);
    cpu.write_long(0x0600_0004, 3);
    cpu.read_byte(0x2600_0000);
    cpu.read_word(0x0600_0002);
    cpu.read_long(0x0600_0004);
    cpu.write_long(0x0020_0000, 4);
    cpu.read_long(0x0020_0000);
    let counted = cpu.bus.telemetry;
    assert_eq!((counted.wram_reads, counted.wram_writes), (7, 7));
    cpu.bus.telemetry.enabled = false;
    cpu.read_long(0x0600_0004);
    assert_eq!(cpu.bus.telemetry.wram_reads, 7);
}

#[test]
fn a_channel_copies_what_its_counter_says() {
    for (size, unit) in [(0u32, 1u32), (1, 2), (2, 4)] {
        let mut cpu = make_cpu();
        for i in 0..16u32 {
            cpu.write_byte(0x0020_0000 + i, 0x40 + i as u8);
        }
        cpu.write_long(0xFFFF_FF80, 0x0020_0000);
        cpu.write_long(0xFFFF_FF84, 0x0600_1000);
        cpu.write_long(0xFFFF_FF88, 4);
        cpu.write_long(0xFFFF_FFB0, 1);
        cpu.write_long(0xFFFF_FF8C, 0x5001 | (size << 10));
        for _ in 0..50 {
            cpu.dma_exec();
        }
        for i in 0..16u32 {
            let expected = if i < 4 * unit { 0x40 + i as u8 } else { 0 };
            assert_eq!(cpu.read_byte(0x0600_1000 + i), expected, "size {size}, byte {i}");
        }
    }
}

/// The keys of the misses so far.
fn miss_keys(cpu: &Sh2) -> Vec<String> {
    let log = cpu.bus.trace.as_ref().unwrap();
    log.entries
        .iter()
        .map(|e| {
            format!(
                "area={} block={:#010X} is_write={} width={}",
                e.area, e.block, e.is_write, e.width
            )
        })
        .collect()
}

#[test]
fn test_bus_miss_logging() {
    let mut cpu = make_cpu();
    cpu.bus.trace = Some(MissLog::new());

    let key1 = "area=6 block=0x00000000 is_write=false width=1".to_string();
    cpu.read_byte(0xC000_0000);
    assert!(miss_keys(&cpu).contains(&key1));
    assert_eq!(miss_keys(&cpu).iter().filter(|k| **k == key1).count(), 1);

    cpu.read_byte(0xC000_0000);
    assert_eq!(miss_keys(&cpu).iter().filter(|k| **k == key1).count(), 1);

    let key2 = "area=0 block=0x04000000 is_write=false width=4".to_string();
    cpu.read_long(0x0400_0000);
    assert!(miss_keys(&cpu).contains(&key2));
    assert_eq!(miss_keys(&cpu).iter().filter(|k| **k == key2).count(), 1);

    let key3 = "area=0 block=0x06100000 is_write=true width=2".to_string();
    cpu.write_word(0x0610_0000, 0x1234);
    assert!(miss_keys(&cpu).contains(&key3));
    assert_eq!(miss_keys(&cpu).iter().filter(|k| **k == key3).count(), 1);

    let key4 = "area=2 block=0x00000000 is_write=false width=1".to_string();
    cpu.read_byte(0x4000_0000);
    assert!(miss_keys(&cpu).contains(&key4));
    assert_eq!(miss_keys(&cpu).iter().filter(|k| **k == key4).count(), 1);
}

#[test]
fn without_a_trace_nothing_is_noted() {
    let mut cpu = make_cpu();
    cpu.read_byte(0xC000_0000);
    assert!(cpu.bus.trace.is_none());
}

#[test]
fn default_memory_is_cleared() {
    let ram = WorkRam::default();
    assert!(!ram.mem4b);
    assert_eq!(ram.vdp1_framebuffers.back, 0);
    for memory in [
        &ram.low_ram,
        &ram.high_ram,
        &ram.sound_ram,
        &ram.vdp1_vram,
        &ram.vdp2_vram,
        &ram.vdp2_cram,
        &ram.smpc_regs,
        &ram.backup_ram,
        &ram.vdp1_framebuffers.banks[0],
        &ram.vdp1_framebuffers.banks[1],
    ] {
        assert!(memory.iter().all(|b| *b == 0));
    }
    assert!(ram.vdp2_lines.iter().all(|line| line.iter().all(|b| *b == 0)));
}

#[test]
fn only_bits_that_exist_are_set_in_the_status_register() {
    let mut cpu = make_cpu();
    cpu.registers[1] = 0xFFFF_FFFF;
    cpu.execute(0x410E); // LDC R1,SR
    assert_eq!(cpu.sr, 0x3F3);

    let mut cpu = make_cpu();
    cpu.registers[1] = 0x0600_9000;
    cpu.write_long(0x0600_9000, 0xFFFF_FC0C);
    cpu.sr = 0x3F3;
    cpu.execute(0x4107); // LDC.L @R1+,SR
    assert_eq!(cpu.sr, 0);

    let mut cpu = make_cpu();
    cpu.registers[15] = 0x0602_0000;
    cpu.write_long(0x0602_0004, 0xFFFF_FFFF);
    cpu.execute(0x002B); // RTE
    assert_eq!(cpu.sr, 0x3F3);

    // An interrupt of the highest level.
    let mut cpu = make_cpu();
    cpu.registers[15] = 0x0602_0000;
    cpu.sr = 0x303;
    cpu.nmi();
    cpu.service_pending_interrupt();
    assert_eq!(cpu.sr, 0x3F3);
}
