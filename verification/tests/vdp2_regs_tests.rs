//! The registers of VDP2.

use saturn_core::sh2::Sh2;
use saturn_core::shared_buffers::WorkRam;
use saturn_core::vdp2_regs::{cram_lookup, Vdp2Registers};

#[test]
fn vdp2_regs_mirror_write() {
    let mut sh2 = Sh2::new(false, WorkRam::new());

    sh2.write_word(0x05F80200, 0x1214);

    let val = sh2.read_word(0x05F80000);
    assert_eq!(val, 0x1214);
}

#[test]
fn vdp2_cram_mirroring() {
    let mut sh2 = Sh2::new(false, WorkRam::new());

    sh2.write_word(0x05F00000, 0xABCD);

    assert_eq!(sh2.read_word(0x05F00800), 0xABCD);

    sh2.write_word(0x05F8000E, 0x1000);

    sh2.write_word(0x05F00002, 0x9876);

    assert_ne!(sh2.read_word(0x05F00802), 0x9876);
    assert_eq!(sh2.read_word(0x05F00802), 0x0000); // Because it was originally 0
}

#[test]
fn cram_mode0_and_mode1_decode_identically() {
    let mut cram = vec![0u8; 0x1000];
    cram[0] = 0x7C;
    cram[1] = 0x00;

    let color0 = cram_lookup(0, 0, &cram);
    let color1 = cram_lookup(0, 1, &cram);

    assert_eq!(color0, color1);
    assert_eq!(color0, 0x000000FF);
}

#[test]
fn cram_mode2_returns_the_long_verbatim() {
    let mut cram = vec![0u8; 0x1000];
    cram[0] = 0x12;
    cram[1] = 0x34;
    cram[2] = 0x56;
    cram[3] = 0x78;

    let color = cram_lookup(0, 2, &cram);
    assert_eq!(color, 0x12345678);
}

#[test]
fn cram_bit15_lands_at_bit31() {
    let mut cram = vec![0u8; 0x1000];
    cram[0] = 0x80;
    cram[1] = 0x00;

    let color = cram_lookup(0, 0, &cram);
    assert_eq!(color & 0x80000000, 0x80000000);
}

#[test]
fn force_vdp2_regs_coverage() {
    let _ram = WorkRam::new();
    for _addr in (0..0x200).step_by(2) {
        let regs = Vdp2Registers::new();
        let _ = regs.tvmd();
    }
}
