//! The command list and the rasteriser of VDP1, and the back screen.

use saturn_core::sh2::Sh2;
use saturn_core::shared_buffers::WorkRam;
use saturn_core::vdp::{
    execute_vdp1, render_back_screen, resolution_from_tvmd, rgb555_to_xrgb8888,
    vdp1_swap_frame_buffers, CmdTable, Vdp1State, Vdp1Status,
};

const REG_TVMD: usize = 0x000;
const REG_VRSIZE: usize = 0x006;
const REG_BKTAU: usize = 0x0AC;
const REG_BKTAL: usize = 0x0AE;

#[test]
fn resolution_decodes_common_ntsc_modes() {
    assert_eq!(resolution_from_tvmd(0x0000), (320, 224));
    assert_eq!(resolution_from_tvmd(0x0001), (352, 224));
    assert_eq!(resolution_from_tvmd(0x0010), (320, 240));
}

#[test]
fn rgb555_conversion_hits_full_white_and_pure_channels() {
    assert_eq!(
        rgb555_to_xrgb8888(0x7FFF),
        0x00FFFFFF,
        "all channels at max must be white"
    );
    assert_eq!(
        rgb555_to_xrgb8888(0x001F),
        0x00FF0000,
        "R is the low 5 bits, must land in the R byte"
    );
    assert_eq!(
        rgb555_to_xrgb8888(0x03E0),
        0x0000FF00,
        "G is bits 5-9, must land in the G byte"
    );
    assert_eq!(
        rgb555_to_xrgb8888(0x7C00),
        0x000000FF,
        "B is bits 10-14, must land in the B byte"
    );
    assert_eq!(rgb555_to_xrgb8888(0), 0);
}

#[test]
fn render_backdrop_reads_real_registers() {
    let mut ram = WorkRam::new();
    {
        let lines = &mut ram.vdp2_lines;
        let regs = &mut lines[0];
        regs[REG_TVMD] = 0x80;
        regs[REG_TVMD + 1] = 0x00;
        let blue = 0x1F << 10;
        regs[REG_BKTAL] = 0;
        regs[REG_BKTAL + 1] = 0;
        let vram = &mut ram.vdp2_vram;
        vram[0] = (blue >> 8) as u8;
        vram[1] = (blue & 0xFF) as u8;
    }

    let frame = render_back_screen(&ram);
    assert_eq!((frame.width, frame.height), (320, 224));
    assert_eq!(frame.pixels[0], 0x0000FF);
    assert!(frame.pixels.iter().all(|&p| p == 0x0000FF));
}

#[test]
fn render_backdrop_is_black_when_display_disabled() {
    let mut ram = WorkRam::new();
    let frame = render_back_screen(&ram);
    assert!(frame.pixels.iter().all(|&p| p == 0));
}

#[test]
fn vdp1_cmdtable_field_offsets() {
    let mut vram = [0u8; 32];
    let values: [u16; 15] = [
        0x1000, 0x1002, 0x1004, 0x1006, 0x1008, 0x100A, 0x100C, 0x100E, 0x1010, 0x1012, 0x1014,
        0x1016, 0x1018, 0x101A, 0x101C,
    ];

    for (i, &val) in values.iter().enumerate() {
        let bytes = val.to_be_bytes();
        vram[i * 2] = bytes[0];
        vram[i * 2 + 1] = bytes[1];
    }

    let cmd = CmdTable::read(&vram.to_vec(), 0);
    assert_eq!(cmd.cmdctrl, 0x1000);
    assert_eq!(cmd.cmdlink, 0x1002);
    assert_eq!(cmd.cmdpmod, 0x1004);
    assert_eq!(cmd.cmdcolr, 0x1006);
    assert_eq!(cmd.cmdsrca, 0x1008);
    assert_eq!(cmd.cmdsize, 0x100A);
    assert_eq!(cmd.cmdxa, 0x100C);
    assert_eq!(cmd.cmdya, 0x100E);
    assert_eq!(cmd.cmdxb, 0x1010);
    assert_eq!(cmd.cmdyb, 0x1012);
    assert_eq!(cmd.cmdxc, 0x1014);
    assert_eq!(cmd.cmdyc, 0x1016);
    assert_eq!(cmd.cmdxd, 0x1018);
    assert_eq!(cmd.cmdyd, 0x101A);
    assert_eq!(cmd.cmdgrda, 0x101C);
}

#[test]
fn vdp1_polygon_draws_at_correct_offsets() {
    let mut ram = WorkRam::new();
    {
        let lines = &mut ram.vdp2_lines;
        let regs = &mut lines[0];
        regs[REG_TVMD] = 0x80;
        let blue = 0x1F << 10;
        regs[REG_BKTAL] = 0;
        regs[REG_BKTAL + 1] = 0;
        let vram = &mut ram.vdp2_vram;
        vram[0] = (blue >> 8) as u8;
        vram[1] = (blue & 0xFF) as u8;
    }

    let mut vdp1_state = Vdp1State::new();
    vdp1_state.ptmr = 1;

    {
        let vram = &mut ram.vdp1_vram;
        let bytes = 0x0004u16.to_be_bytes();
        vram[0] = bytes[0];
        vram[1] = bytes[1]; // CMDCTRL
        let bytes = 0x801Fu16.to_be_bytes();
        vram[6] = bytes[0];
        vram[7] = bytes[1]; // CMDCOLR

        let mut write_coord = |offset: usize, x: i16, y: i16| {
            let xb = x.to_be_bytes();
            let yb = y.to_be_bytes();
            vram[offset] = xb[0];
            vram[offset + 1] = xb[1];
            vram[offset + 2] = yb[0];
            vram[offset + 3] = yb[1];
        };
        write_coord(0x0C, 10, 10); // A
        write_coord(0x10, 20, 10); // B
        write_coord(0x14, 20, 20); // C
        write_coord(0x18, 10, 20); // D

        vram[0x20] = 0x80;
        vram[0x21] = 0x00;
    }

    execute_vdp1(&mut vdp1_state, &mut ram);
    vdp1_swap_frame_buffers(&mut vdp1_state, &mut ram);
    let frame = render_back_screen(&ram);

    assert_eq!(frame.pixels[0], 0x0000FF);

    let center_idx = 15 * 320 + 15;
    assert_eq!(frame.pixels[center_idx], 0xFF0000);

    let out_idx = 5 * 320 + 5;
    assert_eq!(frame.pixels[out_idx], 0x0000FF);
}

#[test]
fn vdp1_end_bit_on_first_command_draws_nothing() {
    let mut ram = WorkRam::new();
    {
        let lines = &mut ram.vdp2_lines;
        let regs = &mut lines[0];
        regs[REG_TVMD] = 0x80;
        let blue = 0x1F << 10;
        regs[REG_BKTAL] = 0;
        regs[REG_BKTAL + 1] = 0;
        let vram = &mut ram.vdp2_vram;
        vram[0] = (blue >> 8) as u8;
        vram[1] = (blue & 0xFF) as u8;
    }

    let mut vdp1_state = Vdp1State::new();
    vdp1_state.ptmr = 1;

    {
        let vram = &mut ram.vdp1_vram;
        let bytes = 0x8004u16.to_be_bytes();
        vram[0] = bytes[0];
        vram[1] = bytes[1]; // CMDCTRL
        let bytes = 0x801Fu16.to_be_bytes();
        vram[6] = bytes[0];
        vram[7] = bytes[1]; // CMDCOLR

        let mut write_coord = |offset: usize, x: i16, y: i16| {
            let xb = x.to_be_bytes();
            let yb = y.to_be_bytes();
            vram[offset] = xb[0];
            vram[offset + 1] = xb[1];
            vram[offset + 2] = yb[0];
            vram[offset + 3] = yb[1];
        };
        write_coord(0x0C, 10, 10);
        write_coord(0x10, 20, 10);
        write_coord(0x14, 20, 20);
        write_coord(0x18, 10, 20);
    }

    execute_vdp1(&mut vdp1_state, &mut ram);
    vdp1_swap_frame_buffers(&mut vdp1_state, &mut ram);
    let frame = render_back_screen(&ram);

    let center_idx = 15 * 320 + 15;
    assert_eq!(frame.pixels[center_idx], 0x0000FF);
}

#[test]
fn vdp1_skip_bit_suppresses_draw_not_link() {
    let mut ram = WorkRam::new();
    {
        let lines = &mut ram.vdp2_lines;
        let regs = &mut lines[0];
        regs[REG_TVMD] = 0x80;
        let blue = 0x1F << 10;
        regs[REG_BKTAL] = 0;
        regs[REG_BKTAL + 1] = 0;
        let vram = &mut ram.vdp2_vram;
        vram[0] = (blue >> 8) as u8;
        vram[1] = (blue & 0xFF) as u8;
    }
    let mut vdp1_state = Vdp1State::new();
    vdp1_state.ptmr = 1;

    {
        let vram = &mut ram.vdp1_vram;
        let bytes = 0x4004u16.to_be_bytes();
        vram[0] = bytes[0];
        vram[1] = bytes[1]; // CMDCTRL
        let bytes = 0x801Fu16.to_be_bytes();
        vram[6] = bytes[0];
        vram[7] = bytes[1]; // CMDCOLR
        let mut write_coord = |offset: usize, x: i16, y: i16| {
            let xb = x.to_be_bytes();
            let yb = y.to_be_bytes();
            vram[offset] = xb[0];
            vram[offset + 1] = xb[1];
            vram[offset + 2] = yb[0];
            vram[offset + 3] = yb[1];
        };
        write_coord(0x0C, 10, 10);
        write_coord(0x10, 20, 10);
        write_coord(0x14, 20, 20);
        write_coord(0x18, 10, 20);

        vram[0x20] = 0x80;
        vram[0x21] = 0x00;
    }

    execute_vdp1(&mut vdp1_state, &mut ram);
    vdp1_swap_frame_buffers(&mut vdp1_state, &mut ram);
    let frame = render_back_screen(&ram);

    let center_idx = 15 * 320 + 15;
    assert_eq!(frame.pixels[center_idx], 0x0000FF);
}

#[test]
fn vdp1_bad_command_aborts() {
    let mut ram = WorkRam::new();
    {
        let lines = &mut ram.vdp2_lines;
        let regs = &mut lines[0];
        regs[REG_TVMD] = 0x80;
        let blue = 0x1F << 10;
        regs[REG_BKTAL] = 0;
        regs[REG_BKTAL + 1] = 0;
        let vram = &mut ram.vdp2_vram;
        vram[0] = (blue >> 8) as u8;
        vram[1] = (blue & 0xFF) as u8;
    }

    let mut vdp1_state = Vdp1State::new();
    vdp1_state.ptmr = 1;

    {
        let vram = &mut ram.vdp1_vram;
        let bytes = 0x000Cu16.to_be_bytes();
        vram[0] = bytes[0];
        vram[1] = bytes[1]; // CMDCTRL

        let bytes = 0x0004u16.to_be_bytes();
        vram[0x20] = bytes[0];
        vram[0x21] = bytes[1]; // CMDCTRL
        let bytes = 0x801Fu16.to_be_bytes();
        vram[0x26] = bytes[0];
        vram[0x27] = bytes[1]; // CMDCOLR
        let mut write_coord = |offset: usize, x: i16, y: i16| {
            let xb = x.to_be_bytes();
            let yb = y.to_be_bytes();
            vram[offset] = xb[0];
            vram[offset + 1] = xb[1];
            vram[offset + 2] = yb[0];
            vram[offset + 3] = yb[1];
        };
        write_coord(0x2C, 10, 10);
        write_coord(0x30, 20, 10);
        write_coord(0x34, 20, 20);
        write_coord(0x38, 10, 20);

        vram[0x40] = 0x80;
        vram[0x41] = 0x00;
    }

    execute_vdp1(&mut vdp1_state, &mut ram);

    assert_eq!(vdp1_state.edsr & 2, 2);
    assert_eq!(vdp1_state.lopr, 0); // opr is set to addr>>3. Since addr was 0, opr=0.

    vdp1_swap_frame_buffers(&mut vdp1_state, &mut ram);
    let frame = render_back_screen(&ram);

    let center_idx = 15 * 320 + 15;
    assert_eq!(frame.pixels[center_idx], 0x0000FF);
}

#[test]
fn vdp1_normal_sprite_geometry() {
    let mut ram = WorkRam::new();
    let mut vdp1_state = Vdp1State::new();
    vdp1_state.ptmr = 1;
    vdp1_state.tvmr = 0; // 512 width
    {
        let vram = &mut ram.vdp1_vram;
        let bytes = 0x0000u16.to_be_bytes(); // COMM 0
        vram[0] = bytes[0];
        vram[1] = bytes[1]; // CMDCTRL
        let bytes = 0x00C0u16.to_be_bytes(); // SPD=1, ECD=1 so it draws regardless of texture
        vram[4] = bytes[0];
        vram[5] = bytes[1]; // CMDPMOD
        let bytes = 0xFFFFu16.to_be_bytes();
        vram[6] = bytes[0];
        vram[7] = bytes[1]; // CMDCOLR
        let bytes = 0x0010u16.to_be_bytes();
        vram[8] = bytes[0];
        vram[9] = bytes[1]; // CMDSRCA
        let bytes = 0x0204u16.to_be_bytes();
        vram[10] = bytes[0];
        vram[11] = bytes[1]; // CMDSIZE (16x4)
        let bytes = 32i16.to_be_bytes();
        vram[12] = bytes[0];
        vram[13] = bytes[1]; // CMDXA
        let bytes = 8i16.to_be_bytes();
        vram[14] = bytes[0];
        vram[15] = bytes[1]; // CMDYA
        vram[0x20] = 0x80;
        vram[0x21] = 0x00; // END

        for i in 0x80..0xC0 {
            vram[i] = 0xFF;
        }
    }
    execute_vdp1(&mut vdp1_state, &mut ram);
    let fb = &ram.vdp1_framebuffers.banks[0];

    let check = |x: i32, y: i32| {
        let offset = ((y * 512 + x) * 2) as usize;
        let val = u16::from_be_bytes([fb[offset], fb[offset + 1]]);
        val == 0xFFFF
    };

    assert!(check(32, 8));
    assert!(check(47, 8));
    assert!(check(47, 11));
    assert!(check(32, 11));

    assert!(!check(48, 8));
    assert!(!check(32, 12));
}

#[test]
fn vdp1_colour_mode_0_bank() {
    let mut ram = WorkRam::new();
    let mut vdp1_state = Vdp1State::new();
    vdp1_state.ptmr = 1;
    vdp1_state.tvmr = 0; // 512 width
    {
        let vram = &mut ram.vdp1_vram;
        let bytes = 0x0000u16.to_be_bytes(); // COMM 0
        vram[0] = bytes[0];
        vram[1] = bytes[1]; // CMDCTRL
        let bytes = 0x0000u16.to_be_bytes();
        vram[4] = bytes[0];
        vram[5] = bytes[1]; // CMDPMOD
        let bytes = 0x0120u16.to_be_bytes();
        vram[6] = bytes[0];
        vram[7] = bytes[1]; // CMDCOLR
        let bytes = 0x0010u16.to_be_bytes();
        vram[8] = bytes[0];
        vram[9] = bytes[1]; // CMDSRCA
        let bytes = 0x0101u16.to_be_bytes();
        vram[10] = bytes[0];
        vram[11] = bytes[1]; // CMDSIZE (8x1)
        let bytes = 0i16.to_be_bytes();
        vram[12] = bytes[0];
        vram[13] = bytes[1]; // CMDXA
        let bytes = 0i16.to_be_bytes();
        vram[14] = bytes[0];
        vram[15] = bytes[1]; // CMDYA

        vram[0x80] = 0x37;

        vram[0x20] = 0x80;
        vram[0x21] = 0x00; // END
    }
    execute_vdp1(&mut vdp1_state, &mut ram);
    let fb = &ram.vdp1_framebuffers.banks[0];

    let val0 = u16::from_be_bytes([fb[0], fb[1]]);
    let val1 = u16::from_be_bytes([fb[2], fb[3]]);

    assert_eq!(val0, 0x0123);
    assert_eq!(val1, 0x0127);
}

#[test]
fn vdp1_colour_calc_2_half_luminance() {
    let mut ram = WorkRam::new();
    let mut vdp1_state = Vdp1State::new();
    vdp1_state.ptmr = 1;
    vdp1_state.tvmr = 0; // 512 width
    {
        let vram = &mut ram.vdp1_vram;
        let bytes = 0x0004u16.to_be_bytes(); // COMM 4 (polygon)
        vram[0] = bytes[0];
        vram[1] = bytes[1]; // CMDCTRL
        let bytes = 0x0042u16.to_be_bytes(); // SPD=1, Colour calc mode 2
        vram[4] = bytes[0];
        vram[5] = bytes[1]; // CMDPMOD
        let bytes = 0x7FFFu16.to_be_bytes();
        vram[6] = bytes[0];
        vram[7] = bytes[1]; // CMDCOLR

        let bytes = 32i16.to_be_bytes();
        vram[12] = bytes[0];
        vram[13] = bytes[1]; // CMDXA
        let bytes = 8i16.to_be_bytes();
        vram[14] = bytes[0];
        vram[15] = bytes[1]; // CMDYA
        let bytes = 47i16.to_be_bytes();
        vram[16] = bytes[0];
        vram[17] = bytes[1]; // CMDXB
        let bytes = 8i16.to_be_bytes();
        vram[18] = bytes[0];
        vram[19] = bytes[1]; // CMDYB
        let bytes = 47i16.to_be_bytes();
        vram[20] = bytes[0];
        vram[21] = bytes[1]; // CMDXC
        let bytes = 11i16.to_be_bytes();
        vram[22] = bytes[0];
        vram[23] = bytes[1]; // CMDYC
        let bytes = 32i16.to_be_bytes();
        vram[24] = bytes[0];
        vram[25] = bytes[1]; // CMDXD
        let bytes = 11i16.to_be_bytes();
        vram[26] = bytes[0];
        vram[27] = bytes[1]; // CMDYD

        vram[0x20] = 0x80;
        vram[0x21] = 0x00; // END
    }
    execute_vdp1(&mut vdp1_state, &mut ram);
    let fb = &ram.vdp1_framebuffers.banks[0];

    let offset = ((8 * 512 + 32) * 2) as usize;
    let val = u16::from_be_bytes([fb[offset], fb[offset + 1]]);
    assert_eq!(val, 0xBDEF);
}

#[test]
fn vdp1_colour_calc_3_half_transparent() {
    let mut ram = WorkRam::new();
    let mut vdp1_state = Vdp1State::new();
    vdp1_state.ptmr = 1;
    vdp1_state.tvmr = 0; // 512 width

    {
        let fb = &mut ram.vdp1_framebuffers.banks[0];
        let offset = ((8 * 512 + 32) * 2) as usize;
        let bg_bytes = 0x83FFu16.to_be_bytes();
        fb[offset] = bg_bytes[0];
        fb[offset + 1] = bg_bytes[1];
    }

    {
        let vram = &mut ram.vdp1_vram;
        let bytes = 0x0004u16.to_be_bytes(); // COMM 4 (polygon)
        vram[0] = bytes[0];
        vram[1] = bytes[1]; // CMDCTRL
        let bytes = 0x0043u16.to_be_bytes(); // SPD=1, Colour calc mode 3
        vram[4] = bytes[0];
        vram[5] = bytes[1]; // CMDPMOD
        let bytes = 0x7C00u16.to_be_bytes(); // new pixel
        vram[6] = bytes[0];
        vram[7] = bytes[1]; // CMDCOLR

        let bytes = 32i16.to_be_bytes();
        vram[12] = bytes[0];
        vram[13] = bytes[1]; // CMDXA
        let bytes = 8i16.to_be_bytes();
        vram[14] = bytes[0];
        vram[15] = bytes[1]; // CMDYA
        let bytes = 47i16.to_be_bytes();
        vram[16] = bytes[0];
        vram[17] = bytes[1]; // CMDXB
        let bytes = 8i16.to_be_bytes();
        vram[18] = bytes[0];
        vram[19] = bytes[1]; // CMDYB
        let bytes = 47i16.to_be_bytes();
        vram[20] = bytes[0];
        vram[21] = bytes[1]; // CMDXC
        let bytes = 11i16.to_be_bytes();
        vram[22] = bytes[0];
        vram[23] = bytes[1]; // CMDYC
        let bytes = 32i16.to_be_bytes();
        vram[24] = bytes[0];
        vram[25] = bytes[1]; // CMDXD
        let bytes = 11i16.to_be_bytes();
        vram[26] = bytes[0];
        vram[27] = bytes[1]; // CMDYD

        vram[0x20] = 0x80;
        vram[0x21] = 0x00; // END
    }
    execute_vdp1(&mut vdp1_state, &mut ram);
    let fb = &ram.vdp1_framebuffers.banks[0];

    let offset = ((8 * 512 + 32) * 2) as usize;
    let val = u16::from_be_bytes([fb[offset], fb[offset + 1]]);
    assert_eq!(val, 0xBDEF);
}

#[test]
fn vdp1_end_code_mode_0_terminates_span() {
    let mut ram = WorkRam::new();
    let mut vdp1_state = Vdp1State::new();
    vdp1_state.ptmr = 1;
    vdp1_state.tvmr = 0;

    {
        let vram = &mut ram.vdp1_vram;
        let bytes = 0x0000u16.to_be_bytes(); // COMM 0
        vram[0] = bytes[0];
        vram[1] = bytes[1]; // CMDCTRL
        let bytes = 0x0040u16.to_be_bytes(); // SPD=1, Colour calc mode 0, ECD=0 (End code enabled)
        vram[4] = bytes[0];
        vram[5] = bytes[1]; // CMDPMOD
        let bytes = 0x0201u16.to_be_bytes(); // 16x1
        vram[10] = bytes[0];
        vram[11] = bytes[1]; // CMDSIZE
        let bytes = 0x0201u16.to_be_bytes(); // 16x1
        vram[10] = bytes[0];
        vram[11] = bytes[1]; // CMDSIZE
        let bytes = 0x0200u16.to_be_bytes(); // CMDSRCA -> 0x1000
        vram[8] = bytes[0];
        vram[9] = bytes[1];
        let bytes = 0i16.to_be_bytes();
        vram[12] = bytes[0];
        vram[13] = bytes[1]; // CMDXA
        vram[14] = bytes[0];
        vram[15] = bytes[1]; // CMDYA
        vram[0x20] = 0x80;
        vram[0x21] = 0x00; // END

        vram[0x1000] = 0x01;
        vram[0x1001] = 0x2F;
        vram[0x1002] = 0x4F;
        vram[0x1003] = 0x67;
    }
    execute_vdp1(&mut vdp1_state, &mut ram);
    let fb = &ram.vdp1_framebuffers.banks[0];

    assert_eq!(fb[0], 0);
    assert_eq!(fb[1], 0);
    assert_eq!(fb[2], 0);
    assert_eq!(fb[3], 1);
    assert_eq!(fb[4], 0);
    assert_eq!(fb[5], 2);
    assert_eq!(fb[6], 0);
    assert_eq!(fb[7], 0);
    assert_eq!(fb[8], 0);
    assert_eq!(fb[9], 4);
    assert_eq!(fb[10], 0);
    assert_eq!(fb[11], 0);
    assert_eq!(fb[12], 0);
    assert_eq!(fb[13], 0);
}

#[test]
fn vdp1_end_code_disabled_by_ecd() {
    let mut ram = WorkRam::new();
    let mut vdp1_state = Vdp1State::new();
    vdp1_state.ptmr = 1;
    vdp1_state.tvmr = 0;

    {
        let vram = &mut ram.vdp1_vram;
        let bytes = 0x0000u16.to_be_bytes(); // COMM 0
        vram[0] = bytes[0];
        vram[1] = bytes[1]; // CMDCTRL
        let bytes = 0x00C0u16.to_be_bytes(); // SPD=1, ECD=1 (End code disabled)
        vram[4] = bytes[0];
        vram[5] = bytes[1]; // CMDPMOD
        let bytes = 0x0201u16.to_be_bytes(); // 16x1
        vram[10] = bytes[0];
        vram[11] = bytes[1]; // CMDSIZE
        let bytes = 0x0200u16.to_be_bytes(); // CMDSRCA -> 0x1000
        vram[8] = bytes[0];
        vram[9] = bytes[1];
        let bytes = 0i16.to_be_bytes();
        vram[12] = bytes[0];
        vram[13] = bytes[1]; // CMDXA
        vram[14] = bytes[0];
        vram[15] = bytes[1]; // CMDYA
        vram[0x20] = 0x80;
        vram[0x21] = 0x00; // END

        vram[0x1000] = 0x01;
        vram[0x1001] = 0x2F;
        vram[0x1002] = 0x4F;
        vram[0x1003] = 0x67;
    }
    execute_vdp1(&mut vdp1_state, &mut ram);
    let fb = &ram.vdp1_framebuffers.banks[0];

    assert_eq!(fb[6], 0);
    assert_eq!(fb[7], 0xF);
    assert_eq!(fb[12], 0);
    assert_eq!(fb[13], 6);
}

#[test]
fn vdp1_character_flip() {
    let mut ram = WorkRam::new();
    let mut vdp1_state = Vdp1State::new();
    vdp1_state.ptmr = 1;
    vdp1_state.tvmr = 0;

    {
        let vram = &mut ram.vdp1_vram;
        let bytes = 0x0010u16.to_be_bytes(); // COMM 0, Dir = 1 (flip X)
        vram[0] = bytes[0];
        vram[1] = bytes[1]; // CMDCTRL
        let bytes = 0x00C0u16.to_be_bytes(); // SPD=1, ECD=1
        vram[4] = bytes[0];
        vram[5] = bytes[1]; // CMDPMOD
        let bytes = 0x0201u16.to_be_bytes(); // 16x1
        vram[10] = bytes[0];
        vram[11] = bytes[1]; // CMDSIZE
        let bytes = 0x0200u16.to_be_bytes(); // CMDSRCA -> 0x1000
        vram[8] = bytes[0];
        vram[9] = bytes[1];
        let bytes = 0i16.to_be_bytes();
        vram[12] = bytes[0];
        vram[13] = bytes[1]; // CMDXA
        vram[14] = bytes[0];
        vram[15] = bytes[1]; // CMDYA
        vram[0x20] = 0x80;
        vram[0x21] = 0x00; // END

        vram[0x1000] = 0x01;
        vram[0x1001] = 0x23;
        vram[0x1002] = 0x45;
        vram[0x1003] = 0x67;
        vram[0x1004] = 0x89;
        vram[0x1005] = 0xAB;
        vram[0x1006] = 0xCD;
        vram[0x1007] = 0xEF;
    }
    execute_vdp1(&mut vdp1_state, &mut ram);
    let fb = &ram.vdp1_framebuffers.banks[0];

    assert_eq!(fb[0], 0);
    assert_eq!(fb[1], 0xF);
    assert_eq!(fb[2], 0);
    assert_eq!(fb[3], 0xE);
}

#[test]
fn vdp1_line_endpoints() {
    let mut ram = WorkRam::new();
    let mut vdp1_state = Vdp1State::new();
    vdp1_state.ptmr = 1;
    vdp1_state.tvmr = 0;

    {
        let vram = &mut ram.vdp1_vram;
        let bytes = 0x0006u16.to_be_bytes(); // COMM 6 (Line)
        vram[0] = bytes[0];
        vram[1] = bytes[1]; // CMDCTRL
        let bytes = 0x0040u16.to_be_bytes(); // SPD=1
        vram[4] = bytes[0];
        vram[5] = bytes[1]; // CMDPMOD
        let bytes = 0xFFFFu16.to_be_bytes();
        vram[6] = bytes[0];
        vram[7] = bytes[1]; // CMDCOLR

        let mut write_coord = |offset: usize, x: i16, y: i16| {
            let xb = x.to_be_bytes();
            let yb = y.to_be_bytes();
            vram[offset] = xb[0];
            vram[offset + 1] = xb[1];
            vram[offset + 2] = yb[0];
            vram[offset + 3] = yb[1];
        };
        write_coord(0x0C, 10, 20); // A
        write_coord(0x10, 20, 20); // B

        vram[0x20] = 0x80;
        vram[0x21] = 0x00; // END
    }
    execute_vdp1(&mut vdp1_state, &mut ram);
    let fb = &ram.vdp1_framebuffers.banks[0];

    let check = |x: i32, y: i32| -> bool {
        let offset = ((y * 512 + x) * 2) as usize;
        u16::from_be_bytes([fb[offset], fb[offset + 1]]) != 0
    };

    let mut count = 0;
    for i in 10..=20 {
        if check(i, 20) {
            count += 1;
        }
    }
    assert_eq!(count, 11);
    assert!(!check(9, 20));
    assert!(!check(21, 20));
}

#[test]
fn vdp1_line_is_not_greedy() {
    let mut ram = WorkRam::new();
    let mut vdp1_state = Vdp1State::new();
    vdp1_state.ptmr = 1;
    vdp1_state.tvmr = 0;

    {
        let vram = &mut ram.vdp1_vram;
        let bytes = 0x0006u16.to_be_bytes(); // COMM 6 (Line)
        vram[0] = bytes[0];
        vram[1] = bytes[1]; // CMDCTRL
        let bytes = 0x0040u16.to_be_bytes(); // SPD=1
        vram[4] = bytes[0];
        vram[5] = bytes[1]; // CMDPMOD
        let bytes = 0xFFFFu16.to_be_bytes();
        vram[6] = bytes[0];
        vram[7] = bytes[1]; // CMDCOLR

        let mut write_coord = |offset: usize, x: i16, y: i16| {
            let xb = x.to_be_bytes();
            let yb = y.to_be_bytes();
            vram[offset] = xb[0];
            vram[offset + 1] = xb[1];
            vram[offset + 2] = yb[0];
            vram[offset + 3] = yb[1];
        };
        write_coord(0x0C, 0, 0); // A
        write_coord(0x10, 4, 4); // B

        vram[0x20] = 0x80;
        vram[0x21] = 0x00; // END
    }
    execute_vdp1(&mut vdp1_state, &mut ram);
    let fb = &ram.vdp1_framebuffers.banks[0];

    let check = |x: i32, y: i32| -> bool {
        let offset = ((y * 512 + x) * 2) as usize;
        u16::from_be_bytes([fb[offset], fb[offset + 1]]) != 0
    };

    let mut count = 0;
    for y in 0..10 {
        for x in 0..10 {
            if check(x, y) {
                count += 1;
            }
        }
    }
    assert_eq!(count, 5);
    assert!(check(0, 0));
    assert!(check(1, 1));
    assert!(check(2, 2));
    assert!(check(3, 3));
    assert!(check(4, 4));
}

#[test]
fn back_screen_reads_the_colour_from_vram_not_the_register() {
    let mut ram = WorkRam::new();
    {
        let lines = &mut ram.vdp2_lines;
        let regs = &mut lines[0];
        regs[REG_TVMD] = 0x80;
        regs[REG_TVMD + 1] = 0x00;
        regs[REG_BKTAU] = 0x00;
        regs[REG_BKTAU + 1] = 0x01;
        regs[REG_BKTAL] = 0x23;
        regs[REG_BKTAL + 1] = 0x45;
        regs[REG_VRSIZE] = 0x80;
        regs[REG_VRSIZE + 1] = 0x00;

        let blue = 0x1F << 10;
        let vram = &mut ram.vdp2_vram;
        vram[0x2468A] = (blue >> 8) as u8;
        vram[0x2468B] = (blue & 0xFF) as u8;
    }

    let frame = render_back_screen(&ram);
    assert_eq!(frame.pixels[0], 0x0000FF);
}

#[test]
fn back_screen_per_line_advances_two_bytes_per_line() {
    let mut ram = WorkRam::new();
    {
        let lines = &mut ram.vdp2_lines;
        let regs = &mut lines[0];
        regs[REG_TVMD] = 0x80;
        regs[REG_TVMD + 1] = 0x00;
        regs[REG_BKTAU] = 0x80;
        regs[REG_BKTAU + 1] = 0x01;
        regs[REG_BKTAL] = 0x23;
        regs[REG_BKTAL + 1] = 0x45;
        regs[REG_VRSIZE] = 0x80;

        let vram = &mut ram.vdp2_vram;
        let blue = 0x1F << 10;
        vram[0x2468A] = (blue >> 8) as u8;
        vram[0x2468B] = (blue & 0xFF) as u8;
        let red = 0x1F;
        vram[0x2468C] = (red >> 8) as u8;
        vram[0x2468D] = (red & 0xFF) as u8;
        let green = 0x1F << 5;
        vram[0x2468E] = (green >> 8) as u8;
        vram[0x2468F] = (green & 0xFF) as u8;
    }

    let frame = render_back_screen(&ram);
    assert_eq!(frame.pixels[0], 0x0000FF);
    assert_eq!(frame.pixels[320], 0xFF0000); // Start of row 1
    assert_eq!(frame.pixels[640], 0x00FF00); // Start of row 2
}

#[test]
fn back_screen_is_drawn_with_disp_clear_when_bdclmd_set() {
    let mut ram = WorkRam::new();
    {
        let lines = &mut ram.vdp2_lines;
        let regs = &mut lines[0];
        regs[REG_TVMD] = 0x00; // DISP bit 15 is 0
        regs[REG_TVMD + 1] = 0x00;
        regs[0x0D] = 0x01; // BDCLMD bit 0 is 1 in EXTEN? Wait, TVMD is 0x00, EXTEN is 0x0D?
        regs[REG_TVMD] = 0x01; // BDCLMD is bit 8, which is the LSB of the first byte (byte 0x000).
        let blue = 0x1F << 10;
        let vram = &mut ram.vdp2_vram;
        vram[0] = (blue >> 8) as u8;
        vram[1] = (blue & 0xFF) as u8;
    }

    let frame = render_back_screen(&ram);
    assert_eq!(frame.pixels[0], 0x0000FF);
}

#[test]
fn back_screen_is_black_when_both_clear() {
    let mut ram = WorkRam::new();
    {
        let lines = &mut ram.vdp2_lines;
        let regs = &mut lines[0];
        regs[REG_TVMD] = 0x00; // DISP is 0, BDCLMD is 0
        regs[REG_TVMD + 1] = 0x00;
        let blue = 0x1F << 10;
        let vram = &mut ram.vdp2_vram;
        vram[0] = (blue >> 8) as u8;
        vram[1] = (blue & 0xFF) as u8;
    }

    let frame = render_back_screen(&ram);
    assert_eq!(frame.pixels[0], 0x000000);
}

#[test]
fn vreso_code_3_keeps_the_previous_height() {
    let mut sh2 = Sh2::new(false, WorkRam::new());

    sh2.write_word(0x05F80000, 0x0010);

    let ram = &sh2.bus.work_ram.vdp2_regs;
    let tvmd = u16::from_be_bytes([ram[0], ram[1]]);
    assert_eq!((tvmd >> 4) & 0x3, 1);

    sh2.write_word(0x05F80000, 0x0030);

    let ram = &sh2.bus.work_ram.vdp2_regs;
    let tvmd = u16::from_be_bytes([ram[0], ram[1]]);
    assert_eq!((tvmd >> 4) & 0x3, 1);
}

#[test]
fn lsmd_3_doubles_height_but_not_rbg0_height() {
    let tvmd = 0x00C0; // LSMD is bits 6-7 -> 3 << 6 = 0x00C0
    let (_, h) = resolution_from_tvmd(tvmd);
    assert_eq!(h, 448);

    let tvmd = 0x00D0; // VRESO=1 (240), LSMD=3 -> height=480
    let (_, h) = resolution_from_tvmd(tvmd);
    assert_eq!(h, 480);
}

#[test]
fn vdp1_modr_is_synthesised() {
    let mut sh2 = Sh2::new(false, WorkRam::new());
    let vdp1_state = Vdp1State::new();
    sh2.bus.vdp1 = Some(vdp1_state);

    sh2.write_word(0x05D00000, 0x000B); // TVMR
    sh2.write_word(0x05D00002, 0x001A); // FBCR
    sh2.write_word(0x05D00004, 0x0002); // PTMR

    let modr = sh2.read_word(0x05D00016);
    assert_eq!(modr, 0x11DB);

    sh2.write_word(0x05D00016, 0xFFFF);
    let modr = sh2.read_word(0x05D00016);
    assert_eq!(modr, 0x11DB); // Write discarded
}

#[test]
fn vdp1_write_only_registers_read_zero() {
    let mut sh2 = Sh2::new(false, WorkRam::new());
    let vdp1_state = Vdp1State::new();
    sh2.bus.vdp1 = Some(vdp1_state);

    sh2.write_word(0x05D00000, 0x1234);
    assert_eq!(sh2.read_word(0x05D00000), 0);
    assert_eq!(sh2.read_word(0x05D00002), 0);
    assert_eq!(sh2.read_byte(0x05D00010), 0);
    assert_eq!(sh2.read_long(0x05D00010), 0);

    sh2.write_byte(0x05D00004, 0x01);
    let vdp1 = sh2.bus.vdp1.as_ref().unwrap();
    assert_eq!(vdp1.ptmr, 0);
}

#[test]
fn vdp1_copr_tracks_command_index() {
    let mut state = Vdp1State::new();
    let mut ram = WorkRam::new();
    {
        let vram = &mut ram.vdp1_vram;
        vram[0x00] = 0x10;
        vram[0x01] = 0x04; // CMDCTRL: JP=1 (ASSIGN), COMM=4
        vram[0x02] = 0x00;
        vram[0x03] = 0x04; // CMDLINK: 4 -> addr 0x20
        vram[0x20] = 0x00;
        vram[0x21] = 0x04; // CMDCTRL: JP=0 (NEXT), COMM=4
        vram[0x40] = 0x80;
        vram[0x41] = 0x00; // CMDCTRL: END
    }
    execute_vdp1(&mut state, &mut ram);
    assert_eq!(state.copr, 8);
}

#[test]
fn vdp1_jp_assign_follows_cmdlink() {
    let mut state = Vdp1State::new();
    let mut ram = WorkRam::new();
    {
        let vram = &mut ram.vdp1_vram;
        vram[0x00] = 0x10;
        vram[0x01] = 0x04; // CMDCTRL: JP=1 (ASSIGN)
        vram[0x02] = 0x00;
        vram[0x03] = 0x10; // CMDLINK: 0x10 -> addr 0x80

        vram[0x80] = 0x80;
        vram[0x81] = 0x00; // CMDCTRL: END
    }
    execute_vdp1(&mut state, &mut ram);
    assert_eq!(state.copr, 16);
}

#[test]
fn vdp1_call_and_return() {
    let mut state = Vdp1State::new();
    let mut ram = WorkRam::new();
    {
        let vram = &mut ram.vdp1_vram;
        vram[0x00] = 0x20;
        vram[0x01] = 0x04; // JP=2 (CALL)
        vram[0x02] = 0x00;
        vram[0x03] = 0x08; // CMDLINK=8

        vram[0x20] = 0x80;
        vram[0x21] = 0x00; // END

        vram[0x40] = 0x30;
        vram[0x41] = 0x04; // JP=3 (RETURN)
    }
    execute_vdp1(&mut state, &mut ram);
    assert_eq!(state.copr, 4);
}

#[test]
fn vdp1_resume_mid_list() {
    let mut state = Vdp1State::new();
    let mut ram = WorkRam::new();
    {
        let vram = &mut ram.vdp1_vram;
        vram[0x00] = 0x00;
        vram[0x01] = 0x04;
        vram[0x20] = 0x80;
        vram[0x21] = 0x00; // END
        vram[0x40] = 0x80;
        vram[0x41] = 0x00; // END
    }
    execute_vdp1(&mut state, &mut ram);
    assert_eq!(state.copr, 4);

    {
        let vram = &mut ram.vdp1_vram;
        vram[0x20] = 0x00;
        vram[0x21] = 0x04; // Change END to NEXT
    }

    state.status = Vdp1Status::RUNNING;
    state.edsr &= !2; // Clear completion flag so Batsugun escape doesn't abort
    execute_vdp1(&mut state, &mut ram);
    assert_eq!(state.copr, 8);
}

#[test]
fn vdp1_clipping_and_local_coords_persist() {
    let mut state = Vdp1State::new();
    let mut ram = WorkRam::new();
    {
        let vram = &mut ram.vdp1_vram;
        vram[0x00] = 0x00;
        vram[0x01] = 0x0A; // COMM 10
        vram[0x0C] = 0x12;
        vram[0x0D] = 0x34; // X = 0x1234
        vram[0x0E] = 0x56;
        vram[0x0F] = 0x78; // Y = 0x5678

        vram[0x20] = 0x00;
        vram[0x21] = 0x09; // COMM 9
        vram[0x34] = 0x03;
        vram[0x35] = 0xE8; // X2 = 1000
        vram[0x36] = 0x01;
        vram[0x37] = 0x90; // Y2 = 400

        vram[0x40] = 0x80;
        vram[0x41] = 0x00;
    }
    execute_vdp1(&mut state, &mut ram);

    assert_eq!(state.local_x, 0x1234);
    assert_eq!(state.local_y, 0x5678);
    assert_eq!(state.systemclip_x2, 1000);
    assert_eq!(state.systemclip_y2, 400);

    {
        let vram = &mut ram.vdp1_vram;
        vram[0x00] = 0x80;
        vram[0x01] = 0x00; // Just END immediately
    }
    execute_vdp1(&mut state, &mut ram);

    assert_eq!(state.local_x, 0x1234);
    assert_eq!(state.local_y, 0x5678);
    assert_eq!(state.systemclip_x2, 1000);
    assert_eq!(state.systemclip_y2, 400);
}

#[test]
fn vdp1_nested_call_loses_inner_return() {
    let mut state = Vdp1State::new();
    let mut ram = WorkRam::new();
    {
        let vram = &mut ram.vdp1_vram;
        vram[0x00] = 0x20;
        vram[0x01] = 0x04;
        vram[0x02] = 0x00;
        vram[0x03] = 0x10;
        vram[0x20] = 0x80;
        vram[0x21] = 0x00;
        vram[0x80] = 0x20;
        vram[0x81] = 0x04;
        vram[0x82] = 0x00;
        vram[0x83] = 0x20;
        vram[0xA0] = 0x80;
        vram[0xA1] = 0x00;
        vram[0x100] = 0x30;
        vram[0x101] = 0x04;
    }
    execute_vdp1(&mut state, &mut ram);
    assert_eq!(state.copr, 4);
}

#[test]
fn vdp1_return_without_call_acts_as_next() {
    let mut state = Vdp1State::new();
    let mut ram = WorkRam::new();
    {
        let vram = &mut ram.vdp1_vram;
        vram[0x00] = 0x30;
        vram[0x01] = 0x04;
        vram[0x20] = 0x80;
        vram[0x21] = 0x00;
    }
    execute_vdp1(&mut state, &mut ram);
    assert_eq!(state.copr, 4);
}

#[test]
fn vdp1_local_coordinate_offsets_subsequent_draws() {
    let mut state = Vdp1State::new();
    state.ptmr = 1; // Actually draw
    let mut ram = WorkRam::new();
    {
        let vram = &mut ram.vdp1_vram;
        vram[0x00] = 0x00;
        vram[0x01] = 0x0A;
        vram[0x0C] = 0x00;
        vram[0x0D] = 100;
        vram[0x0E] = 0x00;
        vram[0x0F] = 50;

        vram[0x20] = 0x00;
        vram[0x21] = 0x04; // Polygon
        vram[0x26] = 0x80;
        vram[0x27] = 0x1F; // Color
        vram[0x2C] = 0x00;
        vram[0x2D] = 10;
        vram[0x2E] = 0x00;
        vram[0x2F] = 10;
        vram[0x30] = 0x00;
        vram[0x31] = 20;
        vram[0x32] = 0x00;
        vram[0x33] = 10;
        vram[0x34] = 0x00;
        vram[0x35] = 20;
        vram[0x36] = 0x00;
        vram[0x37] = 20;
        vram[0x38] = 0x00;
        vram[0x39] = 10;
        vram[0x3A] = 0x00;
        vram[0x3B] = 20;

        vram[0x40] = 0x80;
        vram[0x41] = 0x00;
    }
    execute_vdp1(&mut state, &mut ram);

    let back = ram.vdp1_framebuffers.back;
    let fb = &ram.vdp1_framebuffers.banks[back];

    let off = (60 * 512 + 110) * 2;
    let px = u16::from_be_bytes([fb[off], fb[off + 1]]);
    assert_eq!(px, 0x801F);
}

#[test]
fn vdp1_system_clip_ignores_xa_ya() {
    let mut state = Vdp1State::new();
    let mut ram = WorkRam::new();
    {
        let vram = &mut ram.vdp1_vram;
        vram[0x00] = 0x00;
        vram[0x01] = 0x09;
        vram[0x0C] = 0x00;
        vram[0x0D] = 40; // XA
        vram[0x0E] = 0x00;
        vram[0x0F] = 40; // YA
        vram[0x14] = 0x00;
        vram[0x15] = 100; // XC
        vram[0x16] = 0x00;
        vram[0x17] = 50; // YC
        vram[0x20] = 0x80;
        vram[0x21] = 0x00;
    }
    execute_vdp1(&mut state, &mut ram);
    assert_eq!(state.systemclip_x1, 0);
    assert_eq!(state.systemclip_y1, 0);
    assert_eq!(state.systemclip_x2, 100);
    assert_eq!(state.systemclip_y2, 50);
}

#[test]
fn vdp1_endr_forces_idle_without_touching_edsr() {
    let mut state = Vdp1State::new();
    state.edsr = 2;
    state.copr = 7;
    state.status = Vdp1Status::RUNNING;

    let mut sh2 = Sh2::new(false, WorkRam::new());
    sh2.bus.vdp1 = Some(state);

    sh2.write_word(0x05D0000C, 0x1234); // ENDR

    let state = sh2.bus.vdp1.unwrap();
    assert_eq!(state.status, Vdp1Status::IDLE);
    assert_eq!(state.edsr, 2);
    assert_eq!(state.copr, 7);
}

#[test]
fn vdp1_addr_error_aborts_silently() {
    let mut state = Vdp1State::new();
    let mut ram = WorkRam::new();
    state.addr = 0x80000; // Out of bounds
    state.status = Vdp1Status::RUNNING;
    state.edsr = 0;

    let drew = execute_vdp1(&mut state, &mut ram);
    assert_eq!(drew, false);
    assert_eq!(state.status, Vdp1Status::IDLE);
    assert_eq!(state.edsr, 0); // Unchanged
}
