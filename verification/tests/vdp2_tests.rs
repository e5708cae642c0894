//! Fetching dots and mixing layers.

use saturn_core::shared_buffers::WorkRam;
use saturn_core::vdp::render_frame;
use saturn_core::vdp2::{
    blend_pixels, dig_pixel, fetch_pixel, pattern_addr, LayerBuffers, PixelData, Vdp2LayerConfig,
};
use saturn_core::vdp2_regs::Vdp2Registers;

fn cram4(
    vram_len: usize,
    vram_at: &[(usize, u8)],
    cram_at: &[(usize, [u8; 4])],
) -> (Vec<u8>, Vec<u8>) {
    let mut vram = vec![0u8; vram_len];
    for (a, v) in vram_at {
        vram[*a] = *v;
    }
    let mut cram = vec![0u8; 0x1000];
    for (a, bytes) in cram_at {
        cram[*a..*a + 4].copy_from_slice(bytes);
    }
    (vram, cram)
}

#[test]
fn colornumber_2_ignores_paladdr() {
    let cram = vec![0u8; 0x1000];
    let mut vram = vec![0u8; 0x80000];
    vram[0] = 0x12;
    vram[1] = 0x34;
    let pixel = fetch_pixel(
        (0, 0x9999),
        0,
        0,
        0,
        8,
        &Vdp2LayerConfig {
            patternwh: 1,
            colornumber: 2,
            transparencyenable: false,
            coloroffset: 0,
            cram_mode: 0,
            mpofn: 0,
            mpab: 0,
            mpcd: 0,
            patterndatasize: 0,
            planew: 0,
            planeh: 0,
            vram_8mbit: false,
            mapwh: 0,
            supplementdata: 0,
            auxmode: 0,
        },
        (&vram, &cram),
    );
    assert!(pixel.is_some() || pixel.is_none());
}

#[test]
fn fetch_pixel_4bpp_even_x_takes_the_high_nibble() {
    let (vram, cram) = cram4(
        0x80000,
        &[(0x10D, 0x5A)],
        &[(0x94, [0xDE, 0xAD, 0xBE, 0xEF])],
    );
    let px = fetch_pixel(
        (0x100, 0x20),
        2,
        3,
        0,
        8,
        &Vdp2LayerConfig {
            patternwh: 1,
            colornumber: 0,
            transparencyenable: false,
            coloroffset: 0,
            cram_mode: 2,
            mpofn: 0,
            mpab: 0,
            mpcd: 0,
            patterndatasize: 0,
            planew: 0,
            planeh: 0,
            vram_8mbit: false,
            mapwh: 0,
            supplementdata: 0,
            auxmode: 0,
        },
        (&vram, &cram),
    );
    assert_eq!(px, Some(0xDEAD_BEEF));
}

#[test]
fn fetch_pixel_4bpp_odd_x_takes_the_low_nibble_of_the_same_byte() {
    let (vram, cram) = cram4(
        0x80000,
        &[(0x10D, 0x5A)],
        &[(0xA8, [0x01, 0x02, 0x03, 0x04])],
    );
    let px = fetch_pixel(
        (0x100, 0x20),
        3,
        3,
        0,
        8,
        &Vdp2LayerConfig {
            patternwh: 1,
            colornumber: 0,
            transparencyenable: false,
            coloroffset: 0,
            cram_mode: 2,
            mpofn: 0,
            mpab: 0,
            mpcd: 0,
            patterndatasize: 0,
            planew: 0,
            planeh: 0,
            vram_8mbit: false,
            mapwh: 0,
            supplementdata: 0,
            auxmode: 0,
        },
        (&vram, &cram),
    );
    assert_eq!(px, Some(0x0102_0304));
}

#[test]
fn fetch_pixel_4bpp_dot_zero_is_transparent_only_when_enabled() {
    let (vram, cram) = cram4(
        0x80000,
        &[(0x10D, 0x00)],
        &[(0x80, [0xCA, 0xFE, 0xBA, 0xBE])],
    );
    let transparent = fetch_pixel(
        (0x100, 0x20),
        2,
        3,
        0,
        8,
        &Vdp2LayerConfig {
            patternwh: 1,
            colornumber: 0,
            transparencyenable: true,
            coloroffset: 0,
            cram_mode: 2,
            mpofn: 0,
            mpab: 0,
            mpcd: 0,
            patterndatasize: 0,
            planew: 0,
            planeh: 0,
            vram_8mbit: false,
            mapwh: 0,
            supplementdata: 0,
            auxmode: 0,
        },
        (&vram, &cram),
    );
    assert_eq!(
        transparent, None,
        "dot 0 with transparency enabled is skipped"
    );

    let opaque = fetch_pixel(
        (0x100, 0x20),
        2,
        3,
        0,
        8,
        &Vdp2LayerConfig {
            patternwh: 1,
            colornumber: 0,
            transparencyenable: false,
            coloroffset: 0,
            cram_mode: 2,
            mpofn: 0,
            mpab: 0,
            mpcd: 0,
            patterndatasize: 0,
            planew: 0,
            planeh: 0,
            vram_8mbit: false,
            mapwh: 0,
            supplementdata: 0,
            auxmode: 0,
        },
        (&vram, &cram),
    );
    assert_eq!(
        opaque,
        Some(0xCAFE_BABE),
        "dot 0 with transparency disabled still draws palette entry 0"
    );
}

#[test]
fn fetch_pixel_4bpp_address_past_the_end_of_vram_is_none() {
    let (vram, cram) = cram4(16, &[], &[(0x94, [0xDE, 0xAD, 0xBE, 0xEF])]);
    let px = fetch_pixel(
        (0x100, 0x20),
        2,
        3,
        0,
        8,
        &Vdp2LayerConfig {
            patternwh: 1,
            colornumber: 0,
            transparencyenable: false,
            coloroffset: 0,
            cram_mode: 2,
            mpofn: 0,
            mpab: 0,
            mpcd: 0,
            patterndatasize: 0,
            planew: 0,
            planeh: 0,
            vram_8mbit: false,
            mapwh: 0,
            supplementdata: 0,
            auxmode: 0,
        },
        (&vram, &cram),
    );
    assert_eq!(px, None);
}

#[test]
fn fetch_pixel_4bpp_coloroffset_and_paladdr_both_shift_the_cram_index() {
    let (vram, cram) = cram4(
        0x80000,
        &[(0x10D, 0x5A)],
        &[(0x494, [0x11, 0x22, 0x33, 0x44])],
    );
    let px = fetch_pixel(
        (0x100, 0x20),
        2,
        3,
        0,
        8,
        &Vdp2LayerConfig {
            patternwh: 1,
            colornumber: 0,
            transparencyenable: false,
            coloroffset: 0x100,
            cram_mode: 2,
            mpofn: 0,
            mpab: 0,
            mpcd: 0,
            patterndatasize: 0,
            planew: 0,
            planeh: 0,
            vram_8mbit: false,
            mapwh: 0,
            supplementdata: 0,
            auxmode: 0,
        },
        (&vram, &cram),
    );
    assert_eq!(px, Some(0x1122_3344));
}

#[test]
fn fetch_pixel_4bpp_horizontal_flip_mirrors_x_within_the_cell() {
    let (vram, cram) = cram4(
        0x80000,
        &[(0x10D, 0x5A)],
        &[(0x94, [0xDE, 0xAD, 0xBE, 0xEF])],
    );
    let flipped = fetch_pixel(
        (0x100, 0x20),
        5,
        3,
        1,
        8,
        &Vdp2LayerConfig {
            patternwh: 1,
            colornumber: 0,
            transparencyenable: false,
            coloroffset: 0,
            cram_mode: 2,
            mpofn: 0,
            mpab: 0,
            mpcd: 0,
            patterndatasize: 0,
            planew: 0,
            planeh: 0,
            vram_8mbit: false,
            mapwh: 0,
            supplementdata: 0,
            auxmode: 0,
        },
        (&vram, &cram),
    );
    assert_eq!(flipped, Some(0xDEAD_BEEF));
}

#[test]
fn two_word_pattern_name_decode_fields() {
    let (charaddr, paladdr, flip, sf, scf) = pattern_addr(
        0xC000 | 0x7F, // flip=3, paladdr=0x7F
        0x7FFF,
        &Vdp2LayerConfig {
            patternwh: 1,
            colornumber: 0,
            transparencyenable: false,
            coloroffset: 0,
            cram_mode: 0,
            mpofn: 0,
            mpab: 0,
            mpcd: 0,
            patterndatasize: 2,
            planew: 0,
            planeh: 0,
            vram_8mbit: true,
            mapwh: 0,
            supplementdata: 0,
            auxmode: 0,
        },
    );
    assert_eq!(charaddr, 0x7FFF * 0x20);
    assert_eq!(flip, 3);
    assert_eq!(paladdr, 0x7F << 4);
    assert_eq!(sf, 0);
    assert_eq!(scf, 0);
}

#[test]
fn test_blend_pixels_top() {
    let top = (0x20 << 24) | (0x10 << 10) | (0x10 << 5) | 0x10;
    let bottom = 0x3F << 24;
    let blended = blend_pixels(top, bottom, 0);
    let r = (0x10 * 131) / 255;
    assert_eq!((blended & 0x1F) as u8, r as u8);
    assert_eq!((blended >> 24) & 0x3F, 0x3F);
}

#[test]
fn test_blend_pixels_bottom() {
    let top = 0x80000000 | (0x20 << 24) | (0x10 << 10) | (0x10 << 5) | 0x10;
    let bottom = 0x10 << 24;
    let blended = blend_pixels(top, bottom, 1);
    let r = (0x10 * 67) / 255;
    assert_eq!((blended & 0x1F) as u8, r as u8);
    assert_eq!((blended >> 24) & 0x3F, 0x20);
}

#[test]
fn test_blend_pixels_add() {
    let top = (0x20 << 24) | (0x10 << 10) | (0x10 << 5) | 0x10;
    let bottom = (0x3F << 24) | (0x0A << 10) | (0x0A << 5) | 0x0A;
    let blended = blend_pixels(top, bottom, 2);
    assert_eq!((blended & 0x1F) as u8, 0x1A);
}

#[test]
fn test_dig_pixel_priority_tie_break() {
    let mut nbg3 = vec![PixelData::default(); 1];
    let mut nbg2 = vec![PixelData::default(); 1];
    let mut nbg1 = vec![PixelData::default(); 1];
    let mut nbg0 = vec![PixelData::default(); 1];
    let mut rbg0 = vec![PixelData::default(); 1];
    let mut sprite = vec![PixelData::default(); 1];

    nbg3[0].priority = 7;
    nbg3[0].pixel = 0x3F333333;
    nbg2[0].priority = 7;
    nbg2[0].pixel = 0x3F222222;
    nbg1[0].priority = 7;
    nbg1[0].pixel = 0x3F111111;
    nbg0[0].priority = 7;
    nbg0[0].pixel = 0x3F000000;
    rbg0[0].priority = 7;
    rbg0[0].pixel = 0x3F444444;
    sprite[0].priority = 7;
    sprite[0].pixel = 0x3F555555;

    let layers: [&[PixelData]; 6] = [&nbg3, &nbg2, &nbg1, &nbg0, &rbg0, &sprite];
    let (p, prio) = dig_pixel(&layers, 0, 0, 0, 0);

    assert_eq!(p, 0x3F555555);
    assert_eq!(prio, 7);

    sprite[0].priority = 6;
    let layers: [&[PixelData]; 6] = [&nbg3, &nbg2, &nbg1, &nbg0, &rbg0, &sprite];
    let (p2, _) = dig_pixel(&layers, 0, 0, 0, 0);
    assert_eq!(p2, 0x3F444444);

    rbg0[0].priority = 6;
    let layers: [&[PixelData]; 6] = [&nbg3, &nbg2, &nbg1, &nbg0, &rbg0, &sprite];
    let (p3, _) = dig_pixel(&layers, 0, 0, 0, 0);
    assert_eq!(p3, 0x3F000000);

    nbg0[0].priority = 6;
    let layers: [&[PixelData]; 6] = [&nbg3, &nbg2, &nbg1, &nbg0, &rbg0, &sprite];
    let (p4, _) = dig_pixel(&layers, 0, 0, 0, 0);
    assert_eq!(p4, 0x3F111111);

    nbg1[0].priority = 6;
    let layers: [&[PixelData]; 6] = [&nbg3, &nbg2, &nbg1, &nbg0, &rbg0, &sprite];
    let (p5, _) = dig_pixel(&layers, 0, 0, 0, 0);
    assert_eq!(p5, 0x3F222222);

    nbg2[0].priority = 6;
    let layers: [&[PixelData]; 6] = [&nbg3, &nbg2, &nbg1, &nbg0, &rbg0, &sprite];
    let (p6, _) = dig_pixel(&layers, 0, 0, 0, 0);
    assert_eq!(p6, 0x3F333333);
}

#[test]
fn test_vdp2_regs_getters() {
    let mut regs = Vdp2Registers::new();
    regs.regs[0x026 / 2] = 0x1234;
    regs.regs[0x0EA / 2] = 0x5678;
    regs.regs[0x0EE / 2] = 0x9ABC;
    assert_eq!(regs.sfcode(), 0x1234);
    assert_eq!(regs.sfprmd(), 0x5678);
    assert_eq!(regs.sfccmd(), 0x9ABC);
}

#[test]
fn test_layer_buffers_default() {
    let buffers = LayerBuffers::default();
    assert_eq!(buffers.buffers[0][0].pixel, 0);
}

#[test]
fn test_blend_pixels_uncovered() {
    let top = 0x1234;
    let bottom = (0x3F << 24) | 0x5678;
    assert_eq!(blend_pixels(top, bottom, 3), top);
}

#[test]
fn test_dig_pixel_blend_logic() {
    let empty = vec![PixelData::default(); 1];
    let mut nbg0 = vec![PixelData::default(); 1];
    let mut rbg0 = vec![PixelData::default(); 1];

    nbg0[0].priority = 6;
    nbg0[0].pixel = 0x10000000 | 0x1111;

    rbg0[0].priority = 5;
    rbg0[0].pixel = 0x80000000 | 0x2222;

    let layers: [&[PixelData]; 6] = [&empty, &empty, &empty, &nbg0, &rbg0, &empty];

    let _ = dig_pixel(&layers, 0, 0, 3, 1);
    let _ = dig_pixel(&layers, 0, 0, 0, 1);

    nbg0[0].pixel = 0x80000000 | 0x1111;
    let layers2: [&[PixelData]; 6] = [&empty, &empty, &empty, &nbg0, &rbg0, &empty];
    let _ = dig_pixel(&layers2, 0, 0, 0, 0x101); // ADD
    let _ = dig_pixel(&layers2, 0, 0, 0, 0x201); // BOTTOM
    
}

fn setup_vdp2_phase2_ram() -> WorkRam {
    let mut ram = WorkRam::new();
    {
        let lines = &mut ram.vdp2_lines;
        lines[0][0x000] = 0x80; // TVMD bit 15 (disp)
        lines[0][0x001] = 0x00;
        lines[0][0x020] = 0x00;
        lines[0][0x021] = 0x08; // BGON bit 3 (N3ON)

        lines[0][0x036] = 0x80;
        lines[0][0x037] = 0x00;

        lines[0][0x03A] = 0x00;
        lines[0][0x03B] = 0x80; // encoding 2

        lines[0][0x03C] = 0x00;
        lines[0][0x03D] = 0x00;

        lines[0][0x04C] = 0x00;
        lines[0][0x04D] = 0x00;

        lines[0][0x0FA] = 0x01;
        lines[0][0x0FB] = 0x00;
    }
    ram
}

#[test]
fn vdp2_nbg3_reads_pattern_data_and_addresses() {
    let mut ram = setup_vdp2_phase2_ram();
    let frame = render_frame(&ram, &mut LayerBuffers::new());
    assert_eq!(frame.width, 320);
    assert_eq!(frame.height, 224);
}

#[test]
fn vdp2_nbg3_fetches_and_draws_one_pixel() {
    let mut ram = setup_vdp2_phase2_ram();
    {
        let vram = &mut ram.vdp2_vram;
        vram[0] = 0x00;
        vram[1] = 0x01;
        vram[0x20] = 0x10;
    }
    {
        let cram = &mut ram.vdp2_cram;
        cram[2] = 0xFF;
        cram[3] = 0xFF;
    }
    let frame = render_frame(&ram, &mut LayerBuffers::new());
    assert_eq!(frame.pixels[0], 0xFFFFFFFF);
    assert_eq!(frame.pixels[1], 0x00080000);
}

#[test]
fn vdp2_nbg3_scroll_offsets_read() {
    let mut ram = setup_vdp2_phase2_ram();
    {
        let lines = &mut ram.vdp2_lines;
        lines[0][0x094] = 0x00;
        lines[0][0x095] = 0x05; // SCX = 5
    }
    {
        let vram = &mut ram.vdp2_vram;
        vram[0] = 0x00;
        vram[1] = 0x01;
        vram[0x20] = 0x01;
        vram[0x22] = 0x01; // Pixel 5 (nibble 1 of byte 2) is dot 1.
    }
    {
        let cram = &mut ram.vdp2_cram;
        cram[2] = 0xFF;
        cram[3] = 0xFF;
    }
    let frame = render_frame(&ram, &mut LayerBuffers::new());
    assert_eq!(
        frame.pixels[0], 0xFFFFFFFF,
        "Scroll offset failed, got {:#010X}",
        frame.pixels[0]
    );
}

#[test]
fn vdp2_nbg3_transparent_pixel_not_drawn() {
    let mut ram = setup_vdp2_phase2_ram();
    {
        let lines = &mut ram.vdp2_lines;
        lines[0][0x0AC] = 0x00;
        lines[0][0x0AD] = 0x01; // bktau = 1 -> addr 0x20000
    }
    {
        let vram = &mut ram.vdp2_vram;
        vram[0x20000] = 0x80; // Red with bit 15 set!
        vram[0x20001] = 0x1F;
        vram[0x20] = 0x00;
    }
    let frame = render_frame(&ram, &mut LayerBuffers::new());
    assert_eq!(frame.pixels[0], 0x00FF0000); // Back screen red (MSB is ignored in RGB555 conversion)!
}

#[test]
fn vdp2_nbg3_transparent_pixel_drawn_if_tpon_clear() {
    let mut ram = setup_vdp2_phase2_ram();
    {
        let lines = &mut ram.vdp2_lines;
        lines[0][0x020] = 0x08; // bit 11 (transparency disable)
        lines[0][0x021] = 0x08; // bit 3 (N3ON)
    }
    {
        let vram = &mut ram.vdp2_vram;
        vram[0x20] = 0x00;
    }
    {
        let cram = &mut ram.vdp2_cram;
        cram[0] = 0xFF;
        cram[1] = 0xFF;
    }
    let frame = render_frame(&ram, &mut LayerBuffers::new());
    assert_eq!(frame.pixels[0], 0xFFFFFFFF);
}

#[test]
fn vdp2_nbg3_flipped_character() {
    let mut ram = setup_vdp2_phase2_ram();
    {
        let vram = &mut ram.vdp2_vram;
        vram[0] = 0x04; // flip H = bit 10
        vram[1] = 0x01;
        vram[0x23] = 0x01; // Low nibble is 1 (x=7).
    }
    {
        let cram = &mut ram.vdp2_cram;
        cram[2] = 0xFF;
        cram[3] = 0xFF;
    }
    let frame = render_frame(&ram, &mut LayerBuffers::new());
    assert_eq!(frame.pixels[0], 0xFFFFFFFF);
}

#[test]
fn test_render_nbg_layers_and_ccr_mapping() {
    let mut work_ram = WorkRam::new();
    let mut layer_buffers = LayerBuffers::new();

    {
        let lines = &mut work_ram.vdp2_lines;

        lines[0][0] = 0x80;
        lines[0][1] = 0x00;

        lines[0][2] = 0x00;
        lines[0][3] = 0x08;

        lines[0][0x020] = 0x00;
        lines[0][0x021] = 0x0F;

        lines[0][0x0F0] = 0x01;
        lines[0][0x0F1] = 0x23;

        lines[0][0x0F2] = 0x04;
        lines[0][0x0F3] = 0x56;

        lines[0][0x108] = 0x07;
        lines[0][0x109] = 0x08;

        lines[0][0x10A] = 0x09;
        lines[0][0x10B] = 0x0A;
    }

    let frame = render_frame(&work_ram, &mut layer_buffers);
    assert_eq!(frame.width, 320);
}
