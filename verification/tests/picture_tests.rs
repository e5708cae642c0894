//! Frames: display, files, and what the layers make.

use saturn_core::shared_buffers::{DoubleBufferedFramebuffer, Framebuffer as Picture, WorkRam};
use saturn_core::telemetry::{
    bmp_image, png_image, record_idle_time, record_wram_read, record_wram_write, rgb_image,
    PngError, Telemetry,
};
use saturn_core::vdp::{
    alphablend16, gouraud_adjust, render_back_screen, render_frame, vdp1_erase_framebuffer,
    vdp1_swap_frame_buffers, Framebuffer, Vdp, Vdp1State,
};
use saturn_core::vdp2::{
    calc_plane_addr, fetch_pixel, generate_plane_addr_table, map_calc_xy, old_dig_pixel, pattern_addr,
    pixel_is_special, setup_screen_vars, LayerBuffers, PixelData, Vdp2LayerConfig, Vdp2State,
};
use saturn_core::vdp2_regs::Vdp2Registers;

fn two_by_one() -> Framebuffer {
    let mut f = Framebuffer::new(2, 1);
    f.pixels[0] = 0x0011_2233;
    f.pixels[1] = 0x00AA_BBCC;
    f
}

#[test]
fn display_shows_what_was_presented() {
    let mut vdp = Vdp::new();
    let first = vdp.front();
    assert_eq!((first.width, first.height, first.pixels.len()), (320, 224, 320 * 224));
    vdp.present(two_by_one());
    assert_eq!(vdp.front().pixels, vec![0x0011_2233, 0x00AA_BBCC]);
    // The first frame is still there for whoever holds it.
    assert_eq!(first.width, 320);
}

#[test]
fn double_buffer_swaps_and_swaps_back() {
    let mut d = DoubleBufferedFramebuffer::new(2, 3);
    assert_eq!(d.shown().pixels, vec![0u8; 24]);
    d.swap();
    assert_eq!((d.shown().width, d.shown().height), (2, 3));
    d.swap();
    assert_eq!(d.shown().pixels.len(), 24);
}

#[test]
fn bitmap_file_bytes() {
    let bytes = bmp_image(&two_by_one());
    assert_eq!(bytes.len(), 54 + 8);
    assert_eq!(&bytes[0..2], b"BM");
    assert_eq!(&bytes[2..6], &62u32.to_le_bytes());
    assert_eq!(&bytes[10..14], &54u32.to_le_bytes());
    assert_eq!(&bytes[14..18], &40u32.to_le_bytes());
    assert_eq!(&bytes[18..22], &2i32.to_le_bytes());
    assert_eq!(&bytes[22..26], &(-1i32).to_le_bytes());
    assert_eq!(&bytes[26..30], &[1, 0, 32, 0]);
    assert_eq!(&bytes[34..38], &8u32.to_le_bytes());
    assert_eq!(&bytes[38..42], &2835i32.to_le_bytes());
    assert_eq!(&bytes[54..62], &[0x33, 0x22, 0x11, 0xFF, 0xCC, 0xBB, 0xAA, 0xFF]);
}

#[test]
fn rgb_bytes() {
    assert_eq!(rgb_image(&two_by_one()), vec![0x11, 0x22, 0x33, 0xAA, 0xBB, 0xCC]);
}

#[test]
fn png_file_decodes_to_the_same_pixels() {
    let bytes = png_image(&two_by_one()).unwrap();
    assert_eq!(&bytes[0..8], &[137, 80, 78, 71, 13, 10, 26, 10]);
    let decoder = png::Decoder::new(bytes.as_slice());
    let mut reader = decoder.read_info().unwrap();
    let mut buf = vec![0u8; reader.output_buffer_size()];
    let info = reader.next_frame(&mut buf).unwrap();
    assert_eq!((info.width, info.height), (2, 1));
    assert_eq!(buf, vec![0x11, 0x22, 0x33, 0xAA, 0xBB, 0xCC]);
    // The same frame gives the same file.
    assert_eq!(png_image(&two_by_one()).unwrap(), bytes);
}

#[test]
fn png_refuses_an_empty_picture_and_wrong_data() {
    let empty = Framebuffer::new(0, 5);
    assert!(matches!(png_image(&empty), Err(PngError::Header(_))));
    let flat = Framebuffer::new(5, 0);
    assert!(matches!(png_image(&flat), Err(PngError::Header(_))));
    let mut short = two_by_one();
    short.pixels.pop();
    assert!(matches!(png_image(&short), Err(PngError::Data(_))));
}

#[test]
fn telemetry_counts_while_it_is_enabled() {
    let mut t = Telemetry::new();
    record_wram_read(&mut t);
    record_wram_read(&mut t);
    record_wram_write(&mut t);
    record_idle_time(&mut t, 3, 40);
    record_idle_time(&mut t, 3, 2);
    record_idle_time(&mut t, 8, 1000);
    assert_eq!((t.wram_reads, t.wram_writes), (2, 1));
    assert_eq!(t.thread_idle_ns, [0, 0, 0, 42, 0, 0, 0, 0]);

    t.enabled = false;
    record_wram_read(&mut t);
    record_wram_write(&mut t);
    record_idle_time(&mut t, 0, 5);
    assert_eq!((t.wram_reads, t.wram_writes, t.thread_idle_ns[0]), (2, 1, 0));
}

#[test]
fn counters_start_over_at_the_top() {
    let mut t = Telemetry::new();
    t.wram_reads = u64::MAX;
    record_wram_read(&mut t);
    assert_eq!(t.wram_reads, 0);
}

#[test]
fn colours_mix_and_shade() {
    // Half of full red over black.
    assert_eq!(alphablend16(0x0000, 0x001F, 128) & 0x1F, 15);
    // A colour mixed with itself stays.
    assert_eq!(alphablend16(0x7FFF, 0x7FFF, 128) & 0x7FFF, 0x7FFF);
    // A shade of 16 in every channel is neutral.
    let neutral = 16 | (16 << 5) | (16 << 10);
    assert_eq!(gouraud_adjust(0x1234, neutral) & 0x7FFF, 0x1234);
    // Shading stops at the ends of the scale.
    assert_eq!(gouraud_adjust(0x7FFF, 0x7FFF) & 0x7FFF, 0x7FFF);
    assert_eq!(gouraud_adjust(0x0000, 0x0000) & 0x7FFF, 0x0000);
}

#[test]
fn erasing_fills_the_area_and_nothing_else() {
    let mut ram = WorkRam::new();
    let mut s = Vdp1State::new();
    s.ewdr = 0xABCD;
    s.ewlr = 0x0000;
    s.ewrr = 0x0000; // eight dots of the first line
    vdp1_erase_framebuffer(&s, &mut ram, 0);
    let bank = &ram.vdp1_framebuffers.banks[0];
    assert_eq!(&bank[0..4], &[0xAB, 0xCD, 0xAB, 0xCD]);
    assert_eq!(&bank[14..18], &[0xAB, 0xCD, 0x00, 0x00]);
    assert_eq!(bank[1024], 0);
    assert_eq!(ram.vdp1_framebuffers.banks[1][0], 0);
}

#[test]
fn swapping_displays_what_was_drawn() {
    let mut ram = WorkRam::new();
    let mut s = Vdp1State::new();
    // A red dot at the top left of the bank being drawn.
    ram.vdp1_framebuffers.banks[0][0] = 0x80;
    ram.vdp1_framebuffers.banks[0][1] = 0x1F;
    assert_eq!(render_back_screen(&ram).pixels[0], 0);
    vdp1_swap_frame_buffers(&mut s, &mut ram);
    assert_eq!(render_back_screen(&ram).pixels[0], 0x00FF_0000);
    assert_eq!(render_back_screen(&ram).pixels[1], 0);
    vdp1_swap_frame_buffers(&mut s, &mut ram);
    assert_eq!(render_back_screen(&ram).pixels[0], 0);
}

fn config() -> Vdp2LayerConfig {
    Vdp2LayerConfig {
        mpofn: 0,
        mpab: 0,
        mpcd: 0,
        patterndatasize: 1,
        patternwh: 1,
        planew: 1,
        planeh: 1,
        vram_8mbit: false,
        mapwh: 2,
        supplementdata: 0,
        auxmode: 0,
        colornumber: 0,
        transparencyenable: true,
        coloroffset: 0,
        cram_mode: 0,
    }
}

#[test]
fn plane_addresses() {
    assert_eq!(calc_plane_addr(0x40, 0x03, 1, 1, 1, 1, false), 0x3 * 0x2000);
    assert_eq!(calc_plane_addr(0, 0x05, 1, 2, 1, 1, false), 0x5 * 0x800);
    assert_eq!(calc_plane_addr(0, 0x05, 2, 1, 2, 1, false), (0x5 >> 1) * 0x8000);
    assert_eq!(calc_plane_addr(0, 0x7F, 2, 2, 2, 2, false), (0x7F >> 2) * 0x4000);
    let mut c = config();
    c.mpab = 0x0201;
    c.mpcd = 0x0403;
    let mut table = [0u32; 4];
    generate_plane_addr_table(&mut table, &c);
    assert_eq!(table, [0x2000, 0x4000, 0x6000, 0x8000]);
}

#[test]
fn patterns_are_located_and_cached() {
    let c = config();
    let vars = setup_screen_vars(1, 1, 1, 2);
    assert_eq!((vars.screenwidth, vars.xmask, vars.ymask), (1024, 1023, 1023));
    let mut vram = vec![0u8; 0x8_0000];
    // The pattern of cell (2, 1): name 65 of the plane.
    let at = (64 + 2) * 2;
    vram[at] = 0x24;
    vram[at + 1] = 0x07;
    let mut state = Vdp2State::new();
    map_calc_xy(&mut state, 17, 8, &vars, &c, &vram);
    assert_eq!(state.pipe[0].addr, at as u32);
    assert_eq!(state.pipe[0].charaddr, 7 * 0x20);
    assert_eq!(state.pipe[0].paladdr, 0x20);
    assert_eq!(state.pipe[0].flipfunction, 1);
    // Another dot of the same cell changes nothing.
    vram[at + 1] = 0x08;
    map_calc_xy(&mut state, 18, 15, &vars, &c, &vram);
    assert_eq!(state.pipe[0].charaddr, 7 * 0x20);
    // The next cell moves on.
    map_calc_xy(&mut state, 24, 8, &vars, &c, &vram);
    assert_eq!(state.pipe[0].charaddr, 0);
    assert_eq!(state.pipe[1].charaddr, 7 * 0x20);
}

#[test]
fn pattern_names_of_two_words() {
    let mut c = config();
    c.patterndatasize = 2;
    assert_eq!(pattern_addr(0xF012, 0x0005, &c), (5 * 0x20, 0x120, 3, 1, 1));
    c.colornumber = 1;
    assert_eq!(pattern_addr(0x0012, 0xFFFF, &c), (0x3FFF * 0x20, 0x100, 0, 0, 0));
    c.vram_8mbit = true;
    assert_eq!(pattern_addr(0x0000, 0xFFFF, &c).0, 0x7FFF * 0x20);
}

#[test]
fn special_dots_follow_the_selected_code() {
    assert!(pixel_is_special(0, 4, 0, 0x0004));
    assert!(!pixel_is_special(0, 6, 0, 0x0004));
    assert!(pixel_is_special(1, 15, 0x0002, 0x8000));
    assert!(!pixel_is_special(1, 15, 0x0000, 0x8000));
}

#[test]
fn equal_priorities_show_the_later_layer() {
    let empty = vec![PixelData::default(); 1];
    let mut low = vec![PixelData::default(); 1];
    let mut high = vec![PixelData::default(); 1];
    low[0] = PixelData { pixel: 1, priority: 3, ..PixelData::default() };
    high[0] = PixelData { pixel: 2, priority: 3, ..PixelData::default() };
    let layers: [&[PixelData]; 6] = [&low, &empty, &high, &empty, &empty, &empty];
    assert_eq!(old_dig_pixel(&layers, 0, 9), (2, 3));
    let none: [&[PixelData]; 6] = [&empty, &empty, &empty, &empty, &empty, &empty];
    assert_eq!(old_dig_pixel(&none, 0, 9), (9, 0));
}

#[test]
fn clearing_a_frame_hides_its_dots() {
    let mut layers = LayerBuffers::new();
    layers.buffers[2][5].priority = 4;
    layers.buffers[2][5].pixel = 77;
    layers.buffers[2][6].priority = 4;
    layers.clear_frame(3, 2);
    assert_eq!((layers.buffers[2][5].priority, layers.buffers[2][5].pixel), (0, 77));
    assert_eq!(layers.buffers[2][6].priority, 4);
}

#[test]
fn registers_are_big_endian() {
    let mut bytes = [0u8; 512];
    bytes[0] = 0x80;
    bytes[1] = 0x31;
    bytes[0xAC] = 0x80;
    bytes[0xAD] = 0x05;
    bytes[0xAF] = 0x02;
    let r = Vdp2Registers::from_bytes(&bytes);
    assert_eq!(r.tvmd(), 0x8031);
    assert_eq!((r.disp(), r.hreso(), r.vreso()), (1, 1, 3));
    assert!(r.back_screen_enabled());
    assert_eq!(r.back_screen_addr(), 0x1_0002);
    bytes[6] = 0x80;
    assert_eq!(Vdp2Registers::from_bytes(&bytes).back_screen_addr(), 0x5_0002);
}

#[test]
fn a_screen_of_higher_priority_hides_another() {
    let mut ram = WorkRam::new();
    let regs = &mut ram.vdp2_lines[0];
    regs[0] = 0x80; // display on
    regs[0x21] = 0x0C; // screens 2 and 3
    regs[0x34] = 0x80; // pattern names of one word
    regs[0x36] = 0x80;
    regs[0xFA] = 0x02; // screen 3: priority 2
    regs[0xFB] = 0x01; // screen 2: priority 1
    regs[0x49] = 0x01; // screen 2 begins at 0x2000
    regs[0xAF] = 0x10; // the back screen's colour stands elsewhere
    // Screen 3: character 2; screen 2: character 3.
    ram.vdp2_vram[1] = 0x02;
    ram.vdp2_vram[0x2001] = 0x03;
    ram.vdp2_vram[0x40] = 0x10;
    ram.vdp2_vram[0x60] = 0x22;
    ram.vdp2_cram[2] = 0x00;
    ram.vdp2_cram[3] = 0x1F;
    ram.vdp2_cram[4] = 0x03;
    ram.vdp2_cram[5] = 0xE0;
    let frame = render_frame(&ram, &mut LayerBuffers::new());
    assert_eq!(frame.pixels[0] & 0x00FF_FFFF, 0x00FF_0000);
    assert_eq!(frame.pixels[1] & 0x00FF_FFFF, 0x0000_FF00);
    assert_eq!(frame.pixels[2], 0);
}

#[test]
fn flip_bits_mirror_a_cell() {
    let mut c = config();
    c.transparencyenable = false;
    let vram: Vec<u8> = (0..0x100u32).map(|i| (i * 37 % 251) as u8).collect();
    let cram: Vec<u8> = (0..0x1000u32).map(|i| (i * 13 % 256) as u8).collect();
    let fetch = |x: u32, y: u32, flip: u16, c: &Vdp2LayerConfig| {
        fetch_pixel((0, 0), x, y, flip, 8, c, (&vram, &cram))
    };
    for flip in 0..4u16 {
        for x in 0..24u32 {
            for y in 0..24u32 {
                let dot = fetch(x, y, flip, &c);
                assert_eq!(fetch(7 - (x & 7), y, flip ^ 1, &c), dot);
                assert_eq!(fetch(x, 7 - (y & 7), flip ^ 2, &c), dot);
                assert_eq!(fetch(x & 7, y & 7, flip, &c), dot);
            }
        }
    }
    c.patternwh = 2;
    for flip in 0..4u16 {
        for x in 0..32u32 {
            for y in 0..32u32 {
                let dot = fetch(x, y, flip, &c);
                assert_eq!(fetch(15 - (x & 15), y, flip ^ 1, &c), dot);
                assert_eq!(fetch(x, 15 - (y & 15), flip ^ 2, &c), dot);
            }
        }
    }
}

#[test]
fn what_is_drawn_is_shown_after_a_swap() {
    let mut d = DoubleBufferedFramebuffer::new(1, 1);
    let picture = Picture { width: 1, height: 1, pixels: vec![1, 2, 3, 4] };
    d.draw(picture.clone());
    assert_eq!(*d.drawn(), picture);
    assert_eq!(d.shown().pixels, vec![0; 4]);
    d.swap();
    assert_eq!(*d.shown(), picture);
    assert_eq!(d.drawn().pixels, vec![0; 4]);
    d.swap();
    assert_eq!(*d.drawn(), picture);
}

#[test]
fn png_errors_say_what_is_wrong() {
    let empty = Framebuffer::new(0, 5);
    assert_eq!(
        png_image(&empty),
        Err(PngError::Header("Zero width not allowed".to_string()))
    );
    let mut short = two_by_one();
    short.pixels.pop();
    let Err(PngError::Data(text)) = png_image(&short) else { panic!("data must be refused") };
    assert_eq!(png_image(&short), Err(PngError::Data(text.clone())));
    assert!(text.contains('6') && text.contains('3'), "{text}");
}

#[test]
fn the_current_cell_needs_no_planes() {
    let c = config();
    let mut state = Vdp2State::new();
    let vars = setup_screen_vars(1, 1, 1, 2);
    map_calc_xy(&mut state, 17, 8, &vars, &c, &[0x24, 0x07]);
    let before = (state.pipe, state.oldcellcheck, state.planenum, state.planetbl);
    let mut nothing = vars;
    nothing.planepixelwidth = 0;
    nothing.planepixelheight = 0;
    map_calc_xy(&mut state, 23, 15, &nothing, &c, &[]);
    assert_eq!(before, (state.pipe, state.oldcellcheck, state.planenum, state.planetbl));
}
