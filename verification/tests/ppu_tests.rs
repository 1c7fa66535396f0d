use nes_core::cart::Cartridge;
use nes_core::ppu::{PPU, Stage};

fn cart_with_chr(edit: &[(usize, u8)], flag6: u8) -> Cartridge {
    let mut v = vec![0u8; 16];
    v[4] = 1;
    v[5] = 1;
    v[6] = flag6;
    for _ in 0..(0x4000 + 0x2000) {
        v.push(0);
    }
    for (off, b) in edit.iter() {
        v[16 + 0x4000 + off] = *b;
    }
    let mut cart = Cartridge::new();
    assert!(cart.load(&v).is_ok());
    cart
}

#[test]
fn prerendering_lasts_340_cycles_on_even_frames() {
    let cart = cart_with_chr(&[], 0);
    let mut ppu = PPU::new();
    for _ in 0..340 {
        assert_eq!(ppu.stage, Stage::PreRendering);
        assert!(ppu.step(&cart).is_ok());
    }
    assert_eq!(ppu.stage, Stage::PreRendering);
    assert!(ppu.step(&cart).is_ok());
    assert_eq!(ppu.stage, Stage::Rendering);
    assert_eq!(ppu.cycles, 1);
    assert_eq!(ppu.scanline, 0);
}

#[test]
fn prerendering_lasts_339_cycles_on_odd_rendering_frames() {
    let cart = cart_with_chr(&[], 0);
    let mut ppu = PPU::new();
    ppu.even_frame = false;
    ppu.r_ppumask = 0x18; // background and sprites enabled
    for _ in 0..339 {
        assert_eq!(ppu.stage, Stage::PreRendering);
        assert!(ppu.step(&cart).is_ok());
    }
    assert!(ppu.step(&cart).is_ok());
    assert_eq!(ppu.stage, Stage::Rendering);
}

#[test]
fn end_prerendering_condition_matches_counters() {
    let mut ppu = PPU::new();
    ppu.cycles = 339;
    assert!(!ppu.end_prerendering(), "even frame: cycle 339 is not the end");
    ppu.cycles = 340;
    assert!(ppu.end_prerendering());
    ppu.cycles = 339;
    ppu.even_frame = false;
    ppu.r_ppumask = 0x18;
    assert!(ppu.end_prerendering(), "odd frame with rendering on ends a cycle early");
    ppu.r_ppumask = 0x10;
    assert!(!ppu.end_prerendering(), "sprites off: no early end");
}

#[test]
fn stage_order_is_strictly_cyclic() {
    let cart = cart_with_chr(&[], 0);
    let mut ppu = PPU::new();
    let mut order: Vec<Stage> = vec![ppu.stage];
    for _ in 0..200_000 {
        assert!(ppu.step(&cart).is_ok());
        if *order.last().unwrap() != ppu.stage {
            order.push(ppu.stage);
        }
        if order.len() == 4 {
            break;
        }
    }
    assert_eq!(
        order,
        vec![
            Stage::PreRendering,
            Stage::Rendering,
            Stage::PostRendering,
            Stage::PreRendering
        ]
    );
}

#[test]
fn vblank_rises_once_per_frame_and_parity_toggles() {
    let cart = cart_with_chr(&[], 0);
    let mut ppu = PPU::new();
    assert!(ppu.even_frame);
    let mut rises = 0;
    let mut was_set = false;
    for _ in 0..200_000 {
        assert!(ppu.step(&cart).is_ok());
        let set = ppu.r_ppustatus & 0x80 != 0;
        if set && !was_set {
            rises += 1;
        }
        was_set = set;
        if ppu.stage == Stage::PreRendering && ppu.cycles == 0 {
            break; // one whole frame went by
        }
    }
    assert_eq!(rises, 1);
    assert!(!ppu.even_frame, "frame parity toggled");
    assert_eq!(ppu.r_ppustatus & 0x80, 0, "flag cleared at frame end");
}

#[test]
fn scroll_latch_takes_two_writes() {
    let cart = cart_with_chr(&[], 0);
    let mut ppu = PPU::new();
    ppu.reg_write(0x2005, 10, &cart);
    assert_eq!(ppu.x_scroll, 10);
    assert!(!ppu.scroll_first_write);
    ppu.reg_write(0x2005, 20, &cart);
    assert_eq!(ppu.y_scroll, 20);
    assert!(ppu.scroll_first_write);
}

#[test]
fn scroll_wraps_into_second_screen_by_control_bits() {
    let cart = cart_with_chr(&[], 0);
    let mut ppu = PPU::new();
    ppu.reg_write(0x2000, 0x03, &cart);
    ppu.reg_write(0x2005, 10, &cart);
    assert_eq!(ppu.x_scroll, 256 + 10);
    ppu.reg_write(0x2005, 20, &cart);
    assert_eq!(ppu.y_scroll, 240 + 20);
}

#[test]
fn status_read_clears_vblank_and_resets_latch() {
    let cart = cart_with_chr(&[], 0);
    let mut ppu = PPU::new();
    ppu.r_ppustatus = 0x80;
    ppu.scroll_first_write = false;
    let v = ppu.reg_read(0x2002, &cart);
    assert_eq!(v, 0x80);
    assert_eq!(ppu.r_ppustatus & 0x80, 0);
    assert!(ppu.scroll_first_write);
}

#[test]
fn data_port_writes_nametable_through_mirroring() {
    let cart = cart_with_chr(&[], 0); // horizontal layout
    let mut ppu = PPU::new();
    ppu.reg_write(0x2006, 0x24, &cart);
    ppu.reg_write(0x2006, 0x00, &cart);
    ppu.reg_write(0x2007, 0x42, &cart);
    // horizontally mirrored: 0x2400 shares the first table
    assert_eq!(ppu.vram[0x000], 0x42);

    let vcart = cart_with_chr(&[], 1); // vertical layout
    let mut ppu = PPU::new();
    ppu.reg_write(0x2006, 0x24, &vcart);
    ppu.reg_write(0x2006, 0x00, &vcart);
    ppu.reg_write(0x2007, 0x42, &vcart);
    // vertically mirrored: 0x2400 is the second table
    assert_eq!(ppu.vram[0x400], 0x42);
    assert_eq!(ppu.vram[0x000], 0x00);
}

#[test]
fn data_port_address_increments_by_control_stride() {
    let cart = cart_with_chr(&[], 0);
    let mut ppu = PPU::new();
    ppu.reg_write(0x2006, 0x20, &cart);
    ppu.reg_write(0x2006, 0x00, &cart);
    ppu.reg_write(0x2007, 1, &cart);
    assert_eq!(ppu.vram_addr, 0x2001);
    ppu.reg_write(0x2000, 0x04, &cart); // column-major stride
    ppu.reg_write(0x2007, 2, &cart);
    assert_eq!(ppu.vram_addr, 0x2021);
    assert_eq!(ppu.vram[0], 1);
    assert_eq!(ppu.vram[1], 2);
}

#[test]
fn palette_slots_mirror_their_background_entries() {
    let cart = cart_with_chr(&[], 0);
    let mut ppu = PPU::new();
    ppu.reg_write(0x2006, 0x3f, &cart);
    ppu.reg_write(0x2006, 0x10, &cart);
    ppu.reg_write(0x2007, 7, &cart);
    assert_eq!(ppu.palette[0], 7, "0x3F10 lands on 0x3F00");
    assert_eq!(ppu.read(0x3f00, &cart).unwrap(), 7);
    assert_eq!(ppu.read(0x3f10, &cart).unwrap(), 7);
}

#[test]
fn oam_write_steps_sprite_address() {
    let cart = cart_with_chr(&[], 0);
    let mut ppu = PPU::new();
    ppu.reg_write(0x2003, 5, &cart);
    ppu.reg_write(0x2004, 0x99, &cart);
    assert_eq!(ppu.oam[5], 0x99);
    assert_eq!(ppu.r_oamaddr, 6);
}

#[test]
fn write_to_pattern_space_is_discarded() {
    let cart = cart_with_chr(&[(0, 0xaa)], 0);
    let mut ppu = PPU::new();
    ppu.reg_write(0x2006, 0x00, &cart);
    ppu.reg_write(0x2006, 0x00, &cart);
    ppu.reg_write(0x2007, 0x11, &cart);
    assert_eq!(ppu.read(0x0000, &cart).unwrap(), 0xaa, "pattern data is read-only");
}

#[test]
fn rendering_writes_first_pixel_from_pattern_planes() {
    // top-left tile row: low plane bit 7 set, high plane clear => pixel 1
    let cart = cart_with_chr(&[(0, 0x80), (8, 0x00)], 0);
    let mut ppu = PPU::new();
    ppu.palette[1] = 7;
    for _ in 0..341 {
        assert!(ppu.step(&cart).is_ok());
    }
    assert_eq!(ppu.stage, Stage::Rendering);
    assert!(ppu.step(&cart).is_ok()); // cycle 1 draws pixel (0, 0)
    assert_eq!(ppu.frame[0], 7);
}

#[test]
fn rendering_background_pixel_zero_reads_palette_zero() {
    let cart = cart_with_chr(&[], 0); // empty patterns: pixel 0 everywhere
    let mut ppu = PPU::new();
    ppu.palette[0] = 33;
    for _ in 0..342 {
        assert!(ppu.step(&cart).is_ok());
    }
    assert_eq!(ppu.frame[0], 33);
}

#[test]
fn frame_buffer_has_fixed_size() {
    let ppu = PPU::new();
    assert_eq!(ppu.frame.len(), 256 * 240);
}
