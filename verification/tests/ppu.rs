use dancy::io::ppu::fetcher::{Fetcher, FetcherState};
use dancy::io::ppu::pixel::{Pixel, PixelQueue};
use dancy::io::ppu::sprite::Sprite;
use dancy::io::ppu::{rgb, Ppu, PpuMode};

const WHITE: u32 = 0xFFFF_FFFF;
const LIGHT: u32 = 0xFFAA_AAAA;
const DARK: u32 = 0xFF55_5555;
const BLACK: u32 = 0xFF00_0000;

fn new_ppu() -> Box<Ppu> {
    Box::new(Ppu::new())
}

fn mode_bits(ppu: &Ppu) -> u8 {
    ppu.read_register(0xFF41) & 0x03
}

/// Writes one row of a tile: `lo` holds bit 0 of each pixel's colour, `hi`
/// bit 1, leftmost pixel in bit 7.
fn set_tile_row(ppu: &mut Ppu, tile: u16, row: u16, lo: u8, hi: u8) {
    ppu.write_vram(0x8000 + tile * 16 + row * 2, lo);
    ppu.write_vram(0x8000 + tile * 16 + row * 2 + 1, hi);
}

fn set_sprite(ppu: &mut Ppu, index: u16, y: u8, x: u8, tile: u8, attributes: u8) {
    ppu.write_oam(0xFE00 + index * 4, y);
    ppu.write_oam(0xFE00 + index * 4 + 1, x);
    ppu.write_oam(0xFE00 + index * 4 + 2, tile);
    ppu.write_oam(0xFE00 + index * 4 + 3, attributes);
}

fn run_dots(ppu: &mut Ppu, dots: u32) -> (u32, u32) {
    let mut vblanks = 0;
    let mut stats = 0;
    for _ in 0..dots {
        let (v, s) = ppu.step(1);
        if v {
            vblanks += 1;
        }
        if s {
            stats += 1;
        }
    }
    (vblanks, stats)
}

#[test]
fn rgb_packs_alpha_red_green_blue() {
    assert_eq!(rgb(0x12, 0x34, 0x56), 0xFF12_3456);
    assert_eq!(rgb(255, 255, 255), WHITE);
    assert_eq!(rgb(170, 170, 170), LIGHT);
    assert_eq!(rgb(85, 85, 85), DARK);
    assert_eq!(rgb(0, 0, 0), BLACK);
}

#[test]
fn ppu_power_on_registers() {
    let ppu = new_ppu();
    assert_eq!(ppu.read_register(0xFF40), 0x91);
    assert_eq!(ppu.read_register(0xFF41), 0x86);
    assert_eq!(ppu.read_register(0xFF42), 0x00);
    assert_eq!(ppu.read_register(0xFF43), 0x00);
    assert_eq!(ppu.read_register(0xFF44), 0x00);
    assert_eq!(ppu.read_register(0xFF45), 0x00);
    assert_eq!(ppu.read_register(0xFF47), 0xFC);
    assert_eq!(ppu.read_register(0xFF48), 0xFF);
    assert_eq!(ppu.read_register(0xFF49), 0xFF);
    assert_eq!(ppu.read_register(0xFF4A), 0x00);
    assert_eq!(ppu.read_register(0xFF4B), 0x00);
    assert_eq!(ppu.read_register(0xFF4C), 0xFF);
    assert_eq!(ppu.mode, PpuMode::OAMScan);
    assert!(ppu.graphics_buffer.iter().all(|&p| p == WHITE));
}

#[test]
fn ppu_registers_read_back() {
    let mut ppu = new_ppu();
    for (addr, value) in [
        (0xFF40u16, 0xE3u8),
        (0xFF42, 0x11),
        (0xFF43, 0x22),
        (0xFF45, 0x33),
        (0xFF47, 0x44),
        (0xFF48, 0x55),
        (0xFF49, 0x66),
        (0xFF4A, 0x77),
        (0xFF4B, 0x88),
    ] {
        ppu.write_register(addr, value);
        assert_eq!(ppu.read_register(addr), value);
    }
}

#[test]
fn stat_keeps_only_its_enable_bits() {
    let mut ppu = new_ppu();
    ppu.write_register(0xFF41, 0xFF);
    assert_eq!(ppu.read_register(0xFF41), 0xFE);
    ppu.write_register(0xFF41, 0x00);
    assert_eq!(ppu.read_register(0xFF41), 0x86);
    ppu.write_register(0xFF41, 0x28);
    assert_eq!(ppu.read_register(0xFF41), 0xAE);
    ppu.write_register(0xFF45, 0x05);
    assert_eq!(ppu.read_register(0xFF41), 0xAA);
}

#[test]
fn ly_cannot_be_written() {
    let mut ppu = new_ppu();
    run_dots(&mut ppu, 456 * 3);
    assert_eq!(ppu.read_register(0xFF44), 3);
    ppu.write_register(0xFF44, 0x50);
    assert_eq!(ppu.read_register(0xFF44), 3);
}

#[test]
fn vram_and_oam_read_back() {
    let mut ppu = new_ppu();
    ppu.write_vram(0x8000, 0x12);
    ppu.write_vram(0x9FFF, 0x34);
    assert_eq!(ppu.read_vram(0x8000), 0x12);
    assert_eq!(ppu.read_vram(0x9FFF), 0x34);
    assert_eq!(ppu.read_vram(0x8001), 0x00);
    ppu.write_oam(0xFE00, 0x56);
    ppu.write_oam(0xFE9F, 0x78);
    assert_eq!(ppu.read_oam(0xFE00), 0x56);
    assert_eq!(ppu.read_oam(0xFE9F), 0x78);
}

#[test]
fn scanline_visits_scan_drawing_blank_in_456_dots() {
    let mut ppu = new_ppu();
    for line in 0..3u8 {
        assert_eq!(ppu.read_register(0xFF44), line);
        assert_eq!(mode_bits(&ppu), 2);
        run_dots(&mut ppu, 79);
        assert_eq!(mode_bits(&ppu), 2);
        run_dots(&mut ppu, 1);
        assert_eq!(mode_bits(&ppu), 3);
        run_dots(&mut ppu, 165);
        assert_eq!(mode_bits(&ppu), 3);
        run_dots(&mut ppu, 1);
        assert_eq!(mode_bits(&ppu), 0);
        run_dots(&mut ppu, 209);
        assert_eq!(mode_bits(&ppu), 0);
        assert_eq!(ppu.read_register(0xFF44), line);
        run_dots(&mut ppu, 1);
    }
    assert_eq!(ppu.read_register(0xFF44), 3);
}

#[test]
fn fine_scroll_lengthens_drawing() {
    let mut ppu = new_ppu();
    ppu.write_register(0xFF43, 0x05);
    run_dots(&mut ppu, 80 + 166 + 4);
    assert_eq!(mode_bits(&ppu), 3);
    run_dots(&mut ppu, 1);
    assert_eq!(mode_bits(&ppu), 0);
    run_dots(&mut ppu, 456 - 251);
    assert_eq!(ppu.read_register(0xFF44), 1);
    assert_eq!(mode_bits(&ppu), 2);
}

#[test]
fn ly_runs_through_154_lines() {
    let mut ppu = new_ppu();
    let mut seen = Vec::new();
    for _ in 0..154 {
        seen.push(ppu.read_register(0xFF44));
        run_dots(&mut ppu, 456);
    }
    let expected: Vec<u8> = (0..154u32).map(|l| l as u8).collect();
    assert_eq!(seen, expected);
    assert_eq!(ppu.read_register(0xFF44), 0);
    assert_eq!(mode_bits(&ppu), 2);
    assert_eq!(ppu.dots, 0);
}

#[test]
fn vertical_blank_starts_at_line_144() {
    let mut ppu = new_ppu();
    let (vblanks, _) = run_dots(&mut ppu, 144 * 456 - 1);
    assert_eq!(vblanks, 0);
    assert_eq!(ppu.read_register(0xFF44), 143);
    let (v, _) = ppu.step(1);
    assert!(v);
    assert_eq!(ppu.read_register(0xFF44), 144);
    assert_eq!(mode_bits(&ppu), 1);
    let (vblanks, _) = run_dots(&mut ppu, 10 * 456 - 1);
    assert_eq!(vblanks, 0);
    assert_eq!(ppu.read_register(0xFF44), 153);
    assert_eq!(mode_bits(&ppu), 1);
    run_dots(&mut ppu, 1);
    assert_eq!(ppu.read_register(0xFF44), 0);
    let (vblanks, _) = run_dots(&mut ppu, 70224);
    assert_eq!(vblanks, 1);
}

#[test]
fn step_of_four_dots_equals_four_steps_of_one() {
    let mut a = new_ppu();
    let mut b = new_ppu();
    for _ in 0..70224 / 4 {
        let (va, sa) = a.step(4);
        let (vb, sb) = run_dots(&mut b, 4);
        assert_eq!(va, vb == 1);
        assert_eq!(sa, sb >= 1);
        assert_eq!(a.read_register(0xFF44), b.read_register(0xFF44));
        assert_eq!(a.read_register(0xFF41), b.read_register(0xFF41));
    }
}

#[test]
fn stat_interrupt_rises_once_per_horizontal_blank() {
    let mut ppu = new_ppu();
    ppu.write_register(0xFF41, 0x08);
    let (_, stats) = run_dots(&mut ppu, 246);
    assert_eq!(stats, 0);
    let (_, s) = ppu.step(1);
    assert!(s);
    let (_, stats) = run_dots(&mut ppu, 456 - 247);
    assert_eq!(stats, 0);
    let (_, stats) = run_dots(&mut ppu, 456 * 10);
    assert_eq!(stats, 10);
}

#[test]
fn stat_interrupt_on_line_compare() {
    let mut ppu = new_ppu();
    ppu.write_register(0xFF45, 2);
    ppu.write_register(0xFF41, 0x40);
    let (_, stats) = run_dots(&mut ppu, 456 * 2);
    assert_eq!(stats, 0);
    assert_eq!(ppu.read_register(0xFF41) & 0x04, 0x04);
    let (_, s) = ppu.step(1);
    assert!(s);
    let (_, stats) = run_dots(&mut ppu, 456);
    assert_eq!(stats, 0);
    assert_eq!(ppu.read_register(0xFF41) & 0x04, 0x00);
}

#[test]
fn stat_interrupt_sources_share_one_line() {
    let mut ppu = new_ppu();
    ppu.write_register(0xFF41, 0x28);
    let (_, s) = ppu.step(1);
    assert!(s);
    let (_, stats) = run_dots(&mut ppu, 455);
    assert_eq!(stats, 1);
    let (_, stats) = run_dots(&mut ppu, 456);
    assert_eq!(stats, 1);
}

#[test]
fn stat_interrupt_on_vertical_blank() {
    let mut ppu = new_ppu();
    ppu.write_register(0xFF41, 0x10);
    let (_, stats) = run_dots(&mut ppu, 144 * 456);
    assert_eq!(stats, 0);
    let (_, s) = ppu.step(1);
    assert!(s);
    let (_, stats) = run_dots(&mut ppu, 70224 - 1);
    assert_eq!(stats, 0);
    let (_, s) = ppu.step(1);
    assert!(s);
}

#[test]
fn background_tile_is_drawn_through_the_palette() {
    let mut ppu = new_ppu();
    ppu.write_register(0xFF47, 0xE4);
    for row in 0..8 {
        set_tile_row(&mut ppu, 1, row, 0xFF, 0x00);
        set_tile_row(&mut ppu, 2, row, 0x00, 0xFF);
        set_tile_row(&mut ppu, 3, row, 0xFF, 0xFF);
    }
    ppu.write_vram(0x9800, 1);
    ppu.write_vram(0x9801, 2);
    ppu.write_vram(0x9802, 3);
    ppu.write_vram(0x9800 + 32, 3);
    run_dots(&mut ppu, 70224);
    let px = &ppu.graphics_buffer;
    for x in 0..8 {
        assert_eq!(px[x], LIGHT);
        assert_eq!(px[8 + x], DARK);
        assert_eq!(px[16 + x], BLACK);
        assert_eq!(px[24 + x], WHITE);
        assert_eq!(px[7 * 160 + x], LIGHT);
        assert_eq!(px[8 * 160 + x], BLACK);
        assert_eq!(px[8 * 160 + 8 + x], WHITE);
    }
}

#[test]
fn background_pixels_come_leftmost_bit_first() {
    let mut ppu = new_ppu();
    ppu.write_register(0xFF47, 0xE4);
    set_tile_row(&mut ppu, 1, 0, 0b1000_0001, 0b0100_0001);
    ppu.write_vram(0x9800, 1);
    run_dots(&mut ppu, 456);
    let px = &ppu.graphics_buffer;
    assert_eq!(&px[0..8], &[LIGHT, DARK, WHITE, WHITE, WHITE, WHITE, WHITE, BLACK]);
}

#[test]
fn background_scrolls_by_scx_and_scy() {
    let mut ppu = new_ppu();
    ppu.write_register(0xFF47, 0xE4);
    for row in 0..8 {
        set_tile_row(&mut ppu, 1, row, 0xFF, 0xFF);
    }
    ppu.write_vram(0x9800 + 32 + 1, 1);
    ppu.write_register(0xFF43, 11);
    ppu.write_register(0xFF42, 9);
    run_dots(&mut ppu, 456);
    let px = &ppu.graphics_buffer;
    for x in 0..5 {
        assert_eq!(px[x], BLACK);
    }
    assert_eq!(px[5], WHITE);
}

#[test]
fn background_wraps_around_the_map() {
    let mut ppu = new_ppu();
    ppu.write_register(0xFF47, 0xE4);
    for row in 0..8 {
        set_tile_row(&mut ppu, 1, row, 0xFF, 0x00);
    }
    ppu.write_vram(0x9800, 1);
    ppu.write_register(0xFF43, 0xF8);
    ppu.write_register(0xFF42, 0xFF);
    run_dots(&mut ppu, 456 * 2);
    let px = &ppu.graphics_buffer;
    assert_eq!(px[0], WHITE);
    assert_eq!(px[160 + 7], WHITE);
    assert_eq!(px[160 + 8], LIGHT);
    assert_eq!(px[160 + 15], LIGHT);
    assert_eq!(px[160 + 16], WHITE);
}

#[test]
fn signed_tile_addressing_counts_from_0x9000() {
    let mut ppu = new_ppu();
    ppu.write_register(0xFF47, 0xE4);
    ppu.write_register(0xFF40, 0x81);
    ppu.write_vram(0x9000, 0xFF);
    ppu.write_vram(0x8FF0, 0xFF);
    ppu.write_vram(0x8FF1, 0xFF);
    ppu.write_vram(0x9800, 0x00);
    ppu.write_vram(0x9801, 0xFF);
    ppu.write_vram(0x9802, 0x80);
    run_dots(&mut ppu, 456);
    let px = &ppu.graphics_buffer;
    assert_eq!(px[0], LIGHT);
    assert_eq!(px[8], BLACK);
    assert_eq!(px[16], WHITE);
}

#[test]
fn high_background_map_is_chosen_by_lcdc_bit_3() {
    let mut ppu = new_ppu();
    ppu.write_register(0xFF47, 0xE4);
    ppu.write_register(0xFF40, 0x99);
    set_tile_row(&mut ppu, 1, 0, 0xFF, 0x00);
    ppu.write_vram(0x9C00, 1);
    run_dots(&mut ppu, 456);
    assert_eq!(ppu.graphics_buffer[0], LIGHT);
    assert_eq!(ppu.graphics_buffer[8], WHITE);
}

#[test]
fn disabled_background_shows_colour_zero() {
    let mut ppu = new_ppu();
    ppu.write_register(0xFF47, 0xE5);
    ppu.write_register(0xFF40, 0x90);
    set_tile_row(&mut ppu, 0, 0, 0xFF, 0xFF);
    run_dots(&mut ppu, 456);
    assert_eq!(ppu.graphics_buffer[0], LIGHT);
    assert_eq!(ppu.graphics_buffer[159], LIGHT);
}

#[test]
fn window_at_wx_7_starts_in_the_first_column() {
    let mut ppu = new_ppu();
    ppu.write_register(0xFF47, 0xE4);
    ppu.write_register(0xFF40, 0xF1);
    ppu.write_register(0xFF4A, 0);
    ppu.write_register(0xFF4B, 7);
    for row in 0..8 {
        let lo = if row % 2 == 0 { 0xAA } else { 0x55 };
        set_tile_row(&mut ppu, 2, row, lo, 0x00);
    }
    ppu.write_vram(0x9C00, 2);
    run_dots(&mut ppu, 70224);
    let px = &ppu.graphics_buffer;
    assert_eq!(&px[0..8], &[LIGHT, WHITE, LIGHT, WHITE, LIGHT, WHITE, LIGHT, WHITE]);
    assert_eq!(&px[160..168], &[WHITE, LIGHT, WHITE, LIGHT, WHITE, LIGHT, WHITE, LIGHT]);
    assert_eq!(&px[7 * 160..7 * 160 + 8], &[WHITE, LIGHT, WHITE, LIGHT, WHITE, LIGHT, WHITE, LIGHT]);
    for x in 8..160 {
        assert_eq!(px[x], WHITE);
    }
    assert_eq!(&px[8 * 160..8 * 160 + 8], &[WHITE; 8]);
}

#[test]
fn window_covers_the_background_from_wx_and_wy() {
    let mut ppu = new_ppu();
    ppu.write_register(0xFF47, 0xE4);
    ppu.write_register(0xFF40, 0xF1);
    for row in 0..8 {
        set_tile_row(&mut ppu, 1, row, 0xFF, 0x00);
        set_tile_row(&mut ppu, 2, row, 0xFF, 0xFF);
    }
    for i in 0..0x400u16 {
        ppu.write_vram(0x9800 + i, 1);
        ppu.write_vram(0x9C00 + i, 2);
    }
    ppu.write_register(0xFF4A, 2);
    ppu.write_register(0xFF4B, 7 + 16);
    run_dots(&mut ppu, 70224);
    let px = &ppu.graphics_buffer;
    assert_eq!(px[0], LIGHT);
    assert_eq!(px[160 + 100], LIGHT);
    assert_eq!(px[2 * 160 + 15], LIGHT);
    assert_eq!(px[2 * 160 + 16], BLACK);
    assert_eq!(px[2 * 160 + 159], BLACK);
    assert_eq!(px[143 * 160 + 15], LIGHT);
    assert_eq!(px[143 * 160 + 16], BLACK);
}

#[test]
fn window_line_counts_only_lines_that_showed_it() {
    let mut ppu = new_ppu();
    ppu.write_register(0xFF40, 0xF1);
    ppu.write_register(0xFF4A, 10);
    ppu.write_register(0xFF4B, 7);
    run_dots(&mut ppu, 456 * 10);
    assert_eq!(ppu.window_line_counter, 0);
    run_dots(&mut ppu, 456 * 5);
    assert_eq!(ppu.window_line_counter, 5);
    run_dots(&mut ppu, 456 * 129);
    assert_eq!(ppu.window_line_counter, 0);
    assert_eq!(ppu.read_register(0xFF44), 144);
}

#[test]
fn lines_with_a_window_still_take_456_dots() {
    let mut ppu = new_ppu();
    ppu.write_register(0xFF40, 0xF1);
    ppu.write_register(0xFF4B, 90);
    ppu.write_register(0xFF43, 7);
    for line in 0..154u32 {
        assert_eq!(ppu.read_register(0xFF44) as u32, line);
        run_dots(&mut ppu, 456);
    }
    assert_eq!(ppu.read_register(0xFF44), 0);
}

#[test]
fn sprite_is_drawn_over_the_background() {
    let mut ppu = new_ppu();
    ppu.write_register(0xFF48, 0xE4);
    set_tile_row(&mut ppu, 3, 0, 0b1111_0000, 0b1100_1100);
    set_sprite(&mut ppu, 0, 16, 8, 3, 0x00);
    run_dots(&mut ppu, 456);
    let px = &ppu.graphics_buffer;
    assert_eq!(&px[0..8], &[BLACK, BLACK, LIGHT, LIGHT, DARK, DARK, WHITE, WHITE]);
    assert_eq!(px[8], WHITE);
}

#[test]
fn sprite_palette_is_chosen_by_attribute_bit_4() {
    let mut ppu = new_ppu();
    ppu.write_register(0xFF48, 0xE4);
    ppu.write_register(0xFF49, 0x1B);
    set_tile_row(&mut ppu, 3, 0, 0xFF, 0x00);
    set_sprite(&mut ppu, 0, 16, 8, 3, 0x10);
    set_sprite(&mut ppu, 1, 16, 24, 3, 0x00);
    run_dots(&mut ppu, 456);
    let px = &ppu.graphics_buffer;
    assert_eq!(px[0], DARK);
    assert_eq!(px[16], LIGHT);
}

#[test]
fn sprite_flips_horizontally_and_vertically() {
    let mut ppu = new_ppu();
    ppu.write_register(0xFF48, 0xE4);
    set_tile_row(&mut ppu, 3, 0, 0b1000_0000, 0x00);
    set_tile_row(&mut ppu, 3, 7, 0b0000_0001, 0b0000_0001);
    set_sprite(&mut ppu, 0, 16, 8, 3, 0x20);
    set_sprite(&mut ppu, 1, 16, 24, 3, 0x40);
    set_sprite(&mut ppu, 2, 16, 40, 3, 0x60);
    run_dots(&mut ppu, 456);
    let px = &ppu.graphics_buffer;
    assert_eq!(px[0], WHITE);
    assert_eq!(px[7], LIGHT);
    assert_eq!(px[16], WHITE);
    assert_eq!(px[23], BLACK);
    assert_eq!(px[32], BLACK);
    assert_eq!(px[39], WHITE);
}

#[test]
fn sprite_behind_background_shows_only_over_colour_zero() {
    let mut ppu = new_ppu();
    ppu.write_register(0xFF47, 0xE4);
    ppu.write_register(0xFF48, 0xE4);
    set_tile_row(&mut ppu, 1, 0, 0xF0, 0x00);
    set_tile_row(&mut ppu, 3, 0, 0xFF, 0xFF);
    ppu.write_vram(0x9800, 1);
    set_sprite(&mut ppu, 0, 16, 8, 3, 0x80);
    run_dots(&mut ppu, 456);
    let px = &ppu.graphics_buffer;
    assert_eq!(&px[0..8], &[LIGHT, LIGHT, LIGHT, LIGHT, BLACK, BLACK, BLACK, BLACK]);
}

#[test]
fn sprite_with_lower_x_wins_and_table_order_breaks_ties() {
    let mut ppu = new_ppu();
    ppu.write_register(0xFF48, 0xE4);
    set_tile_row(&mut ppu, 1, 0, 0xFF, 0x00);
    set_tile_row(&mut ppu, 2, 0, 0x00, 0xFF);
    set_tile_row(&mut ppu, 3, 0, 0xFF, 0xFF);
    set_sprite(&mut ppu, 0, 16, 12, 1, 0x00);
    set_sprite(&mut ppu, 1, 16, 8, 2, 0x00);
    set_sprite(&mut ppu, 2, 16, 40, 3, 0x00);
    set_sprite(&mut ppu, 3, 16, 40, 1, 0x00);
    run_dots(&mut ppu, 456);
    let px = &ppu.graphics_buffer;
    assert_eq!(&px[0..8], &[DARK; 8]);
    assert_eq!(&px[8..12], &[LIGHT; 4]);
    assert_eq!(px[12], WHITE);
    assert_eq!(&px[32..40], &[BLACK; 8]);
}

#[test]
fn transparent_sprite_pixels_let_later_sprites_through() {
    let mut ppu = new_ppu();
    ppu.write_register(0xFF48, 0xE4);
    set_tile_row(&mut ppu, 1, 0, 0xF0, 0x00);
    set_tile_row(&mut ppu, 2, 0, 0x00, 0xFF);
    set_sprite(&mut ppu, 0, 16, 8, 1, 0x00);
    set_sprite(&mut ppu, 1, 16, 8, 2, 0x00);
    run_dots(&mut ppu, 456);
    let px = &ppu.graphics_buffer;
    assert_eq!(&px[0..8], &[LIGHT, LIGHT, LIGHT, LIGHT, DARK, DARK, DARK, DARK]);
}

#[test]
fn only_ten_sprites_per_line_are_kept() {
    let mut ppu = new_ppu();
    ppu.write_register(0xFF48, 0xE4);
    set_tile_row(&mut ppu, 1, 0, 0xFF, 0xFF);
    for i in 0..12u16 {
        set_sprite(&mut ppu, i, 16, 8 + 8 * i as u8, 1, 0x00);
    }
    run_dots(&mut ppu, 456);
    let px = &ppu.graphics_buffer;
    assert_eq!(ppu.sprite_count, 10);
    assert_eq!(px[79], BLACK);
    assert_eq!(px[80], WHITE);
    assert_eq!(px[95], WHITE);
}

#[test]
fn sprites_partly_off_screen_are_clipped() {
    let mut ppu = new_ppu();
    ppu.write_register(0xFF48, 0xE4);
    set_tile_row(&mut ppu, 1, 0, 0xFF, 0xFF);
    set_sprite(&mut ppu, 0, 16, 4, 1, 0x00);
    set_sprite(&mut ppu, 1, 16, 164, 1, 0x00);
    set_sprite(&mut ppu, 2, 16, 0, 1, 0x00);
    set_sprite(&mut ppu, 3, 16, 168, 1, 0x00);
    run_dots(&mut ppu, 456);
    let px = &ppu.graphics_buffer;
    assert_eq!(&px[0..4], &[BLACK; 4]);
    assert_eq!(px[4], WHITE);
    assert_eq!(px[155], WHITE);
    assert_eq!(&px[156..160], &[BLACK; 4]);
}

#[test]
fn tall_sprites_use_an_even_and_an_odd_tile() {
    let mut ppu = new_ppu();
    ppu.write_register(0xFF48, 0xE4);
    ppu.write_register(0xFF40, 0x95);
    set_tile_row(&mut ppu, 4, 0, 0xFF, 0x00);
    set_tile_row(&mut ppu, 5, 0, 0x00, 0xFF);
    set_sprite(&mut ppu, 0, 16, 8, 5, 0x00);
    run_dots(&mut ppu, 456 * 9);
    let px = &ppu.graphics_buffer;
    assert_eq!(px[0], LIGHT);
    assert_eq!(px[8 * 160], DARK);
    assert_eq!(px[160], WHITE);
}

#[test]
fn sprites_are_kept_sorted_by_x() {
    let mut ppu = new_ppu();
    set_sprite(&mut ppu, 0, 16, 50, 0, 0);
    set_sprite(&mut ppu, 1, 16, 20, 1, 0);
    set_sprite(&mut ppu, 2, 16, 50, 2, 0);
    set_sprite(&mut ppu, 3, 16, 10, 3, 0);
    set_sprite(&mut ppu, 4, 100, 5, 4, 0);
    for i in 5..40 {
        set_sprite(&mut ppu, i, 200, 0, 9, 0);
    }
    run_dots(&mut ppu, 80);
    assert_eq!(ppu.sprite_count, 4);
    let tiles: Vec<u8> = ppu.sprite_buffer[..4].iter().map(|s| s.tile_index).collect();
    assert_eq!(tiles, vec![3, 1, 0, 2]);
    let xs: Vec<u8> = ppu.sprite_buffer[..4].iter().map(|s| s.x).collect();
    assert_eq!(xs, vec![10, 20, 50, 50]);
}

#[test]
fn sprite_is_a_candidate_from_sixteen_lines_above_to_its_last_row() {
    for (y, line, expected) in [
        (16u8, 0u32, 1u8),
        (16, 7, 1),
        (16, 23, 1),
        (16, 24, 0),
        (40, 23, 0),
        (40, 24, 1),
        (40, 47, 1),
        (40, 48, 0),
        (0, 7, 1),
        (0, 8, 0),
    ] {
        let mut ppu = new_ppu();
        for i in 0..40 {
            set_sprite(&mut ppu, i, 255, 0, 0, 0);
        }
        set_sprite(&mut ppu, 0, y, 8, 0, 0);
        run_dots(&mut ppu, 456 * line + 80);
        assert_eq!(ppu.sprite_count, expected, "y {} line {}", y, line);
    }
}

#[test]
fn resolve_pixel_color_looks_up_the_palette() {
    let mut ppu = new_ppu();
    ppu.write_register(0xFF47, 0b00_01_10_11);
    ppu.write_register(0xFF48, 0b11_10_01_00);
    ppu.write_register(0xFF49, 0b01_01_01_01);
    let shades = [WHITE, LIGHT, DARK, BLACK];
    for color in 0..4u8 {
        assert_eq!(ppu.resolve_pixel_color(Pixel::new(color, 0, false, false)), shades[3 - color as usize]);
        assert_eq!(ppu.resolve_pixel_color(Pixel::new(color, 1, false, true)), shades[color as usize]);
        assert_eq!(ppu.resolve_pixel_color(Pixel::new(color, 2, false, true)), LIGHT);
    }
}

#[test]
fn pixel_queue_is_first_in_first_out() {
    let mut q = PixelQueue::new();
    assert_eq!(q.len(), 0);
    assert!(q.pop().is_none());
    for round in 0..3u8 {
        for i in 0..16u8 {
            assert!(q.push(Pixel::new(i % 4, round, false, false)));
        }
        assert_eq!(q.len(), 16);
        assert!(!q.push(Pixel::new(0, 9, false, false)));
        assert_eq!(q.len(), 16);
        for i in 0..10u8 {
            assert_eq!(q.pop(), Some(Pixel::new(i % 4, round, false, false)));
        }
        assert_eq!(q.len(), 6);
        q.clear();
        assert_eq!(q.len(), 0);
        assert!(q.pop().is_none());
    }
    assert!(q.push(Pixel::new(1, 1, true, true)));
    assert!(q.push(Pixel::new(2, 2, false, true)));
    assert_eq!(q.pop(), Some(Pixel::new(1, 1, true, true)));
    assert_eq!(q.pop(), Some(Pixel::new(2, 2, false, true)));
    assert_eq!(q.pop(), None);
}

#[test]
fn pixel_and_sprite_constructors_keep_their_fields() {
    let p = Pixel::new(3, 2, true, true);
    assert_eq!((p.color, p.palette_register, p.bg_priority, p.is_sprite), (3, 2, true, true));
    let s = Sprite::new(1, 2, 3, 4);
    assert_eq!((s.y, s.x, s.tile_index, s.attributes), (1, 2, 3, 4));
}

#[test]
fn fetcher_addresses() {
    let mut f = Fetcher::new();
    assert_eq!(f.get_bg_map_address(0, 0, 0x00), 0x1800);
    assert_eq!(f.get_bg_map_address(31, 31, 0x00), 0x1BFF);
    assert_eq!(f.get_bg_map_address(3, 2, 0x08), 0x1C00 + 67);
    assert_eq!(f.get_bg_map_address(3, 2, 0x40), 0x1800 + 67);
    f.start_fetching_window(17);
    assert_eq!(f.get_bg_map_address(3, 2, 0x40), 0x1C00 + 67);
    assert_eq!(f.get_bg_map_address(3, 2, 0x08), 0x1800 + 67);
    assert_eq!(f.get_tile_data_address(0, 0, 0x10), 0x0000);
    assert_eq!(f.get_tile_data_address(255, 7, 0x10), 0x0FFE);
    assert_eq!(f.get_tile_data_address(0, 0, 0x00), 0x1000);
    assert_eq!(f.get_tile_data_address(127, 7, 0x00), 0x17FE);
    assert_eq!(f.get_tile_data_address(128, 0, 0x00), 0x0800);
    assert_eq!(f.get_tile_data_address(255, 3, 0x00), 0x0FF6);
}

#[test]
fn fetcher_takes_six_dots_to_its_first_push() {
    let mut f = Fetcher::new();
    let mut q = PixelQueue::new();
    let mut vram = [0u8; 8192];
    vram[0x1800] = 5;
    vram[5 * 16] = 0b1010_0000;
    vram[5 * 16 + 1] = 0b0110_0000;
    let states = [
        FetcherState::GetTile,
        FetcherState::GetDataLow,
        FetcherState::GetDataLow,
        FetcherState::GetDataHigh,
        FetcherState::GetDataHigh,
        FetcherState::Push,
    ];
    for expected in states {
        f.tick(&mut q, &vram, 0x91, 0, 0);
        assert_eq!(f.state, expected);
        assert_eq!(q.len(), 0);
    }
    assert_eq!((f.tile_index, f.data_lo, f.data_hi), (5, 0b1010_0000, 0b0110_0000));
    f.tick(&mut q, &vram, 0x91, 0, 0);
    assert_eq!(f.state, FetcherState::GetTile);
    assert_eq!(f.map_x, 1);
    assert_eq!(q.len(), 8);
    let colors: Vec<u8> = (0..8).map(|_| q.pop().unwrap().color).collect();
    assert_eq!(colors, vec![1, 2, 3, 0, 0, 0, 0, 0]);
}

#[test]
fn fetcher_waits_while_the_queue_holds_more_than_eight() {
    let mut f = Fetcher::new();
    let mut q = PixelQueue::new();
    let vram = [0u8; 8192];
    for _ in 0..9 {
        q.push(Pixel::new(0, 0, false, false));
    }
    for _ in 0..6 {
        f.tick(&mut q, &vram, 0x91, 0, 0);
    }
    assert_eq!(f.state, FetcherState::Push);
    for _ in 0..5 {
        f.tick(&mut q, &vram, 0x91, 0, 0);
        assert_eq!(f.state, FetcherState::Push);
        assert_eq!(q.len(), 9);
    }
    q.pop();
    f.tick(&mut q, &vram, 0x91, 0, 0);
    assert_eq!(f.state, FetcherState::GetTile);
    assert_eq!(q.len(), 16);
}

#[test]
fn fetcher_map_column_wraps_at_32() {
    let mut f = Fetcher::new();
    let mut q = PixelQueue::new();
    let vram = [0u8; 8192];
    f.map_x = 31;
    for _ in 0..7 {
        f.tick(&mut q, &vram, 0x91, 0, 0);
    }
    assert_eq!(f.map_x, 0);
}
