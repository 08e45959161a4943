//! The pixel-processing unit: a scanline state machine that scans the sprite
//! table, runs the background fetcher and the pixel queue, and writes one
//! pixel per dot into the frame.

use vstd::prelude::*;
use crate::bits::{bit_is_set, bit_value, test_bit};
use crate::io::ppu::fetcher::{Fetcher, FetcherState};
use crate::io::ppu::pixel::{Pixel, PixelQueue};
use crate::io::ppu::sprite::Sprite;

pub mod fetcher;
pub mod pixel;
pub mod sprite;

verus! {

pub const SCREEN_WIDTH: usize = 160;

pub const SCREEN_HEIGHT: usize = 144;

/// Pixels in a frame.
pub const FRAME_SIZE: usize = 23040;

/// Dots in a scanline.
pub const DOTS_PER_LINE: u32 = 456;

/// Dots that the sprite scan takes at the start of a line.
pub const SCAN_DOTS: u32 = 80;

pub const LCDC: u16 = 0xFF40;

pub const STAT: u16 = 0xFF41;

pub const SCY: u16 = 0xFF42;

pub const SCX: u16 = 0xFF43;

pub const LY: u16 = 0xFF44;

pub const LYC: u16 = 0xFF45;

pub const BGP: u16 = 0xFF47;

pub const OBP0: u16 = 0xFF48;

pub const OBP1: u16 = 0xFF49;

pub const WY: u16 = 0xFF4A;

pub const WX: u16 = 0xFF4B;

pub const OAM_START: u16 = 0xFE00;

pub const OAM_END: u16 = 0xFE9F;

/// The colour 0xAARRGGBB with full alpha.
pub open spec fn rgb_spec(r: u8, g: u8, b: u8) -> u32 {
    (0xFF00_0000 + r * 0x1_0000 + g * 0x100 + b) as u32
}

pub fn rgb(r: u8, g: u8, b: u8) -> (c: u32)
    ensures
        c == rgb_spec(r, g, b),
{
    0xFF00_0000 + (r as u32) * 0x1_0000 + (g as u32) * 0x100 + (b as u32)
}

/// The four shades of the screen: white, light gray, dark gray, black.
pub open spec fn shade(index: u8) -> u32 {
    if index == 0 {
        0xFFFF_FFFF
    } else if index == 1 {
        0xFFAA_AAAA
    } else if index == 2 {
        0xFF55_5555
    } else {
        0xFF00_0000
    }
}

/// The shade that a palette register gives to colour number `color`.
pub open spec fn palette_entry(register: u8, color: u8) -> u8 {
    if color % 4 == 0 {
        register % 4
    } else if color % 4 == 1 {
        (register / 4) % 4
    } else if color % 4 == 2 {
        (register / 16) % 4
    } else {
        register / 64
    }
}

#[derive(Clone, Copy, Debug, PartialEq, Eq, Structural)]
pub enum PpuMode {
    HorizontalBlank,
    VerticalBlank,
    OAMScan,
    DrawingPixels,
}

impl PpuMode {
    /// The mode as the low two bits of STAT show it.
    pub open spec fn number(self) -> u8 {
        match self {
            PpuMode::HorizontalBlank => 0,
            PpuMode::VerticalBlank => 1,
            PpuMode::OAMScan => 2,
            PpuMode::DrawingPixels => 3,
        }
    }
}

/// The height of every sprite, 8 or 16, by bit 2 of LCDC.
pub open spec fn sprite_height(r_lcdc: u8) -> u8 {
    if (r_lcdc / 4) % 2 == 1 {
        16
    } else {
        8
    }
}

/// Entry `i` of the sprite table.
pub open spec fn sprite_at(oam: Seq<u8>, i: int) -> Sprite {
    Sprite { y: oam[4 * i], x: oam[4 * i + 1], tile_index: oam[4 * i + 2], attributes: oam[4 * i + 3] }
}

/// Whether a sprite is a candidate for line `ly`.
pub open spec fn on_line(s: Sprite, ly: u8, height: u8) -> bool {
    ly + 16 >= s.y && ly < s.y + height
}

/// The candidates among the first `n` entries of the sprite table, in table
/// order, cut off after the tenth.
pub open spec fn candidates(oam: Seq<u8>, ly: u8, height: u8, n: nat) -> Seq<Sprite>
    decreases n,
{
    if n == 0 {
        Seq::empty()
    } else {
        let before = candidates(oam, ly, height, (n - 1) as nat);
        if before.len() < 10 && on_line(sprite_at(oam, n - 1), ly, height) {
            before.push(sprite_at(oam, n - 1))
        } else {
            before
        }
    }
}

/// `s`, which is ordered by X, with `sp` put behind every sprite whose X is
/// not greater.
pub open spec fn insert_by_x(s: Seq<Sprite>, sp: Sprite) -> Seq<Sprite>
    decreases s.len(),
{
    if s.len() == 0 {
        seq![sp]
    } else if s.last().x <= sp.x {
        s.push(sp)
    } else {
        insert_by_x(s.drop_last(), sp).push(s.last())
    }
}

/// `s` ordered by X ascending; sprites with equal X keep their order.
pub open spec fn sort_by_x(s: Seq<Sprite>) -> Seq<Sprite>
    decreases s.len(),
{
    if s.len() == 0 {
        s
    } else {
        insert_by_x(sort_by_x(s.drop_last()), s.last())
    }
}

/// Whether `s` is ordered by X ascending.
pub open spec fn ordered_by_x(s: Seq<Sprite>) -> bool {
    forall|i: int, j: int| 0 <= i < j < s.len() ==> s[i].x <= s[j].x
}

/// The row of its tile data that a sprite shows on line `ly`, after the
/// vertical flip of attribute bit 6.
pub open spec fn sprite_row(s: Sprite, ly: u8, height: u8) -> u8 {
    let row = ((ly + 16 - s.y) % 256) as u8;
    if bit_is_set(s.attributes, 6) {
        ((height - 1 - row) % 256) as u8
    } else {
        row
    }
}

/// Where in video RAM the low byte of that row lies. Sprites of height 16
/// use an even tile for rows 0..8 and the odd tile after it for the rest.
pub open spec fn sprite_data_address(s: Sprite, ly: u8, height: u8) -> int {
    let row = sprite_row(s, ly, height);
    if height == 16 {
        if row >= 8 {
            (s.tile_index - s.tile_index % 2 + 1) * 16 + (row - 8) * 2
        } else {
            (s.tile_index - s.tile_index % 2) * 16 + row * 2
        }
    } else {
        s.tile_index * 16 + row * 2
    }
}

/// The colour number that a sprite shows at screen column `x` of line `ly`;
/// 0, which is transparent, where the sprite does not reach.
pub open spec fn sprite_color_at(vram: Seq<u8>, s: Sprite, ly: u8, height: u8, x: int) -> u8 {
    let bit = x - (s.x - 8);
    if 0 <= bit < 8 {
        let shift = if bit_is_set(s.attributes, 5) { bit as u8 } else { (7 - bit) as u8 };
        let addr = sprite_data_address(s, ly, height);
        (2 * bit_value(vram[addr + 1], shift) + bit_value(vram[addr], shift)) as u8
    } else {
        0
    }
}

/// A sprite's pixel of colour `color`: palette OBP1 when attribute bit 4 is
/// set, else OBP0; behind the background when bit 7 is set.
pub open spec fn sprite_pixel(s: Sprite, color: u8) -> Pixel {
    Pixel {
        color,
        palette_register: if bit_is_set(s.attributes, 4) { 2 } else { 1 },
        bg_priority: bit_is_set(s.attributes, 7),
        is_sprite: true,
    }
}

/// The sprite pixel at screen column `x`: that of the first sprite in
/// `sprites` which is not transparent there, if any.
pub open spec fn line_pixel(
    sprites: Seq<Sprite>,
    vram: Seq<u8>,
    ly: u8,
    height: u8,
    x: int,
) -> Option<Pixel>
    decreases sprites.len(),
{
    if sprites.len() == 0 {
        None
    } else {
        match line_pixel(sprites.drop_last(), vram, ly, height, x) {
            Some(p) => Some(p),
            None => {
                let color = sprite_color_at(vram, sprites.last(), ly, height, x);
                if color != 0 {
                    Some(sprite_pixel(sprites.last(), color))
                } else {
                    None
                }
            },
        }
    }
}

/// The pixel that reaches the screen where the background shows `bg` and
/// the sprites show `sprite`. With bit 0 of LCDC clear the background is
/// colour 0. A sprite pixel wins unless it is behind a background that is
/// not colour 0.
pub open spec fn merged(bg: Pixel, sprite: Option<Pixel>, r_lcdc: u8) -> Pixel {
    let back = if r_lcdc % 2 == 0 { Pixel { color: 0, ..bg } } else { bg };
    match sprite {
        Some(sp) => if sp.bg_priority && back.color != 0 {
            back
        } else {
            sp
        },
        None => back,
    }
}

/// The unit as contracts see it.
pub struct PpuState {
    pub vram: Seq<u8>,
    pub oam: Seq<u8>,
    pub lcdc: u8,
    /// Bits 6..3 of STAT as written; the rest is made up on reading.
    pub stat: u8,
    pub scy: u8,
    pub scx: u8,
    pub ly: u8,
    pub lyc: u8,
    pub bgp: u8,
    pub obp0: u8,
    pub obp1: u8,
    pub wy: u8,
    pub wx: u8,
    /// Dots spent in the current line.
    pub dots: u32,
    pub mode: PpuMode,
    /// The screen column of the next pixel.
    pub lx: u8,
    pub queue: Seq<Pixel>,
    pub fetcher: Fetcher,
    /// The sprites of the current line, ordered by X, then by table order.
    pub sprites: Seq<Sprite>,
    /// The sprite pixel of each screen column of the current line.
    pub line: Seq<Option<Pixel>>,
    /// Pixels still to drop at the start of the line for fine scrolling.
    pub discarded: u8,
    /// Window lines drawn so far in this frame.
    pub window_line: u8,
    /// The STAT interrupt line as of the last dot.
    pub stat_line: bool,
    pub frame: Seq<u32>,
}

impl PpuState {
    pub open spec fn power_on() -> PpuState {
        PpuState {
            vram: Seq::new(8192, |i: int| 0u8),
            oam: Seq::new(160, |i: int| 0u8),
            lcdc: 0x91,
            stat: 0,
            scy: 0,
            scx: 0,
            ly: 0,
            lyc: 0,
            bgp: 0xFC,
            obp0: 0xFF,
            obp1: 0xFF,
            wy: 0,
            wx: 0,
            dots: 0,
            mode: PpuMode::OAMScan,
            lx: 0,
            queue: Seq::empty(),
            fetcher: Fetcher::power_on(),
            sprites: Seq::empty(),
            line: Seq::new(160, |i: int| None::<Pixel>),
            discarded: 0,
            window_line: 0,
            stat_line: false,
            frame: Seq::new(23040, |i: int| 0xFFFF_FFFFu32),
        }
    }

    /// Dots until the fetcher next tries to push a tile row.
    pub open spec fn fill_wait(self) -> int {
        match self.fetcher.state {
            FetcherState::GetTile => 7 - self.fetcher.cycles,
            FetcherState::GetDataLow => 5 - self.fetcher.cycles,
            FetcherState::GetDataHigh => 3 - self.fetcher.cycles,
            FetcherState::Push => 1,
        }
    }

    /// Whether the queue will not run dry before the fetcher refills it.
    pub open spec fn flowing(self) -> bool {
        self.queue.len() >= self.fill_wait()
    }

    /// An upper bound on the dots that the drawing of this line still
    /// takes: one per pixel to pop, the wait for the first tile row while
    /// the queue is empty, and the restart that a window may still cause.
    pub open spec fn drawing_budget(self) -> int {
        (160 - self.lx) + self.discarded + (if self.flowing() { 0 } else { self.fill_wait() }) + (
        if self.fetcher.fetching_window { 0int } else { 8int })
    }

    pub open spec fn wf(self) -> bool {
        &&& self.vram.len() == 8192
        &&& self.oam.len() == 160
        &&& self.line.len() == 160
        &&& self.frame.len() == 23040
        &&& self.queue.len() <= 16
        &&& self.sprites.len() <= 10
        &&& self.fetcher.wf()
        &&& self.dots < 456
        &&& self.stat <= 0x78
        &&& match self.mode {
            PpuMode::OAMScan => self.ly <= 143 && self.dots < 80 && self.window_line <= self.ly,
            PpuMode::DrawingPixels => {
                &&& self.ly <= 143
                &&& self.dots >= 80
                &&& self.lx < 160
                &&& self.discarded <= 7
                &&& self.window_line <= self.ly
                &&& (self.queue.len() == 0 || self.flowing())
                &&& self.dots + self.drawing_budget() <= 262
            },
            PpuMode::HorizontalBlank => self.ly <= 143 && self.dots >= 80 && self.window_line
                <= self.ly + 1,
            PpuMode::VerticalBlank => 144 <= self.ly <= 153 && self.window_line == 0,
        }
    }

    /// How many dots of the frame have passed.
    pub open spec fn frame_position(self) -> int {
        self.ly * 456 + self.dots
    }

    /// Dots until the unit next enters vertical blank, 1..=70224.
    pub open spec fn dots_to_vblank(self) -> int {
        if self.frame_position() < 65664 {
            65664 - self.frame_position()
        } else {
            65664 + 70224 - self.frame_position()
        }
    }

    /// The interrupt line of STAT: the OR of the sources that bits 6..3
    /// enable, which are LY = LYC, sprite scan, vertical blank and
    /// horizontal blank.
    pub open spec fn stat_signal(self) -> bool {
        ||| (self.stat / 64) % 2 == 1 && self.ly == self.lyc
        ||| (self.stat / 32) % 2 == 1 && self.mode == PpuMode::OAMScan
        ||| (self.stat / 16) % 2 == 1 && self.mode == PpuMode::VerticalBlank
        ||| (self.stat / 8) % 2 == 1 && self.mode == PpuMode::HorizontalBlank
    }

    /// Whether the next dot requests the STAT interrupt: the line rises.
    pub open spec fn stat_rises(self) -> bool {
        self.stat_signal() && !self.stat_line
    }

    /// Whether the next dot enters vertical blank, which requests that
    /// interrupt.
    pub open spec fn enters_vblank(self) -> bool {
        self.mode == PpuMode::HorizontalBlank && self.dots + 1 >= 456 && self.ly + 1 == 144
    }

    /// The 32-bit colour in which a pixel is shown.
    pub open spec fn resolve(self, pixel: Pixel) -> u32 {
        let register = if pixel.palette_register == 0 {
            self.bgp
        } else if pixel.palette_register == 1 {
            self.obp0
        } else {
            self.obp1
        };
        shade(palette_entry(register, pixel.color))
    }

    /// The start of drawing: the sprites of the line are chosen and laid
    /// out, and fetcher, queue and counters are set for column 0.
    pub open spec fn drawing_begun(self) -> PpuState {
        let height = sprite_height(self.lcdc);
        let sprites = sort_by_x(candidates(self.oam, self.ly, height, 40));
        PpuState {
            sprites,
            line: Seq::new(160, |x: int| line_pixel(sprites, self.vram, self.ly, height, x)),
            fetcher: self.fetcher.line_started(self.scx),
            queue: Seq::empty(),
            discarded: self.scx % 8,
            lx: 0,
            mode: PpuMode::DrawingPixels,
            ..self
        }
    }

    /// Whether the window starts on this dot: it is enabled by bit 5 of
    /// LCDC, the line has reached WY, the column has reached WX - 7, and it
    /// has not started on this line yet.
    pub open spec fn window_starts(self) -> bool {
        &&& (self.lcdc / 32) % 2 == 1
        &&& !self.fetcher.fetching_window
        &&& self.ly >= self.wy
        &&& self.lx + 7 >= self.wx
    }

    /// The unit with the fetcher restarted on the window and the queue
    /// emptied, where the window starts.
    pub open spec fn window_checked(self) -> PpuState {
        if self.window_starts() {
            PpuState {
                fetcher: self.fetcher.window_started(self.window_line),
                queue: Seq::empty(),
                ..self
            }
        } else {
            self
        }
    }

    /// The unit after the fetcher's dot.
    pub open spec fn fetched(self) -> PpuState {
        PpuState {
            fetcher: self.fetcher.tick_spec(self.queue, self.vram, self.lcdc, self.scy, self.ly),
            queue: self.fetcher.queue_after(self.queue),
            ..self
        }
    }

    /// The unit after the oldest pixel left the queue: dropped while pixels
    /// remain to discard, else merged with the sprite pixel of the column,
    /// resolved and written to the frame.
    pub open spec fn popped(self) -> PpuState {
        if self.queue.len() == 0 {
            self
        } else if self.discarded > 0 {
            PpuState {
                queue: self.queue.drop_first(),
                discarded: (self.discarded - 1) as u8,
                ..self
            }
        } else {
            PpuState {
                queue: self.queue.drop_first(),
                frame: self.frame.update(
                    self.ly * 160 + self.lx,
                    self.resolve(merged(self.queue[0], self.line[self.lx as int], self.lcdc)),
                ),
                lx: (self.lx + 1) as u8,
                ..self
            }
        }
    }

    /// The unit at the end of a drawing dot: once column 160 is reached the
    /// line goes to horizontal blank, and a line that showed the window
    /// counts as a window line.
    pub open spec fn line_closed(self) -> PpuState {
        if self.lx >= 160 {
            PpuState {
                mode: PpuMode::HorizontalBlank,
                window_line: if self.fetcher.fetching_window {
                    (self.window_line + 1) as u8
                } else {
                    self.window_line
                },
                ..self
            }
        } else {
            self
        }
    }

    /// One dot of drawing.
    pub open spec fn drawn(self) -> PpuState {
        self.window_checked().fetched().popped().line_closed()
    }

    /// The start of the next line, after dot 455. Line 143 leads into
    /// vertical blank, where the window line count starts over; line 153
    /// leads back to line 0.
    pub open spec fn line_advanced(self) -> PpuState {
        if self.mode == PpuMode::VerticalBlank {
            if self.ly >= 153 {
                PpuState { dots: 0, ly: 0, mode: PpuMode::OAMScan, ..self }
            } else {
                PpuState { dots: 0, ly: (self.ly + 1) as u8, ..self }
            }
        } else if self.ly + 1 == 144 {
            PpuState {
                dots: 0,
                ly: 144,
                window_line: 0,
                mode: PpuMode::VerticalBlank,
                ..self
            }
        } else {
            PpuState { dots: 0, ly: (self.ly + 1) as u8, mode: PpuMode::OAMScan, ..self }
        }
    }

    /// The unit after one dot.
    #[verifier::opaque]
    pub open spec fn dot(self) -> PpuState {
        let ticked = PpuState {
            dots: (self.dots + 1) as u32,
            stat_line: self.stat_signal(),
            ..self
        };
        match self.mode {
            PpuMode::OAMScan => if ticked.dots >= 80 {
                ticked.drawing_begun()
            } else {
                ticked
            },
            PpuMode::DrawingPixels => ticked.drawn(),
            _ => if ticked.dots >= 456 {
                ticked.line_advanced()
            } else {
                ticked
            },
        }
    }

    /// The unit after `n` dots.
    pub open spec fn step_spec(self, n: nat) -> PpuState
        decreases n,
    {
        if n == 0 {
            self
        } else {
            self.step_spec((n - 1) as nat).dot()
        }
    }

    /// Whether one of the next `n` dots enters vertical blank.
    pub open spec fn vblank_within(self, n: nat) -> bool
        decreases n,
    {
        if n == 0 {
            false
        } else {
            self.vblank_within((n - 1) as nat) || self.step_spec((n - 1) as nat).enters_vblank()
        }
    }

    /// Whether one of the next `n` dots raises the STAT line.
    pub open spec fn stat_within(self, n: nat) -> bool
        decreases n,
    {
        if n == 0 {
            false
        } else {
            self.stat_within((n - 1) as nat) || self.step_spec((n - 1) as nat).stat_rises()
        }
    }

    /// What a register reads as. STAT shows bit 7 set, the enable bits as
    /// written, bit 2 while LY = LYC, and the mode in bits 1..0. Addresses
    /// that name no register read 0xFF.
    pub open spec fn read_register(self, addr: u16) -> u8 {
        if addr == LCDC {
            self.lcdc
        } else if addr == STAT {
            (0x80 + self.stat + (if self.ly == self.lyc { 4int } else { 0int })
                + self.mode.number()) as u8
        } else if addr == SCY {
            self.scy
        } else if addr == SCX {
            self.scx
        } else if addr == LY {
            self.ly
        } else if addr == LYC {
            self.lyc
        } else if addr == BGP {
            self.bgp
        } else if addr == OBP0 {
            self.obp0
        } else if addr == OBP1 {
            self.obp1
        } else if addr == WY {
            self.wy
        } else if addr == WX {
            self.wx
        } else {
            0xFF
        }
    }

    /// The unit after a register write. Of STAT only bits 6..3 are kept; LY
    /// cannot be written; addresses that name no register change nothing.
    pub open spec fn write_register(self, addr: u16, value: u8) -> PpuState {
        if addr == LCDC {
            PpuState { lcdc: value, ..self }
        } else if addr == STAT {
            PpuState { stat: (((value / 8) % 16) * 8) as u8, ..self }
        } else if addr == SCY {
            PpuState { scy: value, ..self }
        } else if addr == SCX {
            PpuState { scx: value, ..self }
        } else if addr == LYC {
            PpuState { lyc: value, ..self }
        } else if addr == BGP {
            PpuState { bgp: value, ..self }
        } else if addr == OBP0 {
            PpuState { obp0: value, ..self }
        } else if addr == OBP1 {
            PpuState { obp1: value, ..self }
        } else if addr == WY {
            PpuState { wy: value, ..self }
        } else if addr == WX {
            PpuState { wx: value, ..self }
        } else {
            self
        }
    }

    pub open spec fn read_vram(self, addr: u16) -> u8 {
        self.vram[(addr % 0x2000) as int]
    }

    pub open spec fn write_vram(self, addr: u16, value: u8) -> PpuState {
        PpuState { vram: self.vram.update((addr % 0x2000) as int, value), ..self }
    }

    pub open spec fn read_oam(self, addr: u16) -> u8 {
        self.oam[addr - OAM_START]
    }

    pub open spec fn write_oam(self, addr: u16, value: u8) -> PpuState {
        PpuState { oam: self.oam.update(addr - OAM_START, value), ..self }
    }
}

pub struct Ppu {
    pub vram: [u8; 8192],
    pub oam: [u8; 160],
    /// 0xFF40: control
    pub r_lcdc: u8,
    /// 0xFF41: bits 6..3 of the status register
    pub r_stat: u8,
    /// 0xFF42: scroll Y
    pub r_scy: u8,
    /// 0xFF43: scroll X
    pub r_scx: u8,
    /// 0xFF44: the current scanline
    pub r_ly: u8,
    /// 0xFF45: the scanline to compare with
    pub r_lyc: u8,
    /// 0xFF47: background palette
    pub r_bgp: u8,
    /// 0xFF48: object palette 0
    pub r_obp0: u8,
    /// 0xFF49: object palette 1
    pub r_obp1: u8,
    /// 0xFF4A: window Y
    pub r_wy: u8,
    /// 0xFF4B: window X plus 7
    pub r_wx: u8,
    pub dots: u32,
    pub mode: PpuMode,
    pub lx: u8,
    pub bg_queue: PixelQueue,
    pub fetcher: Fetcher,
    pub sprite_buffer: [Sprite; 10],
    pub sprite_line_buffer: [Option<Pixel>; 160],
    pub sprite_count: u8,
    pub discarded_pixels: u8,
    pub window_line_counter: u8,
    pub lcd_interrupt_signal: bool,
    pub graphics_buffer: [u32; 23040],
}

impl View for Ppu {
    type V = PpuState;

    open spec fn view(&self) -> PpuState {
        PpuState {
            vram: self.vram@,
            oam: self.oam@,
            lcdc: self.r_lcdc,
            stat: self.r_stat,
            scy: self.r_scy,
            scx: self.r_scx,
            ly: self.r_ly,
            lyc: self.r_lyc,
            bgp: self.r_bgp,
            obp0: self.r_obp0,
            obp1: self.r_obp1,
            wy: self.r_wy,
            wx: self.r_wx,
            dots: self.dots,
            mode: self.mode,
            lx: self.lx,
            queue: self.bg_queue@,
            fetcher: self.fetcher,
            sprites: self.sprite_buffer@.take(self.sprite_count as int),
            line: self.sprite_line_buffer@,
            discarded: self.discarded_pixels,
            window_line: self.window_line_counter,
            stat_line: self.lcd_interrupt_signal,
            frame: self.graphics_buffer@,
        }
    }
}

/// Puts `sp` into the first `count` entries of `buffer`, which are ordered
/// by X, behind every entry whose X is not greater.
#[verifier::rlimit(50)]
fn insert_sprite(buffer: &mut [Sprite; 10], count: u8, sp: Sprite)
    requires
        count < 10,
    ensures
        final(buffer)@.take(count + 1) == insert_by_x(old(buffer)@.take(count as int), sp),
{
    let ghost s = buffer@.take(count as int);
    let mut j: usize = count as usize;
    proof {
        assert(s.take(j as int) =~= s);
        assert(insert_by_x(s.take(j as int), sp) + s.subrange(j as int, count as int)
            =~= insert_by_x(s, sp));
    }
    while j > 0 && buffer[j - 1].x > sp.x
        invariant
            j <= count < 10,
            s == old(buffer)@.take(count as int),
            forall|k: int| 0 <= k < j ==> buffer@[k] == s[k],
            forall|k: int| j <= k < count ==> buffer@[k + 1] == s[k],
            insert_by_x(s, sp) == insert_by_x(s.take(j as int), sp) + s.subrange(
                j as int,
                count as int,
            ),
        decreases j,
    {
        proof {
            let t = s.take(j as int);
            assert(t.last() == s[j - 1]);
            assert(t.drop_last() =~= s.take(j - 1));
            assert(insert_by_x(t, sp) == insert_by_x(s.take(j - 1), sp).push(s[j - 1]));
            assert(insert_by_x(s.take(j - 1), sp).push(s[j - 1]) + s.subrange(
                j as int,
                count as int,
            ) =~= insert_by_x(s.take(j - 1), sp) + s.subrange(j - 1, count as int));
        }
        buffer[j] = buffer[j - 1];
        j = j - 1;
    }
    buffer[j] = sp;
    proof {
        let t = s.take(j as int);
        if j > 0 {
            assert(t.last() == s[j - 1]);
        }
        assert(insert_by_x(t, sp) == t.push(sp));
        assert(buffer@.take(count + 1) =~= t.push(sp) + s.subrange(j as int, count as int));
    }
}

/// Scans the sprite table for the sprites of line `ly`: the first ten
/// candidates in table order, handed back ordered by X.
#[verifier::rlimit(50)]
fn select_sprites(oam: &[u8; 160], ly: u8, height: u8) -> (found: ([Sprite; 10], u8))
    ensures
        found.1 <= 10,
        found.0@.take(found.1 as int) == sort_by_x(candidates(oam@, ly, height, 40)),
{
    let mut buffer = [Sprite::new(0, 0, 0, 0);10];
    let mut count: u8 = 0;
    let mut i: usize = 0;
    proof {
        assert(buffer@.take(0) =~= sort_by_x(candidates(oam@, ly, height, 0)));
    }
    while i < 40
        invariant
            i <= 40,
            count <= 10,
            count == candidates(oam@, ly, height, i as nat).len(),
            buffer@.take(count as int) == sort_by_x(candidates(oam@, ly, height, i as nat)),
        decreases 40 - i,
    {
        let y_pos = oam[i * 4];
        let ghost before = candidates(oam@, ly, height, i as nat);
        if count < 10 && ly as u16 + 16 >= y_pos as u16 && (ly as u16) < y_pos as u16
            + height as u16 {
            let sprite = Sprite::new(y_pos, oam[i * 4 + 1], oam[i * 4 + 2], oam[i * 4 + 3]);
            proof {
                assert(sprite == sprite_at(oam@, i as int));
                assert(before.push(sprite).drop_last() =~= before);
            }
            insert_sprite(&mut buffer, count, sprite);
            count = count + 1;
        }
        i = i + 1;
    }
    (buffer, count)
}

/// The row of its tile data that a sprite shows on line `ly`.
fn sprite_row_of(sp: Sprite, ly: u8, height: u8) -> (row: u8)
    requires
        height == 8 || height == 16,
    ensures
        row == sprite_row(sp, ly, height),
{
    let above: u8 = ((ly as u16 + 272 - sp.y as u16) % 256) as u8;
    assert(above == (ly + 16 - sp.y) % 256);
    if test_bit(sp.attributes, 6) {
        let flipped: u8 = ((height as u16 + 255 - above as u16) % 256) as u8;
        assert(flipped == (height - 1 - above) % 256);
        flipped
    } else {
        above
    }
}

/// The index in video RAM of the low byte of the row that a sprite shows
/// on line `ly`.
fn sprite_row_address(sp: Sprite, ly: u8, height: u8) -> (addr: usize)
    requires
        height == 8 || height == 16,
    ensures
        addr == sprite_data_address(sp, ly, height),
        addr + 1 < 8192,
{
    let row = sprite_row_of(sp, ly, height);
    if height == 16 {
        let top = (sp.tile_index - sp.tile_index % 2) as usize;
        if row >= 8 {
            (top + 1) * 16 + (row as usize - 8) * 2
        } else {
            top * 16 + (row as usize) * 2
        }
    } else {
        (sp.tile_index as usize) * 16 + (row as usize) * 2
    }
}

/// Lays the sprites of a line out over its 160 columns: each column gets
/// the pixel of the first sprite that is not transparent there.
#[verifier::rlimit(50)]
fn lay_out_sprites(
    sprites: &[Sprite; 10],
    count: u8,
    vram: &[u8; 8192],
    ly: u8,
    height: u8,
) -> (line: [Option<Pixel>; 160])
    requires
        count <= 10,
        height == 8 || height == 16,
    ensures
        line@ == Seq::new(
            160,
            |x: int| line_pixel(sprites@.take(count as int), vram@, ly, height, x),
        ),
{
    let mut line: [Option<Pixel>; 160] = [None;160];
    let mut k: usize = 0;
    while k < count as usize
        invariant
            k <= count <= 10,
            height == 8 || height == 16,
            forall|x: int|
                0 <= x < 160 ==> line@[x] == line_pixel(
                    sprites@.take(k as int),
                    vram@,
                    ly,
                    height,
                    x,
                ),
        decreases count - k,
    {
        let sprite = sprites[k];
        let addr = sprite_row_address(sprite, ly, height);
        let data_lo = vram[addr];
        let data_hi = vram[addr + 1];
        let flipped = test_bit(sprite.attributes, 5);
        let ghost shown = sprites@.take(k as int);
        let ghost next = sprites@.take(k + 1);
        proof {
            assert(next.drop_last() =~= shown);
            assert(next.last() == sprite);
        }
        let mut bit: u8 = 0;
        while bit < 8
            invariant
                bit <= 8,
                k < count <= 10,
                sprite == sprites@[k as int],
                shown == sprites@.take(k as int),
                next == sprites@.take(k + 1),
                next.drop_last() == shown,
                next.last() == sprite,
                addr == sprite_data_address(sprite, ly, height),
                addr + 1 < 8192,
                data_lo == vram@[addr as int],
                data_hi == vram@[addr + 1],
                flipped == bit_is_set(sprite.attributes, 5),
                forall|x: int|
                    0 <= x < 160 ==> line@[x] == (if 0 <= x - (sprite.x - 8) < bit {
                        line_pixel(next, vram@, ly, height, x)
                    } else {
                        line_pixel(shown, vram@, ly, height, x)
                    }),
            decreases 8 - bit,
        {
            let column: u16 = sprite.x as u16 + bit as u16;
            if column >= 8 && column < 168 {
                let x: usize = (column - 8) as usize;
                let shift: u8 = if flipped { bit } else { 7 - bit };
                let hi: u8 = if test_bit(data_hi, shift) { 2 } else { 0 };
                let lo: u8 = if test_bit(data_lo, shift) { 1 } else { 0 };
                let color: u8 = hi + lo;
                proof {
                    assert(color == sprite_color_at(vram@, sprite, ly, height, x as int));
                }
                if color != 0 && line[x].is_none() {
                    line[x] = Some(
                        Pixel::new(
                            color,
                            if test_bit(sprite.attributes, 4) { 2 } else { 1 },
                            test_bit(sprite.attributes, 7),
                            true,
                        ),
                    );
                }
            }
            bit = bit + 1;
        }
        proof {
            assert forall|x: int| 0 <= x < 160 implies line@[x] == line_pixel(
                next,
                vram@,
                ly,
                height,
                x,
            ) by {
                if !(0 <= x - (sprite.x - 8) < 8) {
                    assert(sprite_color_at(vram@, sprite, ly, height, x) == 0);
                }
            }
        }
        k = k + 1;
    }
    proof {
        assert(line@ =~= Seq::new(
            160,
            |x: int| line_pixel(sprites@.take(count as int), vram@, ly, height, x),
        ));
    }
    line
}

impl Ppu {
    pub open spec fn wf(&self) -> bool {
        &&& self@.wf()
        &&& self.bg_queue.wf()
        &&& self.sprite_count <= 10
    }

    pub fn new() -> (p: Ppu)
        ensures
            p.wf(),
            p@ == PpuState::power_on(),
    {
        let p = Ppu {
            vram: [0u8;8192],
            oam: [0u8;160],
            r_lcdc: 0x91,
            r_stat: 0,
            r_scy: 0,
            r_scx: 0,
            r_ly: 0,
            r_lyc: 0,
            r_bgp: 0xFC,
            r_obp0: 0xFF,
            r_obp1: 0xFF,
            r_wy: 0,
            r_wx: 0,
            dots: 0,
            mode: PpuMode::OAMScan,
            lx: 0,
            bg_queue: PixelQueue::new(),
            fetcher: Fetcher::new(),
            sprite_buffer: [Sprite::new(0, 0, 0, 0);10],
            sprite_line_buffer: [None;160],
            sprite_count: 0,
            discarded_pixels: 0,
            window_line_counter: 0,
            lcd_interrupt_signal: false,
            graphics_buffer: [0xFFFF_FFFFu32;23040],
        };
        proof {
            let m = PpuState::power_on();
            assert(p@.vram =~= m.vram);
            assert(p@.oam =~= m.oam);
            assert(p@.sprites =~= m.sprites);
            assert(p@.line =~= m.line);
            assert(p@.frame =~= m.frame);
        }
        p
    }

    /// Advances the unit by `t_cycles` dots and says whether vertical blank
    /// was entered and whether the STAT line rose, each of which requests
    /// its interrupt.
    pub fn step(&mut self, t_cycles: u32) -> (irq: (bool, bool))
        requires
            old(self).wf(),
        ensures
            final(self).wf(),
            final(self)@ == old(self)@.step_spec(t_cycles as nat),
            irq.0 == old(self)@.vblank_within(t_cycles as nat),
            irq.1 == old(self)@.stat_within(t_cycles as nat),
    {
        let mut vblank_irq = false;
        let mut lcd_stat_irq = false;
        let mut i: u32 = 0;
        while i < t_cycles
            invariant
                i <= t_cycles,
                self.wf(),
                self@ == old(self)@.step_spec(i as nat),
                vblank_irq == old(self)@.vblank_within(i as nat),
                lcd_stat_irq == old(self)@.stat_within(i as nat),
            decreases t_cycles - i,
        {
            let (vblank, stat) = self.dot();
            vblank_irq = vblank_irq || vblank;
            lcd_stat_irq = lcd_stat_irq || stat;
            i = i + 1;
        }
        (vblank_irq, lcd_stat_irq)
    }

    /// Advances the unit by one dot.
    #[verifier::rlimit(50)]
    pub fn dot(&mut self) -> (irq: (bool, bool))
        requires
            old(self).wf(),
        ensures
            final(self).wf(),
            final(self)@ == old(self)@.dot(),
            irq.0 == old(self)@.enters_vblank(),
            irq.1 == old(self)@.stat_rises(),
    {
        proof {
            reveal(PpuState::dot);
            lemma_dot_wf(self@);
        }
        let signal = ((self.r_stat / 64) % 2 == 1 && self.r_ly == self.r_lyc) || ((self.r_stat
            / 32) % 2 == 1 && self.mode == PpuMode::OAMScan) || ((self.r_stat / 16) % 2 == 1
            && self.mode == PpuMode::VerticalBlank) || ((self.r_stat / 8) % 2 == 1 && self.mode
            == PpuMode::HorizontalBlank);
        let lcd_stat_irq = signal && !self.lcd_interrupt_signal;
        let mut vblank_irq = false;
        self.lcd_interrupt_signal = signal;
        self.dots = self.dots + 1;
        match self.mode {
            PpuMode::OAMScan => {
                if self.dots >= SCAN_DOTS {
                    self.begin_drawing();
                }
            },
            PpuMode::DrawingPixels => {
                self.draw();
            },
            PpuMode::HorizontalBlank => {
                if self.dots >= DOTS_PER_LINE {
                    self.dots = 0;
                    self.r_ly = self.r_ly + 1;
                    if self.r_ly == 144 {
                        vblank_irq = true;
                        self.window_line_counter = 0;
                        self.mode = PpuMode::VerticalBlank;
                    } else {
                        self.mode = PpuMode::OAMScan;
                    }
                }
            },
            PpuMode::VerticalBlank => {
                if self.dots >= DOTS_PER_LINE {
                    self.dots = 0;
                    if self.r_ly >= 153 {
                        self.r_ly = 0;
                        self.mode = PpuMode::OAMScan;
                    } else {
                        self.r_ly = self.r_ly + 1;
                    }
                }
            },
        }
        (vblank_irq, lcd_stat_irq)
    }

    /// Ends the sprite scan: chooses and lays out the sprites of the line
    /// and sets fetcher, queue and counters for column 0.
    #[verifier::rlimit(50)]
    fn begin_drawing(&mut self)
        requires
            old(self).bg_queue.wf(),
        ensures
            final(self)@ == old(self)@.drawing_begun(),
            final(self).bg_queue.wf(),
            final(self).sprite_count <= 10,
    {
        let height: u8 = if (self.r_lcdc / 4) % 2 == 1 { 16 } else { 8 };
        let (buffer, count) = select_sprites(&self.oam, self.r_ly, height);
        self.sprite_buffer = buffer;
        self.sprite_count = count;
        self.load_line_sprites();
        self.fetcher.map_x = self.r_scx / 8;
        self.fetcher.cycles = 0;
        self.fetcher.state = FetcherState::GetTile;
        self.fetcher.fetching_window = false;
        self.bg_queue.clear();
        self.discarded_pixels = self.r_scx % 8;
        self.lx = 0;
        self.mode = PpuMode::DrawingPixels;
    }

    /// Lays the chosen sprites out over the columns of the line.
    pub fn load_line_sprites(&mut self)
        requires
            old(self).sprite_count <= 10,
        ensures
            final(self)@ == (PpuState {
                line: Seq::new(
                    160,
                    |x: int|
                        line_pixel(
                            old(self)@.sprites,
                            old(self)@.vram,
                            old(self)@.ly,
                            sprite_height(old(self)@.lcdc),
                            x,
                        ),
                ),
                ..old(self)@
            }),
            final(self).bg_queue == old(self).bg_queue,
            final(self).sprite_count == old(self).sprite_count,
    {
        let height: u8 = if (self.r_lcdc / 4) % 2 == 1 { 16 } else { 8 };
        self.sprite_line_buffer = lay_out_sprites(
            &self.sprite_buffer,
            self.sprite_count,
            &self.vram,
            self.r_ly,
            height,
        );
    }

    /// One dot of drawing: the window check, the fetcher's dot, and one
    /// pixel out of the queue.
    #[verifier::rlimit(50)]
    fn draw(&mut self)
        requires
            old(self).bg_queue.wf(),
            old(self).fetcher.wf(),
            old(self)@.mode == PpuMode::DrawingPixels,
            old(self)@.ly <= 143,
            old(self)@.lx < 160,
            old(self)@.window_line <= 143,
            old(self)@.drawn().wf(),
        ensures
            final(self)@ == old(self)@.drawn(),
            final(self).bg_queue.wf(),
            final(self).sprite_count == old(self).sprite_count,
    {
        let window_enable = (self.r_lcdc / 32) % 2 == 1;
        if window_enable && !self.fetcher.fetching_window && self.r_ly >= self.r_wy && self.lx + 7
            >= self.r_wx {
            self.fetcher.start_fetching_window(self.window_line_counter);
            self.bg_queue.clear();
        }
        assert(self@ == old(self)@.window_checked());
        self.fetcher.tick(&mut self.bg_queue, &self.vram, self.r_lcdc, self.r_scy, self.r_ly);
        assert(self@ == old(self)@.window_checked().fetched());
        match self.bg_queue.pop() {
            Some(pixel) => {
                if self.discarded_pixels > 0 {
                    self.discarded_pixels = self.discarded_pixels - 1;
                } else {
                    let bg_pixel = if self.r_lcdc % 2 == 0 {
                        Pixel::new(0, pixel.palette_register, pixel.bg_priority, pixel.is_sprite)
                    } else {
                        pixel
                    };
                    let final_pixel = match self.sprite_line_buffer[self.lx as usize] {
                        Some(sprite) => {
                            if sprite.bg_priority && bg_pixel.color != 0 {
                                bg_pixel
                            } else {
                                sprite
                            }
                        },
                        None => bg_pixel,
                    };
                    let color = self.resolve_pixel_color(final_pixel);
                    let index = (self.r_ly as usize) * SCREEN_WIDTH + self.lx as usize;
                    self.graphics_buffer[index] = color;
                    self.lx = self.lx + 1;
                }
            },
            None => {},
        }
        assert(self@ == old(self)@.window_checked().fetched().popped());
        if self.lx >= 160 {
            if self.fetcher.fetching_window {
                self.window_line_counter = self.window_line_counter + 1;
            }
            self.mode = PpuMode::HorizontalBlank;
        }
    }

    /// The 32-bit colour in which a pixel is shown: its colour number,
    /// looked up in its palette register, as one of the four shades.
    pub fn resolve_pixel_color(&self, pixel: Pixel) -> (c: u32)
        ensures
            c == self@.resolve(pixel),
            c == shade(0) || c == shade(1) || c == shade(2) || c == shade(3),
    {
        let palette_reg = if pixel.palette_register == 0 {
            self.r_bgp
        } else if pixel.palette_register == 1 {
            self.r_obp0
        } else {
            self.r_obp1
        };
        let number = pixel.color % 4;
        let entry = if number == 0 {
            palette_reg % 4
        } else if number == 1 {
            (palette_reg / 4) % 4
        } else if number == 2 {
            (palette_reg / 16) % 4
        } else {
            palette_reg / 64
        };
        if entry == 0 {
            rgb(255, 255, 255)
        } else if entry == 1 {
            rgb(170, 170, 170)
        } else if entry == 2 {
            rgb(85, 85, 85)
        } else {
            rgb(0, 0, 0)
        }
    }

    pub fn read_vram(&self, addr: u16) -> (b: u8)
        ensures
            b == self@.read_vram(addr),
    {
        self.vram[(addr % 0x2000) as usize]
    }

    pub fn write_vram(&mut self, addr: u16, value: u8)
        requires
            old(self).wf(),
        ensures
            final(self).wf(),
            final(self)@ == old(self)@.write_vram(addr, value),
    {
        self.vram[(addr % 0x2000) as usize] = value;
    }

    pub fn read_oam(&self, addr: u16) -> (b: u8)
        requires
            OAM_START <= addr <= OAM_END,
        ensures
            b == self@.read_oam(addr),
    {
        self.oam[(addr - OAM_START) as usize]
    }

    pub fn write_oam(&mut self, addr: u16, value: u8)
        requires
            old(self).wf(),
            OAM_START <= addr <= OAM_END,
        ensures
            final(self).wf(),
            final(self)@ == old(self)@.write_oam(addr, value),
    {
        self.oam[(addr - OAM_START) as usize] = value;
    }

    pub fn read_register(&self, addr: u16) -> (b: u8)
        requires
            self.wf(),
        ensures
            b == self@.read_register(addr),
    {
        match addr {
            0xFF40 => self.r_lcdc,
            0xFF41 => {
                let coincidence: u8 = if self.r_ly == self.r_lyc { 4 } else { 0 };
                let mode: u8 = match self.mode {
                    PpuMode::HorizontalBlank => 0,
                    PpuMode::VerticalBlank => 1,
                    PpuMode::OAMScan => 2,
                    PpuMode::DrawingPixels => 3,
                };
                0x80 + self.r_stat + coincidence + mode
            },
            0xFF42 => self.r_scy,
            0xFF43 => self.r_scx,
            0xFF44 => self.r_ly,
            0xFF45 => self.r_lyc,
            0xFF47 => self.r_bgp,
            0xFF48 => self.r_obp0,
            0xFF49 => self.r_obp1,
            0xFF4A => self.r_wy,
            0xFF4B => self.r_wx,
            _ => 0xFF,
        }
    }

    pub fn write_register(&mut self, addr: u16, value: u8)
        requires
            old(self).wf(),
        ensures
            final(self).wf(),
            final(self)@ == old(self)@.write_register(addr, value),
    {
        match addr {
            0xFF40 => self.r_lcdc = value,
            0xFF41 => self.r_stat = ((value / 8) % 16) * 8,
            0xFF42 => self.r_scy = value,
            0xFF43 => self.r_scx = value,
            0xFF45 => self.r_lyc = value,
            0xFF47 => self.r_bgp = value,
            0xFF48 => self.r_obp0 = value,
            0xFF49 => self.r_obp1 = value,
            0xFF4A => self.r_wy = value,
            0xFF4B => self.r_wx = value,
            _ => {},
        }
    }
}

/// A dot keeps the unit well formed.
#[verifier::rlimit(50)]
pub proof fn lemma_dot_wf(s: PpuState)
    requires
        s.wf(),
    ensures
        s.dot().wf(),
{
    reveal(PpuState::dot);
    let ticked = PpuState { dots: (s.dots + 1) as u32, stat_line: s.stat_signal(), ..s };
    match s.mode {
        PpuMode::OAMScan => {
            if ticked.dots >= 80 {
                lemma_sort_length(candidates(s.oam, s.ly, sprite_height(s.lcdc), 40));
                lemma_candidates_length(s.oam, s.ly, sprite_height(s.lcdc), 40);
            }
        },
        PpuMode::DrawingPixels => {
            lemma_drawn_wf(ticked);
        },
        _ => {},
    }
}

/// A dot of drawing keeps the unit well formed and does not raise the sum
/// of the dots spent and the dots still allowed.
#[verifier::rlimit(50)]
pub proof fn lemma_drawn_wf(s: PpuState)
    requires
        s.mode == PpuMode::DrawingPixels,
        (PpuState { dots: (s.dots - 1) as u32, ..s }).wf(),
        s.dots >= 81,
    ensures
        s.drawn().wf(),
{
    let w = s.window_checked();
    let f = w.fetched();
    let p = f.popped();
    assert(w.drawing_budget() <= s.drawing_budget());
    assert(w.queue.len() == 0 || w.flowing());
    assert(f.fetcher.wf());
    assert(f.queue.len() <= 16);
    if w.queue.len() == 0 {
        if w.fetcher.state == FetcherState::Push {
            assert(f.queue.len() == 8);
        } else {
            assert(f.queue.len() == 0);
            assert(f.fill_wait() == w.fill_wait() - 1);
        }
    } else {
        if w.fetcher.state == FetcherState::Push {
        } else {
            assert(f.fill_wait() == w.fill_wait() - 1);
        }
    }
    assert(p.drawing_budget() <= w.drawing_budget() - 1);
}

/// Scanning at most `n` table entries finds at most `n`, and at most ten,
/// candidates.
pub proof fn lemma_candidates_length(oam: Seq<u8>, ly: u8, height: u8, n: nat)
    ensures
        candidates(oam, ly, height, n).len() <= 10,
        candidates(oam, ly, height, n).len() <= n,
    decreases n,
{
    if n > 0 {
        lemma_candidates_length(oam, ly, height, (n - 1) as nat);
    }
}

/// Putting a sprite in adds one to the length.
pub proof fn lemma_insert_length(s: Seq<Sprite>, sp: Sprite)
    ensures
        insert_by_x(s, sp).len() == s.len() + 1,
    decreases s.len(),
{
    if s.len() > 0 && s.last().x > sp.x {
        lemma_insert_length(s.drop_last(), sp);
    }
}

/// Ordering keeps the length.
pub proof fn lemma_sort_length(s: Seq<Sprite>)
    ensures
        sort_by_x(s).len() == s.len(),
    decreases s.len(),
{
    if s.len() > 0 {
        lemma_sort_length(s.drop_last());
        lemma_insert_length(sort_by_x(s.drop_last()), s.last());
    }
}

/// Every dot moves the position in the frame on by one, and after the last
/// dot of line 153 the frame starts over: each line takes 456 dots and LY
/// runs through 0..=153.
pub proof fn lemma_dot_advances_frame(s: PpuState)
    requires
        s.wf(),
    ensures
        0 <= s.frame_position() < 70224,
        s.dot().frame_position() == (if s.frame_position() == 70223 {
            0
        } else {
            s.frame_position() + 1
        }),
        s.dot().ly <= 153,
        s.dot().dots < 456,
{
    reveal(PpuState::dot);
    lemma_dot_wf(s);
    if s.mode == PpuMode::DrawingPixels {
        assert(s.dot().ly == s.ly && s.dot().dots == s.dots + 1);
    }
}

/// Vertical blank is entered by the dot that the countdown says, and by no
/// other: every other dot brings it one dot nearer.
pub proof fn lemma_dot_countdown(s: PpuState)
    requires
        s.wf(),
    ensures
        1 <= s.dots_to_vblank() <= 70224,
        s.enters_vblank() <==> s.dots_to_vblank() == 1,
        !s.enters_vblank() ==> s.dot().dots_to_vblank() == s.dots_to_vblank() - 1,
        s.enters_vblank() ==> s.dot().dots_to_vblank() == 70224,
{
    lemma_dot_advances_frame(s);
    lemma_dot_wf(s);
    assert(s.enters_vblank() <==> s.frame_position() == 65663);
}

/// Over `n` dots either vertical blank is entered or it comes `n` dots
/// nearer.
pub proof fn lemma_step_countdown(s: PpuState, n: nat)
    requires
        s.wf(),
    ensures
        s.step_spec(n).wf(),
        s.vblank_within(n) || s.step_spec(n).dots_to_vblank() == s.dots_to_vblank() - n,
        1 <= s.step_spec(n).dots_to_vblank() <= 70224,
    decreases n,
{
    if n == 0 {
        lemma_dot_countdown(s);
    } else {
        lemma_step_countdown(s, (n - 1) as nat);
        lemma_dot_countdown(s.step_spec((n - 1) as nat));
        lemma_dot_wf(s.step_spec((n - 1) as nat));
        lemma_dot_countdown(s.step_spec(n));
    }
}

/// The pixel unit only reads video RAM and the sprite table; no dot
/// changes them, nor the registers that the processor writes.
pub proof fn lemma_step_keeps_memory(s: PpuState, n: nat)
    ensures
        s.step_spec(n).vram == s.vram,
        s.step_spec(n).oam == s.oam,
        s.step_spec(n).lcdc == s.lcdc,
        s.step_spec(n).stat == s.stat,
        s.step_spec(n).scy == s.scy,
        s.step_spec(n).scx == s.scx,
        s.step_spec(n).lyc == s.lyc,
        s.step_spec(n).bgp == s.bgp,
        s.step_spec(n).obp0 == s.obp0,
        s.step_spec(n).obp1 == s.obp1,
        s.step_spec(n).wy == s.wy,
        s.step_spec(n).wx == s.wx,
    decreases n,
{
    reveal(PpuState::dot);
    if n > 0 {
        lemma_step_keeps_memory(s, (n - 1) as nat);
    }
}

/// Whether a colour is one of the four shades of the screen.
pub open spec fn is_shade(color: u32) -> bool {
    color == shade(0) || color == shade(1) || color == shade(2) || color == shade(3)
}

/// Whether every pixel of the frame is one of the four shades.
pub open spec fn painted(s: PpuState) -> bool {
    forall|i: int| 0 <= i < s.frame.len() ==> is_shade(#[trigger] s.frame[i])
}

/// Every pixel that reaches the frame comes out of a palette: the frame
/// starts out white, and a dot changes at most the pixel at (LX, LY), to
/// one of the four shades.
pub proof fn lemma_frame_holds_shades(s: PpuState, n: nat)
    requires
        s.wf(),
        painted(s),
    ensures
        painted(PpuState::power_on()),
        painted(s.dot()),
        forall|i: int|
            0 <= i < 23040 && i != s.ly * 160 + s.lx ==> s.dot().frame[i] == s.frame[i],
        painted(s.step_spec(n)),
    decreases n,
{
    reveal(PpuState::dot);
    lemma_dot_wf(s);
    if n > 0 {
        lemma_frame_holds_shades(s, (n - 1) as nat);
        lemma_ppu_steps_wf(s, (n - 1) as nat);
        lemma_frame_holds_shades(s.step_spec((n - 1) as nat), 0);
    }
}

/// Any number of dots keeps the unit well formed.
pub proof fn lemma_ppu_steps_wf(s: PpuState, n: nat)
    requires
        s.wf(),
    ensures
        s.step_spec(n).wf(),
    decreases n,
{
    if n > 0 {
        lemma_ppu_steps_wf(s, (n - 1) as nat);
        lemma_dot_wf(s.step_spec((n - 1) as nat));
    }
}

/// Putting a sprite into an ordered sequence keeps it ordered and adds
/// just that sprite.
pub proof fn lemma_insert_ordered(s: Seq<Sprite>, sp: Sprite)
    requires
        ordered_by_x(s),
    ensures
        ordered_by_x(insert_by_x(s, sp)),
        insert_by_x(s, sp).to_multiset() == s.to_multiset().insert(sp),
    decreases s.len(),
{
    broadcast use vstd::seq_lib::group_to_multiset_ensures;

    if s.len() == 0 {
        assert(insert_by_x(s, sp) =~= s.push(sp));
    } else if s.last().x <= sp.x {
    } else {
        let front = s.drop_last();
        lemma_insert_ordered(front, sp);
        lemma_insert_length(front, sp);
        let placed = insert_by_x(front, sp);
        assert(s =~= front.push(s.last()));
        assert forall|i: int| 0 <= i < placed.len() implies placed[i].x <= s.last().x by {
            assert(placed.to_multiset().count(placed[i]) > 0);
            if placed[i] != sp {
                assert(front.to_multiset().count(placed[i]) > 0);
                assert(front.contains(placed[i]));
            }
        }
        assert(front.push(s.last()).to_multiset() =~= front.to_multiset().insert(s.last()));
        assert(placed.push(s.last()).to_multiset() =~= s.to_multiset().insert(sp));
    }
}

/// Ordering by X gives an ordered sequence of the same sprites.
pub proof fn lemma_sort_orders(s: Seq<Sprite>)
    ensures
        ordered_by_x(sort_by_x(s)),
        sort_by_x(s).to_multiset() == s.to_multiset(),
        sort_by_x(s).len() == s.len(),
    decreases s.len(),
{
    broadcast use vstd::seq_lib::group_to_multiset_ensures;

    lemma_sort_length(s);
    if s.len() > 0 {
        lemma_sort_orders(s.drop_last());
        lemma_insert_ordered(sort_by_x(s.drop_last()), s.last());
        assert(s =~= s.drop_last().push(s.last()));
    }
}

/// Counting one on around `modulus` keeps step with adding one before
/// taking the remainder.
pub proof fn lemma_count_wraps(total: int, modulus: int, before: int)
    requires
        modulus > 0,
        total >= 1,
        before == (total - 1) % modulus,
    ensures
        total % modulus == (if before == modulus - 1 { 0 } else { before + 1 }),
{
    let q = (total - 1) / modulus;
    vstd::arithmetic::div_mod::lemma_fundamental_div_mod(total - 1, modulus);
    vstd::arithmetic::div_mod::lemma_mod_bound(total - 1, modulus);
    if before == modulus - 1 {
        assert(total == modulus * (q + 1) + 0) by (nonlinear_arith)
            requires
                total - 1 == modulus * q + before,
                before == modulus - 1,
        ;
        vstd::arithmetic::div_mod::lemma_fundamental_div_mod_converse(total, modulus, q + 1, 0);
    } else {
        vstd::arithmetic::div_mod::lemma_fundamental_div_mod_converse(
            total,
            modulus,
            q,
            before + 1,
        );
    }
}

/// `n` dots move the position in the frame on by `n`, around the frame's
/// 70224 dots.
pub proof fn lemma_steps_advance_frame(s: PpuState, n: nat)
    requires
        s.wf(),
    ensures
        s.step_spec(n).wf(),
        s.step_spec(n).frame_position() == (s.frame_position() + n) % 70224,
    decreases n,
{
    lemma_dot_advances_frame(s);
    if n == 0 {
        vstd::arithmetic::div_mod::lemma_small_mod(s.frame_position() as nat, 70224);
    } else {
        let before = s.step_spec((n - 1) as nat);
        lemma_steps_advance_frame(s, (n - 1) as nat);
        lemma_dot_advances_frame(before);
        lemma_dot_wf(before);
        lemma_count_wraps(s.frame_position() + n, 70224, before.frame_position());
    }
}

/// A scanline takes 456 dots, whatever is drawn on it: from the first dot
/// of a line the unit scans sprites through dot 79, is drawing at dot 80,
/// has reached horizontal blank by dot 262 on a visible line, and stands at
/// the first dot of the next line after dot 456. After line 153 comes
/// line 0.
pub proof fn lemma_line_takes_456_dots(s: PpuState, n: nat)
    requires
        s.wf(),
        s.dots == 0,
        n < 456,
    ensures
        s.step_spec(n).ly == s.ly,
        s.step_spec(n).dots == n,
        s.ly <= 143 && n < 80 ==> s.step_spec(n).mode == PpuMode::OAMScan,
        s.ly <= 143 && n == 80 ==> s.step_spec(n).mode == PpuMode::DrawingPixels,
        s.ly <= 143 && n >= 262 ==> s.step_spec(n).mode == PpuMode::HorizontalBlank,
        s.ly >= 144 ==> s.step_spec(n).mode == PpuMode::VerticalBlank,
        s.step_spec(456).dots == 0,
        s.step_spec(456).ly == (if s.ly == 153 { 0 } else { s.ly + 1 }),
    decreases n,
{
    lemma_steps_advance_frame(s, n);
    lemma_steps_advance_frame(s, 456);
    let start = s.ly * 456;
    let here = s.step_spec(n);
    let next = s.step_spec(456);
    vstd::arithmetic::div_mod::lemma_small_mod((start + n) as nat, 70224);
    assert(here.ly * 456 + here.dots == start + n);
    assert(here.ly == s.ly && here.dots == n) by {
        if here.ly < s.ly {
            assert(here.ly * 456 + 456 <= s.ly * 456);
        } else if here.ly > s.ly {
            assert(here.ly * 456 >= s.ly * 456 + 456);
        }
    }
    if s.ly == 153 {
        vstd::arithmetic::div_mod::lemma_mod_self_0(70224);
        assert(next.ly * 456 + next.dots == 0);
    } else {
        vstd::arithmetic::div_mod::lemma_small_mod((start + 456) as nat, 70224);
        assert(next.ly * 456 + next.dots == (s.ly + 1) * 456);
        if next.ly < s.ly + 1 {
            assert(next.ly * 456 + 456 <= (s.ly + 1) * 456);
        } else if next.ly > s.ly + 1 {
            assert(next.ly * 456 >= (s.ly + 1) * 456 + 456);
        }
    }
    if s.ly <= 143 {
        lemma_mode_order(here);
    }
    if s.ly <= 143 && n == 80 {
        assert(here.mode != PpuMode::HorizontalBlank) by {
            lemma_line_takes_456_dots(s, 79);
            let before = s.step_spec(79);
            lemma_steps_advance_frame(s, 79);
            lemma_mode_order(before);
            assert(before.mode == PpuMode::OAMScan);
            assert(here == before.dot());
        }
    }
}

/// The test whether a sprite stands at column `x`.
pub open spec fn at_column(x: u8) -> spec_fn(Sprite) -> bool {
    |sp: Sprite| sp.x == x
}

/// Putting a sprite into an ordered sequence puts it behind the sprites of
/// its own column and moves no other sprite of any column past another.
pub proof fn lemma_insert_keeps_columns(s: Seq<Sprite>, sp: Sprite, x: u8)
    ensures
        insert_by_x(s, sp).filter(at_column(x)) == s.push(sp).filter(at_column(x)),
    decreases s.len(),
{
    broadcast use vstd::seq::Seq::lemma_filter_push;

    if s.len() == 0 {
        assert(insert_by_x(s, sp) =~= s.push(sp));
    } else if s.last().x <= sp.x {
    } else {
        let front = s.drop_last();
        lemma_insert_keeps_columns(front, sp, x);
        assert(s =~= front.push(s.last()));
        assert(insert_by_x(s, sp) == insert_by_x(front, sp).push(s.last()));
        assert(front.push(s.last()).push(sp).filter(at_column(x)) == front.push(sp).push(
            s.last(),
        ).filter(at_column(x)));
    }
}

/// Ordering by X is stable: the sprites of each column come out in the
/// order in which they went in, which is the order of the sprite table.
pub proof fn lemma_sort_is_stable(s: Seq<Sprite>, x: u8)
    ensures
        sort_by_x(s).filter(at_column(x)) == s.filter(at_column(x)),
    decreases s.len(),
{
    broadcast use vstd::seq::Seq::lemma_filter_push;

    if s.len() > 0 {
        let front = s.drop_last();
        lemma_sort_is_stable(front, x);
        lemma_insert_keeps_columns(sort_by_x(front), s.last(), x);
        assert(s =~= front.push(s.last()));
    }
}

/// Within a visible line the modes come in the order sprite scan, drawing,
/// horizontal blank: the scan lasts through dot 79, drawing starts at dot
/// 80 and is over by dot 262, and the line ends in horizontal blank.
pub proof fn lemma_mode_order(s: PpuState)
    requires
        s.wf(),
        s.ly <= 143,
    ensures
        s.dots < 80 <==> s.mode == PpuMode::OAMScan,
        s.mode == PpuMode::DrawingPixels ==> 80 <= s.dots <= 261,
        s.dots >= 262 ==> s.mode == PpuMode::HorizontalBlank,
        s.mode == PpuMode::OAMScan ==> s.dot().mode == PpuMode::OAMScan || s.dot().mode
            == PpuMode::DrawingPixels,
        s.mode == PpuMode::DrawingPixels ==> s.dot().mode == PpuMode::DrawingPixels || s.dot().mode
            == PpuMode::HorizontalBlank,
        s.mode == PpuMode::HorizontalBlank && s.dots < 455 ==> s.dot().mode
            == PpuMode::HorizontalBlank,
        s.mode == PpuMode::HorizontalBlank && s.dots == 455 ==> s.dot().dots == 0 && s.dot().ly
            == s.ly + 1,
{
    reveal(PpuState::dot);
}

} // verus!
