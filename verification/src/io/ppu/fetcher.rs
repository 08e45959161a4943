//! The background fetcher: reads a tile number, then the two bytes of one
//! tile row, then pushes the row's eight pixels into the queue.

use vstd::prelude::*;
use crate::bits::{bit_value, test_bit};
use crate::io::ppu::pixel::{Pixel, PixelQueue};

verus! {

#[derive(Clone, Copy, Debug, PartialEq, Eq, Structural)]
pub enum FetcherState {
    GetTile,
    GetDataLow,
    GetDataHigh,
    Push,
}

#[derive(Clone, Copy, Debug, PartialEq, Eq, Structural)]
pub struct Fetcher {
    pub state: FetcherState,
    /// Dots spent in the current state, 0 or 1.
    pub cycles: u8,
    pub tile_index: u8,
    pub data_lo: u8,
    pub data_hi: u8,
    /// The tile column in the map, 0..=31.
    pub map_x: u8,
    /// The window line being fetched, latched when the window starts.
    pub window_line_counter: u8,
    pub fetching_window: bool,
}

/// The pixel that bit `7 - i` of a tile row's two bytes encodes.
pub open spec fn row_pixel(lo: u8, hi: u8, i: int) -> Pixel {
    Pixel {
        color: (2 * bit_value(hi, (7 - i) as u8) + bit_value(lo, (7 - i) as u8)) as u8,
        palette_register: 0,
        bg_priority: false,
        is_sprite: false,
    }
}

/// The eight background pixels of a tile row, leftmost (bit 7) first.
pub open spec fn row_pixels(lo: u8, hi: u8) -> Seq<Pixel> {
    Seq::new(8, |i: int| row_pixel(lo, hi, i))
}

/// Where in video RAM the tile number of map cell (`map_x`, `map_y`) lies:
/// the map at 0x9C00 when `high_map`, else the one at 0x9800.
pub open spec fn map_address(high_map: bool, map_x: u8, map_y: u8) -> u16 {
    ((if high_map { 0x1C00int } else { 0x1800int }) + map_y * 32 + map_x) as u16
}

/// Where in video RAM the low byte of row `row` of tile `tile_index` lies.
/// With bit 4 of LCDC set tiles count up from 0x8000; otherwise the tile
/// number is signed and counts from 0x9000.
pub open spec fn tile_address(tile_index: u8, row: u8, r_lcdc: u8) -> u16 {
    if (r_lcdc / 16) % 2 == 1 {
        (tile_index * 16 + row * 2) as u16
    } else if tile_index >= 128 {
        (0x1000 + (tile_index - 256) * 16 + row * 2) as u16
    } else {
        (0x1000 + tile_index * 16 + row * 2) as u16
    }
}

impl Fetcher {
    pub open spec fn power_on() -> Fetcher {
        Fetcher {
            state: FetcherState::GetTile,
            cycles: 0,
            tile_index: 0,
            data_lo: 0,
            data_hi: 0,
            map_x: 0,
            window_line_counter: 0,
            fetching_window: false,
        }
    }

    pub open spec fn wf(self) -> bool {
        &&& self.cycles <= 1
        &&& self.map_x <= 31
        &&& self.state == FetcherState::Push ==> self.cycles == 0
    }

    /// Which of the two tile maps is read: bit 6 of LCDC chooses for the
    /// window, bit 3 for the background.
    pub open spec fn high_map(self, r_lcdc: u8) -> bool {
        if self.fetching_window {
            (r_lcdc / 64) % 2 == 1
        } else {
            (r_lcdc / 8) % 2 == 1
        }
    }

    /// The map row being fetched.
    pub open spec fn map_y(self, r_scy: u8, r_ly: u8) -> u8 {
        if self.fetching_window {
            self.window_line_counter / 8
        } else {
            ((((r_ly + r_scy) % 256) / 8) % 32) as u8
        }
    }

    /// The row within the tile being fetched.
    pub open spec fn tile_row(self, r_scy: u8, r_ly: u8) -> u8 {
        if self.fetching_window {
            self.window_line_counter % 8
        } else {
            (((r_ly + r_scy) % 256) % 8) as u8
        }
    }

    /// The fetcher set to fetch the window from its first column.
    pub open spec fn window_started(self, window_line: u8) -> Fetcher {
        Fetcher {
            fetching_window: true,
            state: FetcherState::GetTile,
            cycles: 0,
            map_x: 0,
            window_line_counter: window_line,
            ..self
        }
    }

    /// The fetcher set to fetch the background from the column that SCX
    /// names.
    pub open spec fn line_started(self, r_scx: u8) -> Fetcher {
        Fetcher {
            fetching_window: false,
            state: FetcherState::GetTile,
            cycles: 0,
            map_x: r_scx / 8,
            ..self
        }
    }

    /// What the current state does once its two dots are spent.
    pub open spec fn acted(self, vram: Seq<u8>, r_lcdc: u8, r_scy: u8, r_ly: u8) -> Fetcher {
        match self.state {
            FetcherState::GetTile => Fetcher {
                tile_index: vram[map_address(
                    self.high_map(r_lcdc),
                    self.map_x,
                    self.map_y(r_scy, r_ly),
                ) as int],
                state: FetcherState::GetDataLow,
                cycles: 0,
                ..self
            },
            FetcherState::GetDataLow => Fetcher {
                data_lo: vram[tile_address(
                    self.tile_index,
                    self.tile_row(r_scy, r_ly),
                    r_lcdc,
                ) as int],
                state: FetcherState::GetDataHigh,
                cycles: 0,
                ..self
            },
            FetcherState::GetDataHigh => Fetcher {
                data_hi: vram[tile_address(self.tile_index, self.tile_row(r_scy, r_ly), r_lcdc)
                    + 1],
                state: FetcherState::Push,
                cycles: 0,
                ..self
            },
            FetcherState::Push => Fetcher {
                map_x: ((self.map_x + 1) % 32) as u8,
                state: FetcherState::GetTile,
                cycles: 0,
                ..self
            },
        }
    }

    /// Whether this dot pushes a tile row: the fetcher is in its push state
    /// and the queue holds at most 8 pixels.
    pub open spec fn pushes(self, queue: Seq<Pixel>) -> bool {
        self.state == FetcherState::Push && queue.len() <= 8
    }

    /// The fetcher after one dot. The three reading states take two dots
    /// each; the push state tries on every dot until the queue has room.
    pub open spec fn tick_spec(
        self,
        queue: Seq<Pixel>,
        vram: Seq<u8>,
        r_lcdc: u8,
        r_scy: u8,
        r_ly: u8,
    ) -> Fetcher {
        if self.state == FetcherState::Push {
            if queue.len() <= 8 {
                self.acted(vram, r_lcdc, r_scy, r_ly)
            } else {
                self
            }
        } else if self.cycles >= 1 {
            self.acted(vram, r_lcdc, r_scy, r_ly)
        } else {
            Fetcher { cycles: 1, ..self }
        }
    }

    /// The queue after one dot of the fetcher.
    pub open spec fn queue_after(self, queue: Seq<Pixel>) -> Seq<Pixel> {
        if self.pushes(queue) {
            queue + row_pixels(self.data_lo, self.data_hi)
        } else {
            queue
        }
    }

    pub fn new() -> (f: Fetcher)
        ensures
            f == Self::power_on(),
            f.wf(),
    {
        Fetcher {
            state: FetcherState::GetTile,
            cycles: 0,
            tile_index: 0,
            data_lo: 0,
            data_hi: 0,
            map_x: 0,
            window_line_counter: 0,
            fetching_window: false,
        }
    }

    /// Advances the fetcher by one dot.
    #[verifier::rlimit(50)]
    pub fn tick(
        &mut self,
        queue: &mut PixelQueue,
        vram: &[u8; 8192],
        r_lcdc: u8,
        r_scy: u8,
        r_ly: u8,
    )
        requires
            old(self).wf(),
            old(queue).wf(),
        ensures
            final(self).wf(),
            final(queue).wf(),
            *final(self) == old(self).tick_spec(old(queue)@, vram@, r_lcdc, r_scy, r_ly),
            final(queue)@ == old(self).queue_after(old(queue)@),
    {
        match self.state {
            FetcherState::Push => {
                if queue.len() > 8 {
                    return ;
                }
                let mut i: u8 = 0;
                while i < 8
                    invariant
                        i <= 8,
                        queue.wf(),
                        *self == *old(self),
                        old(queue)@.len() <= 8,
                        queue@ == old(queue)@ + row_pixels(self.data_lo, self.data_hi).take(
                            i as int,
                        ),
                    decreases 8 - i,
                {
                    let hi: u8 = if test_bit(self.data_hi, 7 - i) { 2 } else { 0 };
                    let lo: u8 = if test_bit(self.data_lo, 7 - i) { 1 } else { 0 };
                    let pushed = queue.push(Pixel::new(hi + lo, 0, false, false));
                    proof {
                        let row = row_pixels(self.data_lo, self.data_hi);
                        assert(row.take(i + 1) =~= row.take(i as int).push(row[i as int]));
                        assert(old(queue)@ + row.take(i as int).push(row[i as int]) =~= (old(
                            queue,
                        )@ + row.take(i as int)).push(row[i as int]));
                    }
                    i = i + 1;
                }
                proof {
                    let row = row_pixels(self.data_lo, self.data_hi);
                    assert(row.take(8) =~= row);
                }
                self.map_x = (self.map_x + 1) % 32;
                self.state = FetcherState::GetTile;
                self.cycles = 0;
            },
            _ => {
                if self.cycles < 1 {
                    self.cycles = 1;
                    return ;
                }
                self.cycles = 0;
                match self.state {
                    FetcherState::GetTile => {
                        let map_y = if self.fetching_window {
                            self.window_line_counter / 8
                        } else {
                            (r_ly.wrapping_add(r_scy) / 8) % 32
                        };
                        let addr = self.get_bg_map_address(self.map_x, map_y, r_lcdc);
                        self.tile_index = vram[addr as usize];
                        self.state = FetcherState::GetDataLow;
                    },
                    FetcherState::GetDataLow => {
                        let tile_row = if self.fetching_window {
                            self.window_line_counter % 8
                        } else {
                            r_ly.wrapping_add(r_scy) % 8
                        };
                        let addr = self.get_tile_data_address(self.tile_index, tile_row, r_lcdc);
                        self.data_lo = vram[addr as usize];
                        self.state = FetcherState::GetDataHigh;
                    },
                    _ => {
                        let tile_row = if self.fetching_window {
                            self.window_line_counter % 8
                        } else {
                            r_ly.wrapping_add(r_scy) % 8
                        };
                        let addr = self.get_tile_data_address(self.tile_index, tile_row, r_lcdc)
                            + 1;
                        self.data_hi = vram[addr as usize];
                        self.state = FetcherState::Push;
                    },
                }
            },
        }
    }

    /// The index in video RAM of a map cell's tile number.
    pub fn get_bg_map_address(&self, map_x: u8, map_y: u8, r_lcdc: u8) -> (addr: u16)
        requires
            map_x <= 31,
            map_y <= 31,
        ensures
            addr == map_address(self.high_map(r_lcdc), map_x, map_y),
            addr < 0x2000,
    {
        let high = if self.fetching_window {
            (r_lcdc / 64) % 2 == 1
        } else {
            (r_lcdc / 8) % 2 == 1
        };
        let base: u16 = if high { 0x1C00 } else { 0x1800 };
        base + (map_y as u16) * 32 + map_x as u16
    }

    /// The index in video RAM of the low byte of a tile row.
    pub fn get_tile_data_address(&self, tile_index: u8, row: u8, r_lcdc: u8) -> (addr: u16)
        requires
            row <= 7,
        ensures
            addr == tile_address(tile_index, row, r_lcdc),
            addr + 1 < 0x2000,
    {
        if (r_lcdc / 16) % 2 == 1 {
            (tile_index as u16) * 16 + (row as u16) * 2
        } else if tile_index >= 128 {
            0x1000 - (256 - tile_index as u16) * 16 + (row as u16) * 2
        } else {
            0x1000 + (tile_index as u16) * 16 + (row as u16) * 2
        }
    }

    pub fn start_fetching_window(&mut self, window_line: u8)
        ensures
            *final(self) == old(self).window_started(window_line),
    {
        self.fetching_window = true;
        self.state = FetcherState::GetTile;
        self.cycles = 0;
        self.map_x = 0;
        self.window_line_counter = window_line;
    }
}

} // verus!
