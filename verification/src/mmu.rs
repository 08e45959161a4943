//! The memory bus: address decoding, the OAM transfer, the interrupt
//! registers, and the machine cycle that every timed access spends.

use vstd::prelude::*;
use crate::bits::{bit_is_set, clear_bit, set_bit, test_bit, with_bit, without_bit};
use crate::cartridge::{Cartridge, CartridgeState, RomError, verdict};
use crate::cpu::registers::{high, high_byte, low, low_byte, make_word, word};
use crate::io::apu::Apu;
use crate::io::joypad::Joypad;
use crate::io::ppu::{Ppu, PpuState};
use crate::io::serial::{Serial, SerialState};
use crate::io::timer::Timer;

verus! {

/// Master clocks in a machine cycle.
pub const CLOCKS_PER_CYCLE: u32 = 4;

/// Bytes that an OAM transfer copies.
pub const DMA_LENGTH: u8 = 160;

pub const VBLANK_BIT: u8 = 0;

pub const STAT_BIT: u8 = 1;

pub const TIMER_BIT: u8 = 2;

pub const SERIAL_BIT: u8 = 3;

pub const JOYPAD_BIT: u8 = 4;

pub struct Bus {
    pub cartridge: Cartridge,
    pub wram: [u8; 8192],
    pub hram: [u8; 127],
    pub ppu: Ppu,
    pub apu: Apu,
    pub timer: Timer,
    pub joypad: Joypad,
    pub serial: Serial,
    pub dma_active: bool,
    pub dma_base: u8,
    pub dma_byte: u8,
    pub dma_delay: u8,
    /// 0xFF0F
    pub interrupt_flag: u8,
    /// 0xFFFF
    pub interrupt_enable: u8,
    /// Machine cycles spent so far, wrapping at 2^64.
    pub accumulated_cycles: u64,
    /// Machine cycles spent so far.
    pub elapsed: Ghost<nat>,
    /// Set when the pixel unit enters vertical blank; the driver clears it.
    pub frame_ready: bool,
}

/// The bus and everything on it as contracts see it.
pub struct BusState {
    pub cartridge: CartridgeState,
    pub wram: Seq<u8>,
    pub hram: Seq<u8>,
    pub ppu: PpuState,
    pub apu: Apu,
    pub timer: Timer,
    pub joypad: Joypad,
    pub serial: SerialState,
    pub dma_active: bool,
    pub dma_base: u8,
    pub dma_byte: u8,
    pub dma_delay: u8,
    pub interrupt_flag: u8,
    pub interrupt_enable: u8,
    pub cycles: u64,
    pub ticks: nat,
    pub frame_ready: bool,
}

impl View for Bus {
    type V = BusState;

    open spec fn view(&self) -> BusState {
        BusState {
            cartridge: self.cartridge@,
            wram: self.wram@,
            hram: self.hram@,
            ppu: self.ppu@,
            apu: self.apu,
            timer: self.timer,
            joypad: self.joypad,
            serial: self.serial@,
            dma_active: self.dma_active,
            dma_base: self.dma_base,
            dma_byte: self.dma_byte,
            dma_delay: self.dma_delay,
            interrupt_flag: self.interrupt_flag,
            interrupt_enable: self.interrupt_enable,
            cycles: self.accumulated_cycles,
            ticks: self.elapsed@,
            frame_ready: self.frame_ready,
        }
    }
}

/// Whether an address lies in high RAM, the only memory that the processor
/// reaches during an OAM transfer.
pub open spec fn in_hram(addr: u16) -> bool {
    0xFF80 <= addr <= 0xFFFE
}

/// `flag` with bit `bit` set where `request` holds.
pub open spec fn requested(flag: u8, bit: u8, request: bool) -> u8 {
    if request {
        with_bit(flag, bit)
    } else {
        flag
    }
}

impl BusState {
    /// The bus with a freshly loaded cartridge, before the first cycle.
    pub open spec fn power_on(rom: Seq<u8>) -> BusState {
        BusState {
            cartridge: CartridgeState::loaded(rom),
            wram: Seq::new(8192, |i: int| 0u8),
            hram: Seq::new(127, |i: int| 0u8),
            ppu: PpuState::power_on(),
            apu: Apu { registers: vstd::array::spec_array_fill_for_copy_type(0u8) },
            timer: Timer::power_on(),
            joypad: Joypad::power_on(),
            serial: SerialState::power_on(),
            dma_active: false,
            dma_base: 0,
            dma_byte: 0,
            dma_delay: 0,
            interrupt_flag: 0,
            interrupt_enable: 0,
            cycles: 0,
            ticks: 0,
            frame_ready: false,
        }
    }

    pub open spec fn wf(self) -> bool {
        &&& self.cartridge.wf()
        &&& self.wram.len() == 8192
        &&& self.hram.len() == 127
        &&& self.ppu.wf()
        &&& self.dma_active ==> self.dma_byte < DMA_LENGTH
        &&& self.cycles == self.ticks % 0x1_0000_0000_0000_0000
    }

    /// Whether interrupt `bit` is both requested in IF and enabled in IE.
    pub open spec fn is_pending(self, bit: u8) -> bool {
        bit_is_set(self.interrupt_enable, bit) && bit_is_set(self.interrupt_flag, bit)
    }

    /// The pending interrupt that is served first, which is the one with
    /// the lowest bit: 0 vertical blank, 1 STAT, 2 timer, 3 serial,
    /// 4 joypad.
    pub open spec fn pending(self) -> Option<u8> {
        if self.is_pending(0) {
            Some(0)
        } else if self.is_pending(1) {
            Some(1)
        } else if self.is_pending(2) {
            Some(2)
        } else if self.is_pending(3) {
            Some(3)
        } else if self.is_pending(4) {
            Some(4)
        } else {
            None
        }
    }

    /// The bus with interrupt `bit` no longer requested.
    pub open spec fn acknowledged(self, bit: u8) -> BusState {
        BusState { interrupt_flag: without_bit(self.interrupt_flag, bit), ..self }
    }

    /// What an I/O register reads as. IF reads with its three unused bits
    /// set; an address that names no register reads 0xFF.
    pub open spec fn read_io(self, addr: u16) -> u8 {
        if addr == 0xFF00 {
            self.joypad.read_spec()
        } else if 0xFF01 <= addr <= 0xFF02 {
            self.serial.read_spec(addr)
        } else if 0xFF04 <= addr <= 0xFF07 {
            self.timer.read_spec(addr)
        } else if addr == 0xFF0F {
            (0xE0 + self.interrupt_flag % 32) as u8
        } else if 0xFF10 <= addr <= 0xFF26 {
            self.apu.read_spec(addr)
        } else if addr == 0xFF46 {
            self.dma_base
        } else if 0xFF40 <= addr <= 0xFF4B {
            self.ppu.read_register(addr)
        } else {
            0xFF
        }
    }

    /// The byte at an address, whether or not an OAM transfer is running.
    pub open spec fn unblocked_raw_read(self, addr: u16) -> u8 {
        if addr <= 0x7FFF {
            self.cartridge.read(addr)
        } else if addr <= 0x9FFF {
            self.ppu.read_vram(addr)
        } else if addr <= 0xBFFF {
            self.cartridge.read(addr)
        } else if addr <= 0xDFFF {
            self.wram[addr - 0xC000]
        } else if addr <= 0xFDFF {
            self.wram[addr - 0xE000]
        } else if addr <= 0xFE9F {
            self.ppu.read_oam(addr)
        } else if addr <= 0xFEFF {
            0xFF
        } else if addr <= 0xFF7F {
            self.read_io(addr)
        } else if addr <= 0xFFFE {
            self.hram[addr - 0xFF80]
        } else {
            self.interrupt_enable
        }
    }

    /// The byte that the processor sees at an address: during an OAM
    /// transfer everything but high RAM reads 0xFF.
    #[verifier::opaque]
    pub open spec fn raw_read(self, addr: u16) -> u8 {
        if self.dma_active && !in_hram(addr) {
            0xFF
        } else {
            self.unblocked_raw_read(addr)
        }
    }

    /// The bus after a write to an I/O register. A write to 0xFF46 starts
    /// an OAM transfer from page `value`; a write to an address that names
    /// no register changes nothing.
    pub open spec fn write_io(self, addr: u16, value: u8) -> BusState {
        if addr == 0xFF00 {
            BusState { joypad: self.joypad.write_spec(value), ..self }
        } else if 0xFF01 <= addr <= 0xFF02 {
            BusState { serial: self.serial.write_spec(addr, value), ..self }
        } else if 0xFF04 <= addr <= 0xFF07 {
            BusState { timer: self.timer.write_spec(addr, value), ..self }
        } else if addr == 0xFF0F {
            BusState { interrupt_flag: value, ..self }
        } else if 0xFF10 <= addr <= 0xFF26 {
            BusState { apu: self.apu.write_spec(addr, value), ..self }
        } else if addr == 0xFF46 {
            BusState { dma_active: true, dma_base: value, dma_byte: 0, dma_delay: 2, ..self }
        } else if 0xFF40 <= addr <= 0xFF4B {
            BusState { ppu: self.ppu.write_register(addr, value), ..self }
        } else {
            self
        }
    }

    /// The bus after the processor wrote `value` to `addr`, no time
    /// passing. During an OAM transfer only high RAM takes the write.
    #[verifier::opaque]
    pub open spec fn raw_write(self, addr: u16, value: u8) -> BusState {
        if self.dma_active && !in_hram(addr) {
            self
        } else if addr <= 0x7FFF {
            BusState { cartridge: self.cartridge.write(addr, value), ..self }
        } else if addr <= 0x9FFF {
            BusState { ppu: self.ppu.write_vram(addr, value), ..self }
        } else if addr <= 0xBFFF {
            BusState { cartridge: self.cartridge.write(addr, value), ..self }
        } else if addr <= 0xDFFF {
            BusState { wram: self.wram.update(addr - 0xC000, value), ..self }
        } else if addr <= 0xFDFF {
            BusState { wram: self.wram.update(addr - 0xE000, value), ..self }
        } else if addr <= 0xFE9F {
            BusState { ppu: self.ppu.write_oam(addr, value), ..self }
        } else if addr <= 0xFEFF {
            self
        } else if addr <= 0xFF7F {
            self.write_io(addr, value)
        } else if addr <= 0xFFFE {
            BusState { hram: self.hram.update(addr - 0xFF80, value), ..self }
        } else {
            BusState { interrupt_enable: value, ..self }
        }
    }

    /// Where the running OAM transfer reads its next byte.
    pub open spec fn dma_source(self) -> u16 {
        word(self.dma_base, self.dma_byte)
    }

    /// The bus after the OAM transfer's share of a machine cycle: two
    /// cycles of delay, then one byte per cycle, 160 in all.
    pub open spec fn dma_stepped(self) -> BusState {
        if !self.dma_active {
            self
        } else if self.dma_delay > 0 {
            BusState { dma_delay: (self.dma_delay - 1) as u8, ..self }
        } else {
            BusState {
                ppu: self.ppu.write_oam(
                    (0xFE00 + self.dma_byte) as u16,
                    self.unblocked_raw_read(self.dma_source()),
                ),
                dma_byte: (self.dma_byte + 1) as u8,
                dma_active: self.dma_byte + 1 < DMA_LENGTH,
                ..self
            }
        }
    }

    /// The interrupt flags after the peripherals' requests of one machine
    /// cycle were taken in.
    pub open spec fn flags_after_cycle(self) -> u8 {
        requested(
            requested(
                requested(
                    requested(self.interrupt_flag, VBLANK_BIT, self.ppu.vblank_within(4)),
                    STAT_BIT,
                    self.ppu.stat_within(4),
                ),
                TIMER_BIT,
                self.timer.reload_due(4),
            ),
            SERIAL_BIT,
            self.serial.completes(4),
        )
    }

    /// The peripherals' share of a machine cycle: the pixel unit advances
    /// four dots, timer and serial port four clocks, and their interrupt
    /// requests land in IF. Entering vertical blank marks the frame ready.
    pub open spec fn peripherals_stepped(self) -> BusState {
        BusState {
            ppu: self.ppu.step_spec(4),
            timer: self.timer.step_spec(4),
            serial: self.serial.step_spec(4),
            interrupt_flag: self.flags_after_cycle(),
            frame_ready: self.frame_ready || self.ppu.vblank_within(4),
            ticks: self.ticks + 1,
            cycles: if self.cycles == u64::MAX { 0 } else { (self.cycles + 1) as u64 },
            ..self
        }
    }

    /// The bus after one machine cycle.
    #[verifier::opaque]
    pub open spec fn tick(self) -> BusState {
        self.dma_stepped().peripherals_stepped()
    }

    /// The bus after `n` machine cycles without an access.
    pub open spec fn after_ticks(self, n: nat) -> BusState
        decreases n,
    {
        if n == 0 {
            self
        } else {
            self.after_ticks((n - 1) as nat).tick()
        }
    }

    /// Whether this bus is in the middle of an OAM transfer from page
    /// `page` that was started on the bus `start` and has copied `k` bytes:
    /// the first `k` bytes of the sprite table are those of the page, the
    /// transfer runs while bytes are left, and memory below the sprite
    /// table reads as it did at the start.
    pub open spec fn dma_progress(self, start: BusState, page: u8, k: nat) -> bool {
        &&& self.wf()
        &&& self.dma_base == page
        &&& self.dma_delay == 0
        &&& k < 160 ==> self.dma_active && self.dma_byte == k
        &&& k >= 160 ==> !self.dma_active
        &&& forall|i: int|
            0 <= i < k && i < 160 ==> self.ppu.oam[i] == start.unblocked_raw_read(
                word(page, i as u8),
            )
        &&& forall|addr: u16|
            addr <= 0xFDFF ==> #[trigger] self.unblocked_raw_read(addr)
                == start.unblocked_raw_read(addr)
    }

    /// The bus after a timed read; the byte read is `raw_read(addr)`.
    pub open spec fn read(self, addr: u16) -> BusState {
        self.tick()
    }

    /// The bus after a timed write.
    pub open spec fn write(self, addr: u16, value: u8) -> BusState {
        self.raw_write(addr, value).tick()
    }

    /// The word that a timed 16-bit read yields: the low byte from `addr`,
    /// the high byte from the address after it, one cycle apart.
    pub open spec fn read_u16_value(self, addr: u16) -> u16 {
        word(self.tick().raw_read(addr.wrapping_add(1)), self.raw_read(addr))
    }

    /// The bus after a timed 16-bit read, which takes two cycles.
    pub open spec fn read_u16(self, addr: u16) -> BusState {
        self.tick().tick()
    }

    /// The bus after a timed 16-bit write. With `le` the low byte is
    /// written first, as `LD (nn), SP` does; otherwise the high byte goes
    /// first, as on the stack.
    pub open spec fn write_u16(self, addr: u16, value: u16, le: bool) -> BusState {
        if le {
            self.write(addr, low(value)).write(addr.wrapping_add(1), high(value))
        } else {
            self.write(addr.wrapping_add(1), high(value)).write(addr, low(value))
        }
    }

    /// Machine cycles' worth of dots until the frame is ready: 0 once it
    /// is, else the dots until the pixel unit enters vertical blank.
    #[verifier::opaque]
    pub open spec fn frame_cost(self) -> int {
        if self.frame_ready {
            0
        } else {
            self.ppu.dots_to_vblank()
        }
    }

    /// The bus after the host set the buttons: a line that falls requests
    /// the joypad interrupt.
    pub open spec fn with_buttons(self, pressed: u8) -> BusState {
        BusState {
            joypad: self.joypad.with_buttons(pressed),
            interrupt_flag: requested(
                self.interrupt_flag,
                JOYPAD_BIT,
                self.joypad.falling_edge(pressed),
            ),
            ..self
        }
    }
}

/// A raw write keeps the bus well formed.
pub proof fn lemma_raw_write_wf(b: BusState, addr: u16, value: u8)
    requires
        b.wf(),
    ensures
        b.raw_write(addr, value).wf(),
{
    reveal(BusState::raw_write);
}

/// The OAM transfer's share of a cycle keeps the bus well formed.
#[verifier::rlimit(50)]
pub proof fn lemma_dma_wf(b: BusState)
    requires
        b.wf(),
    ensures
        b.dma_stepped().wf(),
{
    if b.dma_active && b.dma_delay == 0 {
        let p = b.ppu.write_oam(
            (0xFE00 + b.dma_byte) as u16,
            b.unblocked_raw_read(b.dma_source()),
        );
        assert(p.wf());
    }
}

/// The wrapping cycle counter follows the cycle count.
pub proof fn lemma_cycle_counter(t: nat, c: u64)
    requires
        c == t % 0x1_0000_0000_0000_0000,
    ensures
        (if c == u64::MAX { 0 } else { c + 1 }) == (t + 1) % 0x1_0000_0000_0000_0000,
{
}

/// The peripherals' share of a cycle keeps the bus well formed.
pub proof fn lemma_peripherals_wf(b: BusState)
    requires
        b.wf(),
    ensures
        b.peripherals_stepped().wf(),
{
    crate::io::ppu::lemma_ppu_steps_wf(b.ppu, 4);
    lemma_cycle_counter(b.ticks, b.cycles);
}

/// A machine cycle keeps the bus well formed.
pub proof fn lemma_tick_wf(b: BusState)
    requires
        b.wf(),
    ensures
        b.tick().wf(),
{
    reveal(BusState::tick);
    lemma_dma_wf(b);
    lemma_peripherals_wf(b.dma_stepped());
}

/// A raw write does not move the frame.
pub proof fn lemma_raw_write_cost(b: BusState, addr: u16, value: u8)
    requires
        b.wf(),
    ensures
        b.raw_write(addr, value).frame_cost() == b.frame_cost(),
        b.raw_write(addr, value).ticks == b.ticks,
{
    reveal(BusState::raw_write);
    reveal(BusState::frame_cost);
}

/// A machine cycle brings the frame nearer unless it is ready: the cost
/// falls, or is and stays 0.
#[verifier::rlimit(50)]
pub proof fn lemma_tick_cost(b: BusState)
    requires
        b.wf(),
    ensures
        b.tick().frame_cost() <= b.frame_cost(),
        b.frame_cost() > 0 ==> b.tick().frame_cost() < b.frame_cost(),
        b.tick().frame_cost() >= 0,
        b.tick().ticks == b.ticks + 1,
{
    reveal(BusState::tick);
    reveal(BusState::frame_cost);
    lemma_dma_wf(b);
    let d = b.dma_stepped();
    assert(d.ppu.dots_to_vblank() == b.ppu.dots_to_vblank());
    crate::io::ppu::lemma_step_countdown(d.ppu, 4);
    crate::io::ppu::lemma_dot_countdown(d.ppu);
}

/// While the frame is not ready its cost is above 0.
pub proof fn lemma_cost_positive(b: BusState)
    requires
        b.wf(),
    ensures
        b.frame_cost() >= 0,
        !b.frame_ready ==> b.frame_cost() > 0,
        b.frame_ready ==> b.frame_cost() == 0,
{
    reveal(BusState::frame_cost);
    crate::io::ppu::lemma_dot_countdown(b.ppu);
}

/// Whether what is written to `addr` stays there until it is written
/// again: the address lies in video RAM, work RAM or its echo, the sprite
/// table while no OAM transfer runs, or high RAM.
pub open spec fn keeps_writes(b: BusState, addr: u16) -> bool {
    ||| in_hram(addr)
    ||| !b.dma_active && (0x8000 <= addr <= 0x9FFF || 0xC000 <= addr <= 0xFDFF || 0xFE00 <= addr
        <= 0xFE9F)
}

/// Memory that keeps writes reads back what was written.
#[verifier::rlimit(50)]
pub proof fn lemma_write_reads_back(b: BusState, addr: u16, value: u8)
    requires
        b.wf(),
        keeps_writes(b, addr),
    ensures
        b.raw_write(addr, value).raw_read(addr) == value,
        b.raw_write(addr, value).dma_active == b.dma_active,
{
    reveal(BusState::raw_write);
    reveal(BusState::raw_read);
}

/// A write to one cell of memory that keeps writes leaves every other
/// such cell as it was.
#[verifier::rlimit(50)]
pub proof fn lemma_write_leaves_others(b: BusState, addr: u16, other: u16, byte: u8)
    requires
        b.wf(),
        keeps_writes(b, addr),
        keeps_writes(b, other),
        other != addr,
        other != addr + 0x2000,
        addr != other + 0x2000,
    ensures
        b.raw_write(other, byte).raw_read(addr) == b.raw_read(addr),
{
    reveal(BusState::raw_write);
    reveal(BusState::raw_read);
}

/// A machine cycle leaves memory that keeps writes as it was.
#[verifier::rlimit(50)]
pub proof fn lemma_tick_leaves_memory(b: BusState, addr: u16)
    requires
        b.wf(),
        keeps_writes(b, addr),
    ensures
        b.tick().raw_read(addr) == b.raw_read(addr),
        keeps_writes(b.tick(), addr),
{
    reveal(BusState::raw_read);
    reveal(BusState::tick);
    let d = b.dma_stepped();
    crate::io::ppu::lemma_step_keeps_memory(d.ppu, 4);
    if in_hram(addr) {
        assert(b.tick().hram == b.hram);
    } else {
        assert(d == b);
        assert(b.tick().wram == b.wram);
        assert(b.tick().ppu.vram == b.ppu.vram);
        assert(b.tick().ppu.oam == b.ppu.oam);
        assert(!b.tick().dma_active);
    }
}

/// Memory that keeps writes reads back what was written, and neither a
/// machine cycle nor a write to another cell of such memory changes what it
/// holds.
pub proof fn lemma_memory_keeps_writes(b: BusState, addr: u16, value: u8, other: u16, byte: u8)
    requires
        b.wf(),
        keeps_writes(b, addr),
    ensures
        b.raw_write(addr, value).raw_read(addr) == value,
        b.raw_write(addr, value).dma_active == b.dma_active,
        b.tick().raw_read(addr) == b.raw_read(addr),
        keeps_writes(b.tick(), addr),
        keeps_writes(b, other) && other != addr && other != addr + 0x2000 && addr != other
            + 0x2000 ==> b.raw_write(other, byte).raw_read(addr) == b.raw_read(addr),
{
    lemma_write_reads_back(b, addr, value);
    lemma_tick_leaves_memory(b, addr);
    if keeps_writes(b, other) && other != addr && other != addr + 0x2000 && addr != other
        + 0x2000 {
        lemma_write_leaves_others(b, addr, other, byte);
    }
}

/// Joypad, serial and timer registers read back what their peripheral
/// keeps of a write: the joypad its two select bits, SB everything, SC
/// bits 7 and 0 with the rest set, TIMA and TMA everything, TAC its low
/// three bits with the rest set; DIV reads 0 after any write.
#[verifier::rlimit(50)]
pub proof fn lemma_peripheral_registers_read_back(b: BusState, value: u8)
    requires
        !b.dma_active,
    ensures
        b.raw_write(0xFF00, value).raw_read(0xFF00) == b.joypad.write_spec(value).read_spec(),
        b.raw_write(0xFF00, value).raw_read(0xFF00) / 16 == 12 + (value / 16) % 4,
        b.raw_write(0xFF01, value).raw_read(0xFF01) == value,
        b.raw_write(0xFF02, value).raw_read(0xFF02) == (value / 128) * 128 + 0x7E + value % 2,
        b.raw_write(0xFF04, value).raw_read(0xFF04) == 0,
        b.raw_write(0xFF05, value).raw_read(0xFF05) == value,
        b.raw_write(0xFF06, value).raw_read(0xFF06) == value,
        b.raw_write(0xFF07, value).raw_read(0xFF07) == 0xF8 + value % 8,
{
    reveal(BusState::raw_write);
    reveal(BusState::raw_read);
    crate::io::joypad::lemma_select_bits_read_back(b.joypad, value);
    crate::io::timer::lemma_div_reads_zero_after_write(b.timer, value);
    crate::io::timer::lemma_timer_registers_read_back(b.timer, value);
    crate::io::serial::lemma_serial_registers_read_back(b.serial, value);
}

/// The interrupt registers and the sound registers read back what was
/// written, IF with its three unused bits set. The address of an OAM
/// transfer reads back too, behind the block that the transfer puts on
/// the bus.
#[verifier::rlimit(50)]
pub proof fn lemma_plain_registers_read_back(b: BusState, addr: u16, value: u8)
    requires
        !b.dma_active,
    ensures
        b.raw_write(0xFF0F, value).raw_read(0xFF0F) == 0xE0 + value % 32,
        b.raw_write(0xFFFF, value).raw_read(0xFFFF) == value,
        0xFF10 <= addr <= 0xFF26 ==> b.raw_write(addr, value).raw_read(addr) == value,
        b.raw_write(0xFF46, value).unblocked_raw_read(0xFF46) == value,
        b.raw_write(0xFF46, value).dma_active,
{
    reveal(BusState::raw_write);
    reveal(BusState::raw_read);
}

/// The registers of the pixel unit read back what was written, but for
/// two: STAT keeps bits 6..3 and shows bit 7 set, the compare flag and the
/// mode below them; LY takes no write.
#[verifier::rlimit(50)]
pub proof fn lemma_ppu_registers_read_back(b: BusState, addr: u16, value: u8)
    requires
        !b.dma_active,
    ensures
        0xFF40 <= addr <= 0xFF4B && addr != 0xFF41 && addr != 0xFF44 && addr != 0xFF46
            ==> b.raw_write(addr, value).raw_read(addr) == value,
        b.raw_write(0xFF41, value).raw_read(0xFF41) == 0x80 + ((value / 8) % 16) * 8 + (
        if b.ppu.ly == b.ppu.lyc { 4int } else { 0int }) + b.ppu.mode.number(),
        b.raw_write(0xFF44, value).raw_read(0xFF44) == b.raw_read(0xFF44),
        b.raw_write(0xFF44, value).raw_read(0xFF44) == b.ppu.ly,
{
    reveal(BusState::raw_write);
    reveal(BusState::raw_read);
}

/// The interrupt that is served first is pending, and none with a lower
/// bit is; none is served only if none of the five is pending.
pub proof fn lemma_pending_is_lowest(b: BusState)
    ensures
        match b.pending() {
            Some(bit) => bit <= 4 && b.is_pending(bit) && forall|lower: u8|
                lower < bit ==> !b.is_pending(lower),
            None => forall|bit: u8| bit <= 4 ==> !b.is_pending(bit),
        },
{
}

/// `n` machine cycles move the pixel unit `4 * n` dots on in its frame,
/// whatever the processor or an OAM transfer does meanwhile to memory; so
/// the unit is back at the same dot after the 17556 cycles of a frame.
pub proof fn lemma_frame_takes_17556_cycles(b: BusState, n: nat)
    requires
        b.wf(),
    ensures
        b.after_ticks(n).wf(),
        b.after_ticks(n).ppu.frame_position() == (b.ppu.frame_position() + 4 * n) % 70224,
        b.after_ticks(17556).ppu.frame_position() == b.ppu.frame_position(),
        b.after_ticks(17556).ppu.ly == b.ppu.ly,
        b.after_ticks(17556).ppu.dots == b.ppu.dots,
{
    lemma_ticks_advance_frame(b, n);
    lemma_ticks_advance_frame(b, 17556);
    let here = b.ppu;
    let there = b.after_ticks(17556).ppu;
    crate::io::ppu::lemma_dot_advances_frame(here);
    assert((here.frame_position() + 70224) % 70224 == here.frame_position()) by {
        vstd::arithmetic::div_mod::lemma_mod_add_multiples_vanish(here.frame_position(), 70224);
        vstd::arithmetic::div_mod::lemma_small_mod(here.frame_position() as nat, 70224);
    }
    assert(there.ly == here.ly && there.dots == here.dots) by {
        assert(there.ly * 456 + there.dots == here.ly * 456 + here.dots);
        if there.ly < here.ly {
            assert(there.ly * 456 + 456 <= here.ly * 456);
        } else if there.ly > here.ly {
            assert(there.ly * 456 >= here.ly * 456 + 456);
        }
    }
}

/// `n` machine cycles move the pixel unit `4 * n` dots on in its frame.
pub proof fn lemma_ticks_advance_frame(b: BusState, n: nat)
    requires
        b.wf(),
    ensures
        b.after_ticks(n).wf(),
        b.after_ticks(n).ppu.frame_position() == (b.ppu.frame_position() + 4 * n) % 70224,
    decreases n,
{
    crate::io::ppu::lemma_dot_advances_frame(b.ppu);
    if n == 0 {
        vstd::arithmetic::div_mod::lemma_small_mod(b.ppu.frame_position() as nat, 70224);
    } else {
        let before = b.after_ticks((n - 1) as nat);
        lemma_ticks_advance_frame(b, (n - 1) as nat);
        lemma_tick_wf(before);
        lemma_dma_wf(before);
        reveal(BusState::tick);
        let d = before.dma_stepped();
        assert(d.ppu.frame_position() == before.ppu.frame_position());
        crate::io::ppu::lemma_steps_advance_frame(d.ppu, 4);
        let p = b.ppu.frame_position();
        let q = before.ppu.frame_position();
        assert(b.after_ticks(n).ppu.frame_position() == (q + 4) % 70224);
        assert((q + 4) % 70224 == (p + 4 * n) % 70224) by {
            vstd::arithmetic::div_mod::lemma_add_mod_noop(p + 4 * (n - 1), 4, 70224);
            vstd::arithmetic::div_mod::lemma_add_mod_noop(q, 4, 70224);
            vstd::arithmetic::div_mod::lemma_mod_twice(p + 4 * (n - 1), 70224);
        }
    }
}

/// While an OAM transfer runs the processor reaches only high RAM: every
/// other address reads 0xFF, and a write to it is lost.
pub proof fn lemma_dma_blocks_bus(b: BusState, addr: u16, value: u8)
    requires
        b.dma_active,
        !in_hram(addr),
    ensures
        b.raw_read(addr) == 0xFF,
        b.raw_write(addr, value) == b,
{
    reveal(BusState::raw_read);
    reveal(BusState::raw_write);
}

/// A machine cycle changes nothing below the sprite table, and of the
/// transfer and the sprite table only what the transfer's own share does.
#[verifier::rlimit(50)]
pub proof fn lemma_tick_keeps_sources(b: BusState)
    requires
        b.wf(),
    ensures
        b.tick().wf(),
        forall|addr: u16|
            addr <= 0xFDFF ==> #[trigger] b.tick().unblocked_raw_read(addr)
                == b.unblocked_raw_read(addr),
        b.tick().ppu.oam == b.dma_stepped().ppu.oam,
        b.tick().dma_active == b.dma_stepped().dma_active,
        b.tick().dma_byte == b.dma_stepped().dma_byte,
        b.tick().dma_delay == b.dma_stepped().dma_delay,
        b.tick().dma_base == b.dma_base,
{
    reveal(BusState::tick);
    lemma_tick_wf(b);
    let d = b.dma_stepped();
    crate::io::ppu::lemma_step_keeps_memory(d.ppu, 4);
    assert(d.ppu.vram == b.ppu.vram);
    assert(b.tick().ppu.vram == b.ppu.vram);
    assert(b.tick().wram == b.wram);
    assert(b.tick().cartridge == b.cartridge);
}

/// An OAM transfer copies the 160 bytes of its page into the sprite table,
/// one per machine cycle after two cycles of delay, and then ends: `2 + k`
/// cycles after the write to 0xFF46 the first `k` bytes are in place. The
/// page lies below the sprite table.
pub proof fn lemma_dma_transfer(b: BusState, page: u8, k: nat)
    requires
        b.wf(),
        !b.dma_active,
        page <= 0xFD,
        k <= 160,
    ensures
        b.raw_write(0xFF46, page).after_ticks(2 + k).dma_progress(b, page, k),
    decreases k,
{
    let started = b.raw_write(0xFF46, page);
    if k == 0 {
        reveal(BusState::raw_write);
        lemma_raw_write_wf(b, 0xFF46, page);
        let first = started.tick();
        lemma_tick_keeps_sources(started);
        lemma_tick_keeps_sources(first);
        assert(started.after_ticks(1) == first) by {
            assert(started.after_ticks(0) == started);
        }
        assert(started.after_ticks(2) == first.tick());
        assert forall|addr: u16| addr <= 0xFDFF implies #[trigger] first.tick().unblocked_raw_read(
            addr,
        ) == b.unblocked_raw_read(addr) by {
            assert(first.unblocked_raw_read(addr) == started.unblocked_raw_read(addr));
            assert(started.unblocked_raw_read(addr) == b.unblocked_raw_read(addr));
        }
    } else {
        let before = started.after_ticks((2 + k - 1) as nat);
        lemma_dma_transfer(b, page, (k - 1) as nat);
        assert(before.dma_progress(b, page, (k - 1) as nat));
        lemma_tick_keeps_sources(before);
        let after = before.tick();
        assert(started.after_ticks(2 + k) == after);
        let d = before.dma_stepped();
        assert(word(page, (k - 1) as u8) <= 0xFDFF);
        assert(d.ppu.oam == before.ppu.oam.update(
            k - 1,
            b.unblocked_raw_read(word(page, (k - 1) as u8)),
        ));
        assert forall|addr: u16| addr <= 0xFDFF implies #[trigger] after.unblocked_raw_read(addr)
            == b.unblocked_raw_read(addr) by {
            assert(before.unblocked_raw_read(addr) == b.unblocked_raw_read(addr));
        }
        assert forall|i: int| 0 <= i < k && i < 160 implies after.ppu.oam[i]
            == b.unblocked_raw_read(word(page, i as u8)) by {
            if i < k - 1 {
                assert(before.ppu.oam[i] == b.unblocked_raw_read(word(page, i as u8)));
            }
        }
    }
}

/// Every timed access spends exactly one machine cycle on every
/// peripheral: whatever the access did to the bus, the pixel unit then
/// advances four dots, the timer and the serial port four clocks each, and
/// the cycle count goes up by one.
pub proof fn lemma_access_takes_one_cycle(b: BusState, addr: u16, value: u8)
    requires
        b.wf(),
    ensures
        b.read(addr).ticks == b.ticks + 1,
        b.read(addr).timer == b.timer.step_spec(4),
        b.read(addr).serial == b.serial.step_spec(4),
        b.read(addr).ppu == b.dma_stepped().ppu.step_spec(4),
        b.write(addr, value).ticks == b.ticks + 1,
        b.write(addr, value).timer == b.raw_write(addr, value).timer.step_spec(4),
        b.write(addr, value).serial == b.raw_write(addr, value).serial.step_spec(4),
        b.write(addr, value).ppu == b.raw_write(addr, value).dma_stepped().ppu.step_spec(4),
{
    reveal(BusState::tick);
    reveal(BusState::raw_write);
}

impl Bus {
    #[verifier::opaque]
    pub open spec fn wf(&self) -> bool {
        &&& self@.wf()
        &&& self.cartridge.wf()
        &&& self.ppu.wf()
    }

    /// Builds the bus around the cartridge that `rom_data` holds, or says
    /// why the image is refused.
    pub fn new(rom_data: Vec<u8>) -> (r: Result<Bus, RomError>)
        ensures
            match r {
                Ok(b) => verdict(rom_data@) is None && b.wf() && b@ == BusState::power_on(
                    rom_data@,
                ),
                Err(e) => verdict(rom_data@) == Some(e),
            },
    {
        proof {
            reveal(Bus::wf);
            reveal(BusState::frame_cost);
        }
        let cartridge = match Cartridge::new(rom_data) {
            Ok(c) => c,
            Err(e) => {
                return Err(e);
            },
        };
        let b = Bus {
            cartridge,
            wram: [0u8;8192],
            hram: [0u8;127],
            ppu: Ppu::new(),
            apu: Apu::new(),
            timer: Timer::new(),
            joypad: Joypad::new(),
            serial: Serial::new(),
            dma_active: false,
            dma_base: 0,
            dma_byte: 0,
            dma_delay: 0,
            interrupt_flag: 0x00,
            interrupt_enable: 0x00,
            accumulated_cycles: 0,
            elapsed: Ghost(0),
            frame_ready: false,
        };
        proof {
            let m = BusState::power_on(rom_data@);
            assert(b@.wram =~= m.wram);
            assert(b@.hram =~= m.hram);
            assert(b@.apu.registers =~= m.apu.registers);
        }
        Ok(b)
    }

    /// Spends one machine cycle: the OAM transfer moves on, then the pixel
    /// unit, the timer and the serial port each advance by four clocks.
    /// Unless the frame is ready already, the cycle brings it nearer.
    #[verifier::rlimit(50)]
    pub fn tick(&mut self)
        requires
            old(self).wf(),
        ensures
            final(self).wf(),
            final(self)@ == old(self)@.tick(),
            final(self)@.ticks == old(self)@.ticks + 1,
            0 <= final(self)@.frame_cost() <= old(self)@.frame_cost(),
            old(self)@.frame_cost() > 0 ==> final(self)@.frame_cost() < old(self)@.frame_cost(),
    {
        proof {
            reveal(Bus::wf);
            reveal(BusState::frame_cost);
        }
        proof {
            reveal(BusState::tick);
            lemma_tick_wf(self@);
            lemma_tick_cost(self@);
        }
        if self.dma_active {
            if self.dma_delay > 0 {
                self.dma_delay = self.dma_delay - 1;
            } else {
                let src_addr = make_word(self.dma_base, self.dma_byte);
                let byte = self.unblocked_raw_read(src_addr);
                self.ppu.write_oam(0xFE00 + (self.dma_byte as u16), byte);
                self.dma_byte = self.dma_byte + 1;
                if self.dma_byte >= DMA_LENGTH {
                    self.dma_active = false;
                }
            }
        }
        assert(self@ == old(self)@.dma_stepped());
        let (v_blank, lcd_stat) = self.ppu.step(CLOCKS_PER_CYCLE);
        if v_blank {
            self.interrupt_flag = set_bit(self.interrupt_flag, VBLANK_BIT);
            self.frame_ready = true;
        }
        if lcd_stat {
            self.interrupt_flag = set_bit(self.interrupt_flag, STAT_BIT);
        }
        if self.timer.step(CLOCKS_PER_CYCLE) {
            self.interrupt_flag = set_bit(self.interrupt_flag, TIMER_BIT);
        }
        if self.serial.step(CLOCKS_PER_CYCLE) {
            self.interrupt_flag = set_bit(self.interrupt_flag, SERIAL_BIT);
        }
        self.accumulated_cycles = if self.accumulated_cycles == u64::MAX {
            0
        } else {
            self.accumulated_cycles + 1
        };
        proof {
            self.elapsed = Ghost((self.elapsed@ + 1) as nat);
        }
    }

    /// Reads a byte and spends one machine cycle.
    pub fn read(&mut self, addr: u16) -> (value: u8)
        requires
            old(self).wf(),
        ensures
            final(self).wf(),
            value == old(self)@.raw_read(addr),
            final(self)@ == old(self)@.read(addr),
            final(self)@.ticks == old(self)@.ticks + 1,
            0 <= final(self)@.frame_cost() <= old(self)@.frame_cost(),
            old(self)@.frame_cost() > 0 ==> final(self)@.frame_cost() < old(self)@.frame_cost(),
    {
        proof {
            reveal(Bus::wf);
            reveal(BusState::frame_cost);
        }
        let value = self.raw_read(addr);
        self.tick();
        value
    }

    /// Writes a byte and spends one machine cycle.
    pub fn write(&mut self, addr: u16, value: u8)
        requires
            old(self).wf(),
        ensures
            final(self).wf(),
            final(self)@ == old(self)@.write(addr, value),
            final(self)@.ticks == old(self)@.ticks + 1,
            0 <= final(self)@.frame_cost() <= old(self)@.frame_cost(),
            old(self)@.frame_cost() > 0 ==> final(self)@.frame_cost() < old(self)@.frame_cost(),
    {
        proof {
            reveal(Bus::wf);
            reveal(BusState::frame_cost);
        }
        self.raw_write(addr, value);
        self.tick();
    }

    /// Reads a word, low byte first, and spends two machine cycles.
    pub fn read_u16(&mut self, addr: u16) -> (value: u16)
        requires
            old(self).wf(),
        ensures
            final(self).wf(),
            value == old(self)@.read_u16_value(addr),
            final(self)@ == old(self)@.read_u16(addr),
            final(self)@.ticks == old(self)@.ticks + 2,
            0 <= final(self)@.frame_cost() <= old(self)@.frame_cost(),
            old(self)@.frame_cost() > 0 ==> final(self)@.frame_cost() < old(self)@.frame_cost(),
    {
        proof {
            reveal(Bus::wf);
            reveal(BusState::frame_cost);
        }
        let lo = self.read(addr);
        let hi = self.read(addr.wrapping_add(1));
        make_word(hi, lo)
    }

    /// Writes a word and spends two machine cycles. With `le` the low byte
    /// goes first; otherwise the high byte does.
    pub fn write_u16(&mut self, addr: u16, value: u16, le: bool)
        requires
            old(self).wf(),
        ensures
            final(self).wf(),
            final(self)@ == old(self)@.write_u16(addr, value, le),
            final(self)@.ticks == old(self)@.ticks + 2,
            0 <= final(self)@.frame_cost() <= old(self)@.frame_cost(),
            old(self)@.frame_cost() > 0 ==> final(self)@.frame_cost() < old(self)@.frame_cost(),
    {
        proof {
            reveal(Bus::wf);
            reveal(BusState::frame_cost);
        }
        let lo = low_byte(value);
        let hi = high_byte(value);
        if le {
            self.write(addr, lo);
            self.write(addr.wrapping_add(1), hi);
        } else {
            self.write(addr.wrapping_add(1), hi);
            self.write(addr, lo);
        }
    }

    /// The byte that the processor sees at an address, no time passing.
    pub fn raw_read(&self, addr: u16) -> (value: u8)
        requires
            self.wf(),
        ensures
            value == self@.raw_read(addr),
    {
        proof {
            reveal(Bus::wf);
            reveal(BusState::frame_cost);
        }
        proof {
            reveal(BusState::raw_read);
        }
        if self.dma_active {
            if addr < 0xFF80 || addr > 0xFFFE {
                return 0xFF;
            }
        }
        self.unblocked_raw_read(addr)
    }

    /// The byte at an address, whether or not an OAM transfer is running.
    pub fn unblocked_raw_read(&self, addr: u16) -> (value: u8)
        requires
            self.wf(),
        ensures
            value == self@.unblocked_raw_read(addr),
    {
        proof {
            reveal(Bus::wf);
            reveal(BusState::frame_cost);
        }
        match addr {
            0x0000..=0x7FFF => self.cartridge.read(addr),
            0x8000..=0x9FFF => self.ppu.read_vram(addr),
            0xA000..=0xBFFF => self.cartridge.read(addr),
            0xC000..=0xDFFF => self.wram[(addr - 0xC000) as usize],
            0xE000..=0xFDFF => self.wram[(addr - 0xE000) as usize],
            0xFE00..=0xFE9F => self.ppu.read_oam(addr),
            0xFEA0..=0xFEFF => 0xFF,
            0xFF00..=0xFF7F => self.read_io(addr),
            0xFF80..=0xFFFE => self.hram[(addr - 0xFF80) as usize],
            0xFFFF => self.interrupt_enable,
        }
    }

    /// Writes a byte as the processor does, no time passing.
    #[verifier::rlimit(50)]
    pub fn raw_write(&mut self, addr: u16, value: u8)
        requires
            old(self).wf(),
        ensures
            final(self).wf(),
            final(self)@ == old(self)@.raw_write(addr, value),
            final(self)@.ticks == old(self)@.ticks,
            final(self)@.frame_cost() == old(self)@.frame_cost(),
    {
        proof {
            reveal(Bus::wf);
            reveal(BusState::frame_cost);
        }
        proof {
            reveal(BusState::raw_write);
        }
        if self.dma_active {
            if addr < 0xFF80 || addr > 0xFFFE {
                return ;
            }
        }
        match addr {
            0x0000..=0x7FFF => self.cartridge.write(addr, value),
            0x8000..=0x9FFF => self.ppu.write_vram(addr, value),
            0xA000..=0xBFFF => self.cartridge.write(addr, value),
            0xC000..=0xDFFF => {
                self.wram[(addr - 0xC000) as usize] = value;
            },
            0xE000..=0xFDFF => {
                self.wram[(addr - 0xE000) as usize] = value;
            },
            0xFE00..=0xFE9F => self.ppu.write_oam(addr, value),
            0xFEA0..=0xFEFF => {},
            0xFF00..=0xFF7F => self.write_io(addr, value),
            0xFF80..=0xFFFE => {
                self.hram[(addr - 0xFF80) as usize] = value;
            },
            0xFFFF => {
                self.interrupt_enable = value;
            },
        }
    }

    pub fn read_io(&self, addr: u16) -> (value: u8)
        requires
            self.wf(),
        ensures
            value == self@.read_io(addr),
    {
        proof {
            reveal(Bus::wf);
            reveal(BusState::frame_cost);
        }
        match addr {
            0xFF00 => self.joypad.read(),
            0xFF01..=0xFF02 => self.serial.read(addr),
            0xFF04..=0xFF07 => self.timer.read(addr),
            0xFF0F => 0xE0 + self.interrupt_flag % 32,
            0xFF10..=0xFF26 => self.apu.read(addr),
            0xFF46 => self.dma_base,
            0xFF40..=0xFF4B => self.ppu.read_register(addr),
            _ => 0xFF,
        }
    }

    pub fn write_io(&mut self, addr: u16, value: u8)
        requires
            old(self).wf(),
        ensures
            final(self).wf(),
            final(self)@ == old(self)@.write_io(addr, value),
    {
        proof {
            reveal(Bus::wf);
            reveal(BusState::frame_cost);
        }
        match addr {
            0xFF00 => self.joypad.write(value),
            0xFF01..=0xFF02 => self.serial.write(addr, value),
            0xFF04..=0xFF07 => self.timer.write(addr, value),
            0xFF0F => {
                self.interrupt_flag = value;
            },
            0xFF10..=0xFF26 => self.apu.write(addr, value),
            0xFF46 => {
                self.dma_active = true;
                self.dma_base = value;
                self.dma_byte = 0;
                self.dma_delay = 2;
            },
            0xFF40..=0xFF4B => self.ppu.write_register(addr, value),
            _ => {},
        }
    }

    /// The pending interrupt that is served first, if any is pending.
    pub fn pending_interrupt(&self) -> (p: Option<u8>)
        ensures
            p == self@.pending(),
    {
        proof {
            reveal(Bus::wf);
            reveal(BusState::frame_cost);
        }
        let mut bit: u8 = 0;
        while bit < 5
            invariant
                bit <= 5,
                forall|b: u8| b < bit ==> !self@.is_pending(b),
            decreases 5 - bit,
        {
            if test_bit(self.interrupt_enable, bit) && test_bit(self.interrupt_flag, bit) {
                return Some(bit);
            }
            bit = bit + 1;
        }
        None
    }

    /// Takes back the request of interrupt `bit`.
    pub fn acknowledge(&mut self, bit: u8)
        requires
            old(self).wf(),
        ensures
            final(self).wf(),
            final(self)@ == old(self)@.acknowledged(bit),
            final(self)@.ticks == old(self)@.ticks,
            final(self)@.frame_cost() == old(self)@.frame_cost(),
    {
        proof {
            reveal(Bus::wf);
            reveal(BusState::frame_cost);
        }
        self.interrupt_flag = clear_bit(self.interrupt_flag, bit);
    }

    /// Hands over the complete lines that the serial port has sent; the
    /// line still being sent stays behind.
    pub fn take_serial_lines(&mut self) -> (lines: Vec<u8>)
        requires
            old(self).wf(),
        ensures
            final(self).wf(),
            lines@ + final(self)@.serial.log == old(self)@.serial.log,
            forall|i: int|
                0 <= i < final(self)@.serial.log.len() ==> final(self)@.serial.log[i]
                    != crate::io::serial::LINE_FEED,
            lines@.len() == 0 || lines@.last() == crate::io::serial::LINE_FEED,
            final(self)@ == (BusState {
                serial: SerialState { log: final(self)@.serial.log, ..old(self)@.serial },
                ..old(self)@
            }),
    {
        proof {
            reveal(Bus::wf);
        }
        self.serial.take_lines()
    }

    /// Hands over the bytes that the serial port has sent since the last
    /// call, oldest first.
    pub fn take_serial_log(&mut self) -> (sent: Vec<u8>)
        requires
            old(self).wf(),
        ensures
            final(self).wf(),
            sent@ == old(self)@.serial.log,
            final(self)@ == (BusState {
                serial: SerialState { log: Seq::empty(), ..old(self)@.serial },
                ..old(self)@
            }),
    {
        proof {
            reveal(Bus::wf);
        }
        self.serial.take_log()
    }

    /// Sets the button state, 0 meaning pressed: bit 7 down, 6 up, 5 left,
    /// 4 right, 3 start, 2 select, 1 B, 0 A. A fresh press on a selected
    /// line requests the joypad interrupt.
    pub fn set_buttons(&mut self, pressed: u8)
        requires
            old(self).wf(),
        ensures
            final(self).wf(),
            final(self)@ == old(self)@.with_buttons(pressed),
    {
        proof {
            reveal(Bus::wf);
            reveal(BusState::frame_cost);
        }
        if self.joypad.set_buttons(pressed) {
            self.interrupt_flag = set_bit(self.interrupt_flag, JOYPAD_BIT);
        }
    }
}

} // verus!
