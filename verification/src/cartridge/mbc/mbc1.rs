//! The MBC1 controller: up to 128 ROM banks of 16 KiB and up to 16 RAM banks
//! of 8 KiB, chosen by a 5-bit and a 2-bit register.

use vstd::prelude::*;
use crate::cartridge::mbc::Mbc;
use crate::cartridge::RomError;

verus! {

pub const ROM_BANK_SIZE: usize = 0x4000;

pub const RAM_BANK_SIZE: usize = 0x2000;

pub const ROM_SIZE_AT: usize = 0x0148;

pub const RAM_SIZE_AT: usize = 0x0149;

pub struct Mbc1 {
    pub rom: Vec<u8>,
    pub num_of_rom_banks: usize,
    pub ram: Vec<u8>,
    pub num_of_ram_banks: usize,
    pub ram_enabled: bool,
    /// The 5-bit ROM bank register; never 0.
    pub bank_reg_1: u8,
    /// The 2-bit register: ROM bank bits 5..6, or the RAM bank.
    pub bank_reg_2: u8,
    pub advanced_mode: bool,
    pub ram_persistent: bool,
}

/// The controller as contracts see it.
pub struct Mbc1State {
    pub rom: Seq<u8>,
    pub rom_banks: nat,
    pub ram: Seq<u8>,
    pub ram_banks: nat,
    pub ram_enabled: bool,
    pub bank_reg_1: u8,
    pub bank_reg_2: u8,
    pub advanced_mode: bool,
    pub ram_persistent: bool,
}

impl View for Mbc1 {
    type V = Mbc1State;

    open spec fn view(&self) -> Mbc1State {
        Mbc1State {
            rom: self.rom@,
            rom_banks: self.num_of_rom_banks as nat,
            ram: self.ram@,
            ram_banks: self.num_of_ram_banks as nat,
            ram_enabled: self.ram_enabled,
            bank_reg_1: self.bank_reg_1,
            bank_reg_2: self.bank_reg_2,
            advanced_mode: self.advanced_mode,
            ram_persistent: self.ram_persistent,
        }
    }
}

/// The number of 16 KiB ROM banks that the header byte at 0x0148 declares:
/// `1 << (code + 1)`, for the codes up to 8.
pub open spec fn rom_banks_of(code: u8) -> Option<nat> {
    if code == 0 {
        Some(2)
    } else if code == 1 {
        Some(4)
    } else if code == 2 {
        Some(8)
    } else if code == 3 {
        Some(16)
    } else if code == 4 {
        Some(32)
    } else if code == 5 {
        Some(64)
    } else if code == 6 {
        Some(128)
    } else if code == 7 {
        Some(256)
    } else if code == 8 {
        Some(512)
    } else {
        None
    }
}

/// The number of 8 KiB RAM banks that the header byte at 0x0149 declares.
pub open spec fn ram_banks_of(code: u8) -> Option<nat> {
    if code == 0 {
        Some(0)
    } else if code == 2 {
        Some(1)
    } else if code == 3 {
        Some(4)
    } else if code == 4 {
        Some(16)
    } else if code == 5 {
        Some(8)
    } else {
        None
    }
}

/// Why an image cannot be used with this controller, if it cannot.
pub open spec fn mbc1_verdict(rom: Seq<u8>) -> Option<RomError> {
    if rom.len() <= RAM_SIZE_AT {
        Some(RomError::HeaderMissing)
    } else if ram_banks_of(rom[RAM_SIZE_AT as int]) is None {
        Some(RomError::UnsupportedRamSize(rom[RAM_SIZE_AT as int]))
    } else if rom_banks_of(rom[ROM_SIZE_AT as int]) is None {
        Some(RomError::UnsupportedRomSize(rom[ROM_SIZE_AT as int]))
    } else if rom.len() < rom_banks_of(rom[ROM_SIZE_AT as int]).unwrap() * ROM_BANK_SIZE {
        Some(RomError::Truncated)
    } else {
        None
    }
}

impl Mbc1State {
    /// The controller right after the image was loaded: RAM zeroed and
    /// disabled, ROM bank 1 selected, simple banking mode.
    pub open spec fn loaded(rom: Seq<u8>, ram_persistent: bool) -> Mbc1State {
        let ram_banks = ram_banks_of(rom[RAM_SIZE_AT as int]).unwrap();
        Mbc1State {
            rom,
            rom_banks: rom_banks_of(rom[ROM_SIZE_AT as int]).unwrap(),
            ram: Seq::new(ram_banks * (RAM_BANK_SIZE as nat), |i: int| 0u8),
            ram_banks,
            ram_enabled: false,
            bank_reg_1: 1,
            bank_reg_2: 0,
            advanced_mode: false,
            ram_persistent,
        }
    }

    pub open spec fn wf(self) -> bool {
        &&& 2 <= self.rom_banks <= 512
        &&& self.rom.len() >= self.rom_banks * ROM_BANK_SIZE
        &&& self.ram_banks <= 16
        &&& self.ram.len() == self.ram_banks * RAM_BANK_SIZE
        &&& 1 <= self.bank_reg_1 <= 31
        &&& self.bank_reg_2 <= 3
    }

    /// The bank seen at 0x0000..=0x3FFF.
    pub open spec fn low_bank(self) -> nat {
        if self.advanced_mode {
            ((self.bank_reg_2 * 32) as nat) % self.rom_banks
        } else {
            0
        }
    }

    /// The bank seen at 0x4000..=0x7FFF.
    pub open spec fn high_bank(self) -> nat {
        ((self.bank_reg_2 * 32 + self.bank_reg_1) as nat) % self.rom_banks
    }

    /// The RAM bank seen at 0xA000..=0xBFFF.
    pub open spec fn ram_bank(self) -> nat {
        if self.advanced_mode && self.ram_banks > 0 {
            (self.bank_reg_2 as nat) % self.ram_banks
        } else {
            0
        }
    }

    /// Where in the image a ROM address lands.
    pub open spec fn rom_index(self, addr: u16) -> int {
        if addr < 0x4000 {
            self.low_bank() * ROM_BANK_SIZE + addr
        } else {
            self.high_bank() * ROM_BANK_SIZE + (addr - 0x4000)
        }
    }

    /// Where in RAM a RAM address lands.
    pub open spec fn ram_index(self, addr: u16) -> int {
        self.ram_bank() * RAM_BANK_SIZE + (addr - 0xA000)
    }

    /// Whether RAM answers at all.
    pub open spec fn ram_visible(self) -> bool {
        self.ram_enabled && self.ram_banks > 0
    }

    pub open spec fn read_rom(self, addr: u16) -> u8 {
        self.rom[self.rom_index(addr)]
    }

    pub open spec fn read_ram(self, addr: u16) -> u8 {
        if self.ram_visible() {
            self.ram[self.ram_index(addr)]
        } else {
            0xFF
        }
    }

    /// A write into the ROM range sets one of the four registers, by band.
    pub open spec fn write_rom(self, addr: u16, value: u8) -> Mbc1State {
        if addr < 0x2000 {
            Mbc1State { ram_enabled: value % 16 == 0x0A, ..self }
        } else if addr < 0x4000 {
            Mbc1State { bank_reg_1: if value % 32 == 0 { 1 } else { value % 32 }, ..self }
        } else if addr < 0x6000 {
            Mbc1State { bank_reg_2: value % 4, ..self }
        } else {
            Mbc1State { advanced_mode: value % 2 == 1, ..self }
        }
    }

    pub open spec fn write_ram(self, addr: u16, value: u8) -> Mbc1State {
        if self.ram_visible() {
            Mbc1State { ram: self.ram.update(self.ram_index(addr), value), ..self }
        } else {
            self
        }
    }
}

/// Every ROM bank that the controller selects exists, and every address it
/// forms lies inside the image and inside RAM.
pub proof fn lemma_banks_in_range(s: Mbc1State, addr: u16)
    requires
        s.wf(),
    ensures
        s.low_bank() < s.rom_banks,
        s.high_bank() < s.rom_banks,
        addr <= 0x7FFF ==> 0 <= s.rom_index(addr) < s.rom.len(),
        s.ram_banks > 0 ==> s.ram_bank() < s.ram_banks,
        s.ram_banks > 0 && 0xA000 <= addr <= 0xBFFF ==> 0 <= s.ram_index(addr) < s.ram.len(),
{
    let n = s.rom_banks as int;
    let lo = s.low_bank() as int;
    let hi = s.high_bank() as int;
    assert(lo * 0x4000 + 0x4000 <= n * 0x4000) by (nonlinear_arith)
        requires
            0 <= lo < n,
    ;
    assert(hi * 0x4000 + 0x4000 <= n * 0x4000) by (nonlinear_arith)
        requires
            0 <= hi < n,
    ;
    if s.ram_banks > 0 {
        let m = s.ram_banks as int;
        let b = s.ram_bank() as int;
        assert(b * 0x2000 + 0x2000 <= m * 0x2000) by (nonlinear_arith)
            requires
                0 <= b < m,
        ;
    }
}

/// Writing a value whose low five bits are 0 to the ROM bank register
/// selects bank 1 of the group that the upper register names: a write of 0
/// shows bank 1, and with the upper register at 1 a write of 0x20 shows
/// bank 0x21.
pub proof fn lemma_bank_zero_reads_as_one(s: Mbc1State, addr: u16, value: u8)
    requires
        s.wf(),
        0x2000 <= addr < 0x4000,
        value % 32 == 0,
    ensures
        s.write_rom(addr, value).bank_reg_1 == 1,
        s.write_rom(addr, value).high_bank() == ((s.bank_reg_2 * 32 + 1) as nat) % s.rom_banks,
        s.bank_reg_2 == 0 ==> s.write_rom(addr, value).high_bank() == 1,
        s.bank_reg_2 == 1 && s.rom_banks >= 64 ==> s.write_rom(addr, value).high_bank() == 0x21,
{
    if s.bank_reg_2 == 0 {
        vstd::arithmetic::div_mod::lemma_small_mod(1, s.rom_banks);
    }
    if s.bank_reg_2 == 1 && s.rom_banks >= 64 {
        vstd::arithmetic::div_mod::lemma_small_mod(0x21, s.rom_banks);
    }
}

fn rom_bank_count(code: u8) -> (n: Option<usize>)
    ensures
        match n {
            Some(k) => rom_banks_of(code) == Some(k as nat),
            None => rom_banks_of(code) is None,
        },
{
    match code {
        0 => Some(2),
        1 => Some(4),
        2 => Some(8),
        3 => Some(16),
        4 => Some(32),
        5 => Some(64),
        6 => Some(128),
        7 => Some(256),
        8 => Some(512),
        _ => None,
    }
}

fn ram_bank_count(code: u8) -> (n: Option<usize>)
    ensures
        match n {
            Some(k) => ram_banks_of(code) == Some(k as nat),
            None => ram_banks_of(code) is None,
        },
{
    match code {
        0x00 => Some(0),
        0x02 => Some(1),
        0x03 => Some(4),
        0x04 => Some(16),
        0x05 => Some(8),
        _ => None,
    }
}

impl Mbc1 {
    /// Reads the ROM and RAM sizes from the header and sets the controller
    /// up, or says why the image cannot be used.
    pub fn new(rom_data: Vec<u8>, ram_persistent: bool) -> (r: Result<Mbc1, RomError>)
        ensures
            match r {
                Ok(m) => mbc1_verdict(rom_data@) is None && m.wf() && m@ == Mbc1State::loaded(
                    rom_data@,
                    ram_persistent,
                ),
                Err(e) => mbc1_verdict(rom_data@) == Some(e),
            },
    {
        if rom_data.len() <= RAM_SIZE_AT {
            return Err(RomError::HeaderMissing);
        }
        let ram_code = rom_data[RAM_SIZE_AT];
        let rom_code = rom_data[ROM_SIZE_AT];
        let num_of_ram_banks = match ram_bank_count(ram_code) {
            Some(n) => n,
            None => {
                return Err(RomError::UnsupportedRamSize(ram_code));
            },
        };
        let num_of_rom_banks = match rom_bank_count(rom_code) {
            Some(n) => n,
            None => {
                return Err(RomError::UnsupportedRomSize(rom_code));
            },
        };
        if rom_data.len() < num_of_rom_banks * ROM_BANK_SIZE {
            return Err(RomError::Truncated);
        }
        let ram = vec![0u8; num_of_ram_banks * RAM_BANK_SIZE];
        let m = Mbc1 {
            rom: rom_data,
            num_of_rom_banks,
            ram,
            num_of_ram_banks,
            ram_enabled: false,
            bank_reg_1: 0x01,
            bank_reg_2: 0x00,
            advanced_mode: false,
            ram_persistent,
        };
        assert(m@.ram =~= Mbc1State::loaded(rom_data@, ram_persistent).ram);
        Ok(m)
    }

    fn ram_offset(&self, addr: u16) -> (i: usize)
        requires
            self@.wf(),
            self@.ram_visible(),
            0xA000 <= addr <= 0xBFFF,
        ensures
            i == self@.ram_index(addr),
            i < self.ram@.len(),
    {
        proof {
            lemma_banks_in_range(self@, addr);
        }
        let bank = if self.advanced_mode {
            (self.bank_reg_2 as usize) % self.num_of_ram_banks
        } else {
            0
        };
        bank * RAM_BANK_SIZE + (addr as usize - 0xA000)
    }
}

impl Mbc for Mbc1 {
    open spec fn wf(&self) -> bool {
        self@.wf()
    }

    open spec fn rom_byte(&self, addr: u16) -> u8 {
        self@.read_rom(addr)
    }

    open spec fn ram_byte(&self, addr: u16) -> u8 {
        self@.read_ram(addr)
    }

    open spec fn rom_written(&self, addr: u16, value: u8, after: &Self) -> bool {
        after@ == self@.write_rom(addr, value)
    }

    open spec fn ram_written(&self, addr: u16, value: u8, after: &Self) -> bool {
        after@ == self@.write_ram(addr, value)
    }

    fn read_rom(&self, addr: u16) -> (b: u8) {
        proof {
            lemma_banks_in_range(self@, addr);
        }
        let selected = (self.bank_reg_2 as usize) * 32;
        if addr < 0x4000 {
            let target_bank = if self.advanced_mode {
                selected % self.num_of_rom_banks
            } else {
                0
            };
            self.rom[target_bank * ROM_BANK_SIZE + addr as usize]
        } else {
            let target_bank = (selected + self.bank_reg_1 as usize) % self.num_of_rom_banks;
            self.rom[target_bank * ROM_BANK_SIZE + (addr as usize - 0x4000)]
        }
    }

    fn write_rom(&mut self, addr: u16, value: u8) {
        if addr < 0x2000 {
            self.ram_enabled = value % 16 == 0x0A;
        } else if addr < 0x4000 {
            self.bank_reg_1 = if value % 32 == 0 { 0x01 } else { value % 32 };
        } else if addr < 0x6000 {
            self.bank_reg_2 = value % 4;
        } else {
            self.advanced_mode = value % 2 == 1;
        }
    }

    fn read_ram(&self, addr: u16) -> (b: u8) {
        if !self.ram_enabled || self.num_of_ram_banks == 0 {
            return 0xFF;
        }
        let i = self.ram_offset(addr);
        self.ram[i]
    }

    fn write_ram(&mut self, addr: u16, value: u8) {
        if !self.ram_enabled || self.num_of_ram_banks == 0 {
            return ;
        }
        let i = self.ram_offset(addr);
        self.ram[i] = value;
    }
}

} // verus!
