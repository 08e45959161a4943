//! Operand descriptors: where an instruction reads a value from and where it
//! writes one to.

use vstd::prelude::*;
use vstd::std_specs::convert::FromSpecImpl;

verus! {

/// Where an 8-bit operand comes from.
#[derive(Clone, Copy, Debug, PartialEq, Eq, Structural)]
pub enum ByteSource {
    A,
    B,
    C,
    D,
    E,
    H,
    L,
    /// `(BC)`
    IndBC,
    /// `(DE)`
    IndDE,
    /// `(HL)`
    IndHL,
    /// `(HL+)`: HL is incremented after the address is taken.
    IndHLI,
    /// `(HL-)`: HL is decremented after the address is taken.
    IndHLD,
    /// `(0xFF00 + C)`
    FF00PlusC,
    Address(u16),
    Immediate(u8),
}

/// Where an 8-bit result goes.
#[derive(Clone, Copy, Debug, PartialEq, Eq, Structural)]
pub enum ByteDest {
    A,
    B,
    C,
    D,
    E,
    H,
    L,
    IndBC,
    IndDE,
    IndHL,
    IndHLI,
    IndHLD,
    FF00PlusC,
    Address(u16),
}

/// Where a 16-bit operand comes from.
#[derive(Clone, Copy, Debug, PartialEq, Eq, Structural)]
pub enum WordSource {
    AF,
    BC,
    DE,
    HL,
    SP,
    Immediate(u16),
}

/// Where a 16-bit result goes.
#[derive(Clone, Copy, Debug, PartialEq, Eq, Structural)]
pub enum WordDest {
    AF,
    BC,
    DE,
    HL,
    SP,
    Address(u16),
}

/// The operand named by a 3-bit register field of an opcode.
#[derive(Clone, Copy, Debug, PartialEq, Eq, Structural)]
pub enum ByteLocation {
    A,
    B,
    C,
    D,
    E,
    H,
    L,
    IndHL,
}

impl ByteLocation {
    pub open spec fn source(self) -> ByteSource {
        match self {
            ByteLocation::A => ByteSource::A,
            ByteLocation::B => ByteSource::B,
            ByteLocation::C => ByteSource::C,
            ByteLocation::D => ByteSource::D,
            ByteLocation::E => ByteSource::E,
            ByteLocation::H => ByteSource::H,
            ByteLocation::L => ByteSource::L,
            ByteLocation::IndHL => ByteSource::IndHL,
        }
    }

    pub open spec fn dest(self) -> ByteDest {
        match self {
            ByteLocation::A => ByteDest::A,
            ByteLocation::B => ByteDest::B,
            ByteLocation::C => ByteDest::C,
            ByteLocation::D => ByteDest::D,
            ByteLocation::E => ByteDest::E,
            ByteLocation::H => ByteDest::H,
            ByteLocation::L => ByteDest::L,
            ByteLocation::IndHL => ByteDest::IndHL,
        }
    }

    /// The operand that the register field `bits` names:
    /// 000=B, 001=C, 010=D, 011=E, 100=H, 101=L, 110=(HL), 111=A.
    pub open spec fn of_bits(bits: u8) -> ByteLocation {
        if bits == 0 {
            ByteLocation::B
        } else if bits == 1 {
            ByteLocation::C
        } else if bits == 2 {
            ByteLocation::D
        } else if bits == 3 {
            ByteLocation::E
        } else if bits == 4 {
            ByteLocation::H
        } else if bits == 5 {
            ByteLocation::L
        } else if bits == 6 {
            ByteLocation::IndHL
        } else {
            ByteLocation::A
        }
    }

    pub fn to_source(self) -> (s: ByteSource)
        ensures
            s == self.source(),
    {
        match self {
            ByteLocation::A => ByteSource::A,
            ByteLocation::B => ByteSource::B,
            ByteLocation::C => ByteSource::C,
            ByteLocation::D => ByteSource::D,
            ByteLocation::E => ByteSource::E,
            ByteLocation::H => ByteSource::H,
            ByteLocation::L => ByteSource::L,
            ByteLocation::IndHL => ByteSource::IndHL,
        }
    }

    pub fn to_dest(self) -> (d: ByteDest)
        ensures
            d == self.dest(),
    {
        match self {
            ByteLocation::A => ByteDest::A,
            ByteLocation::B => ByteDest::B,
            ByteLocation::C => ByteDest::C,
            ByteLocation::D => ByteDest::D,
            ByteLocation::E => ByteDest::E,
            ByteLocation::H => ByteDest::H,
            ByteLocation::L => ByteDest::L,
            ByteLocation::IndHL => ByteDest::IndHL,
        }
    }
}

impl FromSpecImpl<ByteLocation> for ByteSource {
    open spec fn obeys_from_spec() -> bool {
        true
    }

    open spec fn from_spec(loc: ByteLocation) -> ByteSource {
        loc.source()
    }
}

impl From<ByteLocation> for ByteSource {
    fn from(loc: ByteLocation) -> (s: ByteSource) {
        loc.to_source()
    }
}

impl FromSpecImpl<ByteLocation> for ByteDest {
    open spec fn obeys_from_spec() -> bool {
        true
    }

    open spec fn from_spec(loc: ByteLocation) -> ByteDest {
        loc.dest()
    }
}

impl From<ByteLocation> for ByteDest {
    fn from(loc: ByteLocation) -> (d: ByteDest) {
        loc.to_dest()
    }
}

/// A register pair that 16-bit arithmetic works on.
#[derive(Clone, Copy, Debug, PartialEq, Eq, Structural)]
pub enum WordLocation {
    BC,
    DE,
    HL,
    SP,
}

impl WordLocation {
    pub open spec fn source(self) -> WordSource {
        match self {
            WordLocation::BC => WordSource::BC,
            WordLocation::DE => WordSource::DE,
            WordLocation::HL => WordSource::HL,
            WordLocation::SP => WordSource::SP,
        }
    }

    pub open spec fn dest(self) -> WordDest {
        match self {
            WordLocation::BC => WordDest::BC,
            WordLocation::DE => WordDest::DE,
            WordLocation::HL => WordDest::HL,
            WordLocation::SP => WordDest::SP,
        }
    }

    pub fn to_source(self) -> (s: WordSource)
        ensures
            s == self.source(),
    {
        match self {
            WordLocation::BC => WordSource::BC,
            WordLocation::DE => WordSource::DE,
            WordLocation::HL => WordSource::HL,
            WordLocation::SP => WordSource::SP,
        }
    }

    pub fn to_dest(self) -> (d: WordDest)
        ensures
            d == self.dest(),
    {
        match self {
            WordLocation::BC => WordDest::BC,
            WordLocation::DE => WordDest::DE,
            WordLocation::HL => WordDest::HL,
            WordLocation::SP => WordDest::SP,
        }
    }
}

impl FromSpecImpl<WordLocation> for WordSource {
    open spec fn obeys_from_spec() -> bool {
        true
    }

    open spec fn from_spec(loc: WordLocation) -> WordSource {
        loc.source()
    }
}

impl From<WordLocation> for WordSource {
    fn from(loc: WordLocation) -> (s: WordSource) {
        loc.to_source()
    }
}

impl FromSpecImpl<WordLocation> for WordDest {
    open spec fn obeys_from_spec() -> bool {
        true
    }

    open spec fn from_spec(loc: WordLocation) -> WordDest {
        loc.dest()
    }
}

impl From<WordLocation> for WordDest {
    fn from(loc: WordLocation) -> (d: WordDest) {
        loc.to_dest()
    }
}

/// The eight operations of the arithmetic unit on A and an operand, in the
/// order in which bits 5..3 of the opcode name them.
#[derive(Clone, Copy, Debug, PartialEq, Eq, Structural)]
pub enum AluOp {
    Add,
    Adc,
    Sub,
    Sbc,
    And,
    Xor,
    Or,
    Cp,
}

/// The read-modify-write operations of the CB table.
#[derive(Clone, Copy, Debug, PartialEq, Eq, Structural)]
pub enum BitOp {
    Rlc,
    Rrc,
    Rl,
    Rr,
    Sla,
    Sra,
    Swap,
    Srl,
    ClearBit(u8),
    SetBit(u8),
}

/// The register pair that a 2-bit field names in 16-bit loads and
/// arithmetic: 0 BC, 1 DE, 2 HL, 3 SP.
pub open spec fn pair_of(p: u8) -> WordLocation {
    if p == 0 {
        WordLocation::BC
    } else if p == 1 {
        WordLocation::DE
    } else if p == 2 {
        WordLocation::HL
    } else {
        WordLocation::SP
    }
}

/// The register pair that a 2-bit field names in `PUSH`: 0 BC, 1 DE, 2 HL,
/// 3 AF.
pub open spec fn stack_source_of(p: u8) -> WordSource {
    if p == 0 {
        WordSource::BC
    } else if p == 1 {
        WordSource::DE
    } else if p == 2 {
        WordSource::HL
    } else {
        WordSource::AF
    }
}

/// The register pair that a 2-bit field names in `POP`: 0 BC, 1 DE, 2 HL,
/// 3 AF.
pub open spec fn stack_dest_of(p: u8) -> WordDest {
    if p == 0 {
        WordDest::BC
    } else if p == 1 {
        WordDest::DE
    } else if p == 2 {
        WordDest::HL
    } else {
        WordDest::AF
    }
}

/// The memory operand that a 2-bit field names in the loads of A:
/// 0 (BC), 1 (DE), 2 (HL+), 3 (HL-).
pub open spec fn indirect_source_of(p: u8) -> ByteSource {
    if p == 0 {
        ByteSource::IndBC
    } else if p == 1 {
        ByteSource::IndDE
    } else if p == 2 {
        ByteSource::IndHLI
    } else {
        ByteSource::IndHLD
    }
}

/// The memory operand that a 2-bit field names in the stores of A.
pub open spec fn indirect_dest_of(p: u8) -> ByteDest {
    if p == 0 {
        ByteDest::IndBC
    } else if p == 1 {
        ByteDest::IndDE
    } else if p == 2 {
        ByteDest::IndHLI
    } else {
        ByteDest::IndHLD
    }
}

/// The condition that a 2-bit field names: 0 NZ, 1 Z, 2 NC, 3 C.
pub open spec fn condition_of(c: u8) -> JumpCondition {
    if c == 0 {
        JumpCondition::NotZero
    } else if c == 1 {
        JumpCondition::Zero
    } else if c == 2 {
        JumpCondition::NoCarry
    } else {
        JumpCondition::Carry
    }
}

/// The operation that bits 5..3 of an arithmetic opcode name.
pub open spec fn alu_op_of(y: u8) -> AluOp {
    if y == 0 {
        AluOp::Add
    } else if y == 1 {
        AluOp::Adc
    } else if y == 2 {
        AluOp::Sub
    } else if y == 3 {
        AluOp::Sbc
    } else if y == 4 {
        AluOp::And
    } else if y == 5 {
        AluOp::Xor
    } else if y == 6 {
        AluOp::Or
    } else {
        AluOp::Cp
    }
}

/// The rotate or shift that bits 5..3 of a CB opcode below 0x40 name.
pub open spec fn shift_op_of(y: u8) -> BitOp {
    if y == 0 {
        BitOp::Rlc
    } else if y == 1 {
        BitOp::Rrc
    } else if y == 2 {
        BitOp::Rl
    } else if y == 3 {
        BitOp::Rr
    } else if y == 4 {
        BitOp::Sla
    } else if y == 5 {
        BitOp::Sra
    } else if y == 6 {
        BitOp::Swap
    } else {
        BitOp::Srl
    }
}

/// The condition under which a jump, call or return is taken.
#[derive(Clone, Copy, Debug, PartialEq, Eq, Structural)]
pub enum JumpCondition {
    NotZero,
    Zero,
    NoCarry,
    Carry,
    Always,
}

} // verus!
