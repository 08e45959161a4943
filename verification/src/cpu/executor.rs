//! What each instruction does to the processor and the bus, and the code
//! that does it.

use vstd::prelude::*;
use crate::cpu::alu::{
    add16_spec, add_offset, add_sp_spec, add_spec, alu_add, alu_add16, alu_add_sp, alu_and,
    alu_bit, alu_cpl, alu_daa, alu_dec, alu_inc, alu_or, alu_res, alu_rl, alu_rlc, alu_rr,
    alu_rrc, alu_set, alu_sla, alu_sra, alu_srl, alu_sub, alu_swap, alu_xor, and_spec, bit_spec,
    ccf_spec, cpl_spec, daa_spec, dec_spec, inc_spec, offset_spec, or_spec, res_spec, rl_spec,
    rlc_spec, rr_spec, rrc_spec, scf_spec, set_spec, sla_spec, sra_spec, srl_spec, sub_spec,
    swap_spec, xor_spec, AluResult,
};
use crate::cpu::instructions::{
    AluOp, BitOp, ByteDest, ByteLocation, ByteSource, JumpCondition, WordDest, WordLocation,
    WordSource,
};
use crate::cpu::registers::{high, low, make_word, word, FlagsRegister, Registers};
use crate::cpu::Cpu;
use crate::mmu::{keeps_writes, lemma_memory_keeps_writes, Bus, BusState};

verus! {

/// Processor and bus together: the whole machine as contracts see it.
pub struct Machine {
    pub cpu: Cpu,
    pub bus: BusState,
}

/// The machine that a processor and a bus make up.
pub open spec fn joined(cpu: Cpu, bus: Bus) -> Machine {
    Machine { cpu, bus: bus@ }
}

/// `flags` with each flag for which a value is given set to it.
pub open spec fn flags_updated(
    flags: FlagsRegister,
    z: Option<bool>,
    n: Option<bool>,
    h: Option<bool>,
    c: Option<bool>,
) -> FlagsRegister {
    FlagsRegister {
        zero: if z is Some { z.unwrap() } else { flags.zero },
        subtract: if n is Some { n.unwrap() } else { flags.subtract },
        half_carry: if h is Some { h.unwrap() } else { flags.half_carry },
        carry: if c is Some { c.unwrap() } else { flags.carry },
    }
}

/// What an operation of the arithmetic unit yields for A, an operand and
/// the incoming carry.
pub open spec fn alu_outcome(op: AluOp, a: u8, v: u8, carry: bool) -> AluResult {
    match op {
        AluOp::Add => add_spec(a, v, false),
        AluOp::Adc => add_spec(a, v, carry),
        AluOp::Sub => sub_spec(a, v, false),
        AluOp::Sbc => sub_spec(a, v, carry),
        AluOp::And => and_spec(a, v),
        AluOp::Xor => xor_spec(a, v),
        AluOp::Or => or_spec(a, v),
        AluOp::Cp => AluResult { value: a, flags: sub_spec(a, v, false).flags },
    }
}

/// What a read-modify-write operation yields for an operand and the
/// incoming flags. `RES` and `SET` leave the flags alone.
pub open spec fn bit_outcome(op: BitOp, v: u8, flags: FlagsRegister) -> AluResult {
    match op {
        BitOp::Rlc => rlc_spec(v),
        BitOp::Rrc => rrc_spec(v),
        BitOp::Rl => rl_spec(v, flags.carry),
        BitOp::Rr => rr_spec(v, flags.carry),
        BitOp::Sla => sla_spec(v),
        BitOp::Sra => sra_spec(v),
        BitOp::Swap => swap_spec(v),
        BitOp::Srl => srl_spec(v),
        BitOp::ClearBit(n) => AluResult { value: res_spec(v, n), flags },
        BitOp::SetBit(n) => AluResult { value: set_spec(v, n), flags },
    }
}

/// Runs an operation of the arithmetic unit.
pub fn alu_apply(op: AluOp, a: u8, value: u8, carry: bool) -> (r: AluResult)
    ensures
        r == alu_outcome(op, a, value, carry),
{
    match op {
        AluOp::Add => alu_add(a, value, false),
        AluOp::Adc => alu_add(a, value, carry),
        AluOp::Sub => alu_sub(a, value, false),
        AluOp::Sbc => alu_sub(a, value, carry),
        AluOp::And => alu_and(a, value),
        AluOp::Xor => alu_xor(a, value),
        AluOp::Or => alu_or(a, value),
        AluOp::Cp => AluResult { value: a, flags: alu_sub(a, value, false).flags },
    }
}

/// Runs a read-modify-write operation on a value.
pub fn bit_apply(op: BitOp, value: u8, flags: FlagsRegister) -> (r: AluResult)
    ensures
        r == bit_outcome(op, value, flags),
{
    match op {
        BitOp::Rlc => alu_rlc(value),
        BitOp::Rrc => alu_rrc(value),
        BitOp::Rl => alu_rl(value, flags.carry),
        BitOp::Rr => alu_rr(value, flags.carry),
        BitOp::Sla => alu_sla(value),
        BitOp::Sra => alu_sra(value),
        BitOp::Swap => alu_swap(value),
        BitOp::Srl => alu_srl(value),
        BitOp::ClearBit(n) => AluResult { value: alu_res(value, n), flags },
        BitOp::SetBit(n) => AluResult { value: alu_set(value, n), flags },
    }
}

/// The address that an interrupt jumps to.
pub open spec fn interrupt_vector(index: u8) -> u16 {
    (0x40 + 8 * index) as u16
}

impl Machine {
    pub open spec fn with_pc(self, pc: u16) -> Machine {
        Machine { cpu: Cpu { pc, ..self.cpu }, ..self }
    }

    pub open spec fn with_sp(self, sp: u16) -> Machine {
        Machine { cpu: Cpu { sp, ..self.cpu }, ..self }
    }

    pub open spec fn with_registers(self, registers: Registers) -> Machine {
        Machine { cpu: Cpu { registers, ..self.cpu }, ..self }
    }

    pub open spec fn with_flags(self, f: FlagsRegister) -> Machine {
        self.with_registers(Registers { f, ..self.cpu.registers })
    }

    pub open spec fn with_a(self, a: u8) -> Machine {
        self.with_registers(Registers { a, ..self.cpu.registers })
    }

    pub open spec fn with_hl(self, value: u16) -> Machine {
        self.with_registers(self.cpu.registers.with_hl(value))
    }

    /// One machine cycle without a memory access.
    pub open spec fn tick(self) -> Machine {
        Machine { bus: self.bus.tick(), ..self }
    }

    /// A timed write.
    pub open spec fn write(self, addr: u16, value: u8) -> Machine {
        Machine { bus: self.bus.write(addr, value), ..self }
    }

    /// The byte at PC.
    pub open spec fn fetched(self) -> u8 {
        self.bus.raw_read(self.cpu.pc)
    }

    /// The machine after the byte at PC was read: one cycle, PC one on.
    pub open spec fn fetch_byte(self) -> Machine {
        self.tick().with_pc(self.cpu.pc.wrapping_add(1))
    }

    /// The word at PC, low byte first.
    pub open spec fn fetched_word(self) -> u16 {
        word(self.fetch_byte().fetched(), self.fetched())
    }

    /// The machine after the word at PC was read: two cycles, PC two on.
    pub open spec fn fetch_word(self) -> Machine {
        self.fetch_byte().fetch_byte()
    }

    /// Whether a condition holds of the flags.
    pub open spec fn condition(self, cond: JumpCondition) -> bool {
        self.cpu.condition(cond)
    }

    /// The address that a memory operand names, if the operand is one.
    pub open spec fn source_address(self, source: ByteSource) -> Option<u16> {
        match source {
            ByteSource::IndBC => Some(self.cpu.registers.bc()),
            ByteSource::IndDE => Some(self.cpu.registers.de()),
            ByteSource::IndHL => Some(self.cpu.registers.hl()),
            ByteSource::IndHLI => Some(self.cpu.registers.hl()),
            ByteSource::IndHLD => Some(self.cpu.registers.hl()),
            ByteSource::FF00PlusC => Some(word(0xFF, self.cpu.registers.c)),
            ByteSource::Address(addr) => Some(addr),
            _ => None,
        }
    }

    /// The value of an 8-bit operand.
    pub open spec fn source_value(self, source: ByteSource) -> u8 {
        match source {
            ByteSource::A => self.cpu.registers.a,
            ByteSource::B => self.cpu.registers.b,
            ByteSource::C => self.cpu.registers.c,
            ByteSource::D => self.cpu.registers.d,
            ByteSource::E => self.cpu.registers.e,
            ByteSource::H => self.cpu.registers.h,
            ByteSource::L => self.cpu.registers.l,
            ByteSource::Immediate(byte) => byte,
            _ => self.bus.raw_read(self.source_address(source).unwrap()),
        }
    }

    /// The machine after an 8-bit operand was read: a memory operand costs
    /// one cycle, and `(HL+)` and `(HL-)` move HL.
    pub open spec fn source_read(self, source: ByteSource) -> Machine {
        match source {
            ByteSource::IndHLI => self.with_hl(self.cpu.registers.hl().wrapping_add(1)).tick(),
            ByteSource::IndHLD => self.with_hl(self.cpu.registers.hl().wrapping_sub(1)).tick(),
            _ => if self.source_address(source) is Some {
                self.tick()
            } else {
                self
            },
        }
    }

    /// The machine after an 8-bit result was written: a memory operand
    /// costs one cycle, and `(HL+)` and `(HL-)` move HL.
    pub open spec fn dest_written(self, dest: ByteDest, value: u8) -> Machine {
        let r = self.cpu.registers;
        match dest {
            ByteDest::A => self.with_registers(Registers { a: value, ..r }),
            ByteDest::B => self.with_registers(Registers { b: value, ..r }),
            ByteDest::C => self.with_registers(Registers { c: value, ..r }),
            ByteDest::D => self.with_registers(Registers { d: value, ..r }),
            ByteDest::E => self.with_registers(Registers { e: value, ..r }),
            ByteDest::H => self.with_registers(Registers { h: value, ..r }),
            ByteDest::L => self.with_registers(Registers { l: value, ..r }),
            ByteDest::IndBC => self.write(r.bc(), value),
            ByteDest::IndDE => self.write(r.de(), value),
            ByteDest::IndHL => self.write(r.hl(), value),
            ByteDest::IndHLI => self.with_hl(r.hl().wrapping_add(1)).write(r.hl(), value),
            ByteDest::IndHLD => self.with_hl(r.hl().wrapping_sub(1)).write(r.hl(), value),
            ByteDest::FF00PlusC => self.write(word(0xFF, r.c), value),
            ByteDest::Address(addr) => self.write(addr, value),
        }
    }

    /// The value of a 16-bit operand.
    pub open spec fn word_value(self, source: WordSource) -> u16 {
        self.cpu.word_value(source)
    }

    /// The machine after a 16-bit result was written. A write to memory
    /// takes two cycles and puts the low byte first.
    pub open spec fn word_written(self, dest: WordDest, value: u16) -> Machine {
        let r = self.cpu.registers;
        match dest {
            WordDest::AF => self.with_registers(r.with_af(value)),
            WordDest::BC => self.with_registers(r.with_bc(value)),
            WordDest::DE => self.with_registers(r.with_de(value)),
            WordDest::HL => self.with_registers(r.with_hl(value)),
            WordDest::SP => self.with_sp(value),
            WordDest::Address(addr) => Machine {
                bus: self.bus.write_u16(addr, value, true),
                ..self
            },
        }
    }

    /// The machine after `value` was pushed: SP goes down by two, then the
    /// high byte is written above the low byte, high byte first. Two cycles.
    pub open spec fn pushed(self, value: u16) -> Machine {
        let sp = self.cpu.sp.wrapping_sub(2);
        Machine { bus: self.bus.write_u16(sp, value, false), ..self.with_sp(sp) }
    }

    /// The word on top of the stack.
    pub open spec fn stack_top(self) -> u16 {
        self.bus.read_u16_value(self.cpu.sp)
    }

    /// The machine after the word on top of the stack was read: two
    /// cycles, SP up by two.
    pub open spec fn popped(self) -> Machine {
        Machine { bus: self.bus.read_u16(self.cpu.sp), ..self }.with_sp(
            self.cpu.sp.wrapping_add(2),
        )
    }

    /// `JR cc, e`: the offset is read in any case; a taken jump costs one
    /// more cycle.
    #[verifier::opaque]
    pub open spec fn jr(self, cond: JumpCondition) -> Machine {
        let m = self.fetch_byte();
        if m.condition(cond) {
            m.tick().with_pc(offset_spec(m.cpu.pc, self.fetched()))
        } else {
            m
        }
    }

    /// `JP cc, nn`: the target is read in any case; a taken jump costs one
    /// more cycle.
    #[verifier::opaque]
    pub open spec fn jp(self, cond: JumpCondition) -> Machine {
        let m = self.fetch_word();
        if m.condition(cond) {
            m.tick().with_pc(self.fetched_word())
        } else {
            m
        }
    }

    /// `JP HL`
    #[verifier::opaque]
    pub open spec fn jp_hl(self) -> Machine {
        self.with_pc(self.cpu.registers.hl())
    }

    /// A return that is taken: PC comes off the stack, then one cycle.
    pub open spec fn returned(self) -> Machine {
        self.popped().tick().with_pc(self.stack_top())
    }

    /// `RET` and `RET cc`. The conditional form spends a cycle on the
    /// condition before anything else.
    #[verifier::opaque]
    pub open spec fn ret(self, cond: JumpCondition) -> Machine {
        if cond == JumpCondition::Always {
            self.returned()
        } else if self.condition(cond) {
            self.tick().returned()
        } else {
            self.tick()
        }
    }

    /// `RETI`: a return that also enables interrupts at once.
    #[verifier::opaque]
    pub open spec fn reti(self) -> Machine {
        let m = self.returned();
        Machine { cpu: Cpu { ime: true, ..m.cpu }, ..m }
    }

    /// `CALL cc, nn`: the target is read in any case; a taken call spends a
    /// cycle, pushes PC and jumps.
    #[verifier::opaque]
    pub open spec fn call(self, cond: JumpCondition) -> Machine {
        let m = self.fetch_word();
        if m.condition(cond) {
            m.tick().pushed(m.cpu.pc).with_pc(self.fetched_word())
        } else {
            m
        }
    }

    /// `RST`: a cycle, then PC is pushed and set to the vector.
    #[verifier::opaque]
    pub open spec fn rst(self, lsb: u8) -> Machine {
        self.tick().pushed(self.cpu.pc).with_pc(lsb as u16)
    }

    /// An 8-bit load.
    #[verifier::opaque]
    pub open spec fn ld8(self, dest: ByteDest, source: ByteSource) -> Machine {
        self.source_read(source).dest_written(dest, self.source_value(source))
    }

    /// A 16-bit load.
    #[verifier::opaque]
    pub open spec fn ld16(self, dest: WordDest, source: WordSource) -> Machine {
        self.word_written(dest, self.word_value(source))
    }

    /// `LD HL, SP+e`, without its cycles.
    #[verifier::opaque]
    pub open spec fn ldhl(self, n: u8) -> Machine {
        let r = add_sp_spec(self.cpu.sp, n);
        self.with_flags(r.flags).with_hl(r.value)
    }

    /// `PUSH rr`: a cycle, then the push.
    #[verifier::opaque]
    pub open spec fn push(self, source: WordSource) -> Machine {
        self.tick().pushed(self.word_value(source))
    }

    /// `POP rr`. Popping into AF drops the low nibble of F.
    #[verifier::opaque]
    pub open spec fn pop(self, dest: WordDest) -> Machine {
        self.popped().word_written(dest, self.stack_top())
    }

    /// `INC r` and `INC (HL)`.
    #[verifier::opaque]
    pub open spec fn inc8(self, loc: ByteLocation) -> Machine {
        let r = inc_spec(self.source_value(loc.source()), self.cpu.registers.f);
        self.source_read(loc.source()).with_flags(r.flags).dest_written(loc.dest(), r.value)
    }

    /// `DEC r` and `DEC (HL)`.
    #[verifier::opaque]
    pub open spec fn dec8(self, loc: ByteLocation) -> Machine {
        let r = dec_spec(self.source_value(loc.source()), self.cpu.registers.f);
        self.source_read(loc.source()).with_flags(r.flags).dest_written(loc.dest(), r.value)
    }

    /// `INC rr`: a cycle; no flag changes.
    #[verifier::opaque]
    pub open spec fn inc16(self, loc: WordLocation) -> Machine {
        self.tick().word_written(loc.dest(), self.word_value(loc.source()).wrapping_add(1))
    }

    /// `DEC rr`: a cycle; no flag changes.
    #[verifier::opaque]
    pub open spec fn dec16(self, loc: WordLocation) -> Machine {
        self.tick().word_written(loc.dest(), self.word_value(loc.source()).wrapping_sub(1))
    }

    /// `ADD HL, rr`: a cycle.
    #[verifier::opaque]
    pub open spec fn addhl(self, source: WordSource) -> Machine {
        let r = add16_spec(self.cpu.registers.hl(), self.word_value(source), self.cpu.registers.f);
        self.tick().with_flags(r.flags).with_hl(r.value)
    }

    /// `ADD SP, e`, without its cycles.
    #[verifier::opaque]
    pub open spec fn addsp(self, n: u8) -> Machine {
        let r = add_sp_spec(self.cpu.sp, n);
        self.with_flags(r.flags).with_sp(r.value)
    }

    /// An operation of the arithmetic unit on A and an operand.
    #[verifier::opaque]
    pub open spec fn alu(self, op: AluOp, source: ByteSource) -> Machine {
        let r = alu_outcome(
            op,
            self.cpu.registers.a,
            self.source_value(source),
            self.cpu.registers.f.carry,
        );
        self.source_read(source).with_flags(r.flags).with_a(r.value)
    }

    /// `DAA`
    pub open spec fn daa(self) -> Machine {
        Machine { cpu: self.cpu.daa(), ..self }
    }

    /// `SCF`
    pub open spec fn scf(self) -> Machine {
        Machine { cpu: self.cpu.scf(), ..self }
    }

    /// `CPL`
    pub open spec fn cpl(self) -> Machine {
        Machine { cpu: self.cpu.cpl(), ..self }
    }

    /// `CCF`
    pub open spec fn ccf(self) -> Machine {
        Machine { cpu: self.cpu.ccf(), ..self }
    }

    /// A read-modify-write operation on a register or on `(HL)`, which
    /// costs a cycle to read and a cycle to write back.
    #[verifier::opaque]
    pub open spec fn modify(self, loc: ByteLocation, op: BitOp) -> Machine {
        let r = bit_outcome(op, self.source_value(loc.source()), self.cpu.registers.f);
        self.source_read(loc.source()).with_flags(r.flags).dest_written(loc.dest(), r.value)
    }

    /// The accumulator form of a rotate: as the CB form on A, with Z clear.
    #[verifier::opaque]
    pub open spec fn rotate_a(self, op: BitOp) -> Machine {
        let m = self.modify(ByteLocation::A, op);
        m.with_flags(FlagsRegister { zero: false, ..m.cpu.registers.f })
    }

    /// `BIT n`: reads the operand and writes nothing back.
    #[verifier::opaque]
    pub open spec fn bit(self, loc: ByteLocation, n: u8) -> Machine {
        self.source_read(loc.source()).with_flags(
            bit_spec(self.source_value(loc.source()), n, self.cpu.registers.f),
        )
    }

    /// The service of interrupt `index`: two cycles, interrupts off, PC
    /// pushed in two cycles, one more cycle, then the request is taken
    /// back and PC set to the vector. Five cycles in all.
    #[verifier::opaque]
    pub open spec fn handle_interrupt(self, index: u8) -> Machine {
        let idle = self.tick().tick();
        let m = Machine { cpu: Cpu { ime: false, ..idle.cpu }, ..idle }.pushed(self.cpu.pc).tick();
        Machine { bus: m.bus.acknowledged(index), ..m }.with_pc(interrupt_vector(index))
    }
}

impl Cpu {
    pub open spec fn with_flags(self, f: FlagsRegister) -> Cpu {
        Cpu { registers: Registers { f, ..self.registers }, ..self }
    }

    /// Whether a condition holds of the flags.
    pub open spec fn condition(self, cond: JumpCondition) -> bool {
        match cond {
            JumpCondition::NotZero => !self.registers.f.zero,
            JumpCondition::Zero => self.registers.f.zero,
            JumpCondition::NoCarry => !self.registers.f.carry,
            JumpCondition::Carry => self.registers.f.carry,
            JumpCondition::Always => true,
        }
    }

    /// The value of a register operand.
    pub open spec fn register(self, loc: ByteLocation) -> u8 {
        match loc {
            ByteLocation::A => self.registers.a,
            ByteLocation::B => self.registers.b,
            ByteLocation::C => self.registers.c,
            ByteLocation::D => self.registers.d,
            ByteLocation::E => self.registers.e,
            ByteLocation::H => self.registers.h,
            _ => self.registers.l,
        }
    }

    /// The processor with a register operand set.
    pub open spec fn with_register(self, loc: ByteLocation, value: u8) -> Cpu {
        let r = self.registers;
        match loc {
            ByteLocation::A => Cpu { registers: Registers { a: value, ..r }, ..self },
            ByteLocation::B => Cpu { registers: Registers { b: value, ..r }, ..self },
            ByteLocation::C => Cpu { registers: Registers { c: value, ..r }, ..self },
            ByteLocation::D => Cpu { registers: Registers { d: value, ..r }, ..self },
            ByteLocation::E => Cpu { registers: Registers { e: value, ..r }, ..self },
            ByteLocation::H => Cpu { registers: Registers { h: value, ..r }, ..self },
            _ => Cpu { registers: Registers { l: value, ..r }, ..self },
        }
    }

    /// The value of a 16-bit operand.
    pub open spec fn word_value(self, source: WordSource) -> u16 {
        match source {
            WordSource::AF => self.registers.af(),
            WordSource::BC => self.registers.bc(),
            WordSource::DE => self.registers.de(),
            WordSource::HL => self.registers.hl(),
            WordSource::SP => self.sp,
            WordSource::Immediate(w) => w,
        }
    }

    /// `DAA`
    pub open spec fn daa(self) -> Cpu {
        let r = daa_spec(self.registers.a, self.registers.f);
        Cpu { registers: Registers { a: r.value, f: r.flags, ..self.registers }, ..self }
    }

    /// `SCF`
    pub open spec fn scf(self) -> Cpu {
        self.with_flags(scf_spec(self.registers.f))
    }

    /// `CPL`
    pub open spec fn cpl(self) -> Cpu {
        let r = cpl_spec(self.registers.a, self.registers.f);
        Cpu { registers: Registers { a: r.value, f: r.flags, ..self.registers }, ..self }
    }

    /// `CCF`
    pub open spec fn ccf(self) -> Cpu {
        self.with_flags(ccf_spec(self.registers.f))
    }

    /// Reads the byte at PC and moves PC on.
    pub fn fetch_byte(&mut self, bus: &mut Bus) -> (byte: u8)
        requires
            old(bus).wf(),
        ensures
            final(bus).wf(),
            final(bus)@.frame_cost() <= old(bus)@.frame_cost(),
            final(bus)@.ticks >= old(bus)@.ticks,
            old(bus)@.frame_cost() > 0 ==> final(bus)@.frame_cost() < old(bus)@.frame_cost(),
            byte == joined(*old(self), *old(bus)).fetched(),
            joined(*final(self), *final(bus)) == joined(*old(self), *old(bus)).fetch_byte(),
    {
        let byte = bus.read(self.pc);
        self.pc = self.pc.wrapping_add(1);
        byte
    }

    /// Reads the word at PC, low byte first, and moves PC on.
    pub fn fetch_word(&mut self, bus: &mut Bus) -> (w: u16)
        requires
            old(bus).wf(),
        ensures
            final(bus).wf(),
            final(bus)@.frame_cost() <= old(bus)@.frame_cost(),
            final(bus)@.ticks >= old(bus)@.ticks,
            w == joined(*old(self), *old(bus)).fetched_word(),
            joined(*final(self), *final(bus)) == joined(*old(self), *old(bus)).fetch_word(),
    {
        let lo = self.fetch_byte(bus);
        let hi = self.fetch_byte(bus);
        make_word(hi, lo)
    }

    /// Pushes a word: SP goes down by two, high byte written first.
    pub fn push_word(&mut self, bus: &mut Bus, value: u16)
        requires
            old(bus).wf(),
        ensures
            final(bus).wf(),
            final(bus)@.frame_cost() <= old(bus)@.frame_cost(),
            final(bus)@.ticks >= old(bus)@.ticks,
            joined(*final(self), *final(bus)) == joined(*old(self), *old(bus)).pushed(value),
    {
        self.sp = self.sp.wrapping_sub(2);
        bus.write_u16(self.sp, value, false);
    }

    /// Pops a word: low byte read first, SP up by two.
    pub fn pop_word(&mut self, bus: &mut Bus) -> (value: u16)
        requires
            old(bus).wf(),
        ensures
            final(bus).wf(),
            final(bus)@.frame_cost() <= old(bus)@.frame_cost(),
            final(bus)@.ticks >= old(bus)@.ticks,
            value == joined(*old(self), *old(bus)).stack_top(),
            joined(*final(self), *final(bus)) == joined(*old(self), *old(bus)).popped(),
    {
        let value = bus.read_u16(self.sp);
        self.sp = self.sp.wrapping_add(2);
        value
    }

    pub fn run_jr(&mut self, bus: &mut Bus, cond: JumpCondition)
        requires
            old(bus).wf(),
        ensures
            final(bus).wf(),
            final(bus)@.frame_cost() <= old(bus)@.frame_cost(),
            final(bus)@.ticks >= old(bus)@.ticks,
            joined(*final(self), *final(bus)) == joined(*old(self), *old(bus)).jr(cond),
    {
        proof {
            reveal(Machine::jr);
        }
        let value = self.fetch_byte(bus);
        if self.jump_condition_reached(cond) {
            bus.tick();
            self.pc = add_offset(self.pc, value);
        }
    }

    pub fn run_jp(&mut self, bus: &mut Bus, cond: JumpCondition)
        requires
            old(bus).wf(),
        ensures
            final(bus).wf(),
            final(bus)@.frame_cost() <= old(bus)@.frame_cost(),
            final(bus)@.ticks >= old(bus)@.ticks,
            joined(*final(self), *final(bus)) == joined(*old(self), *old(bus)).jp(cond),
    {
        proof {
            reveal(Machine::jp);
        }
        let value = self.fetch_word(bus);
        if self.jump_condition_reached(cond) {
            bus.tick();
            self.pc = value;
        }
    }

    pub fn run_jp_hl(&mut self, bus: &mut Bus)
        ensures
            *final(bus) == *old(bus),
            joined(*final(self), *final(bus)) == joined(*old(self), *old(bus)).jp_hl(),
    {
        proof {
            reveal(Machine::jp_hl);
        }
        self.pc = self.registers.get_hl();
    }

    #[verifier::rlimit(50)]
    pub fn run_ret(&mut self, bus: &mut Bus, cond: JumpCondition)
        requires
            old(bus).wf(),
        ensures
            final(bus).wf(),
            final(bus)@.frame_cost() <= old(bus)@.frame_cost(),
            final(bus)@.ticks >= old(bus)@.ticks,
            joined(*final(self), *final(bus)) == joined(*old(self), *old(bus)).ret(cond),
    {
        proof {
            reveal(Machine::ret);
        }
        match cond {
            JumpCondition::Always => {
                let value = self.pop_word(bus);
                bus.tick();
                self.pc = value;
            },
            _ => {
                bus.tick();
                if self.jump_condition_reached(cond) {
                    let value = self.pop_word(bus);
                    bus.tick();
                    self.pc = value;
                }
            },
        }
    }

    pub fn run_reti(&mut self, bus: &mut Bus)
        requires
            old(bus).wf(),
        ensures
            final(bus).wf(),
            final(bus)@.frame_cost() <= old(bus)@.frame_cost(),
            final(bus)@.ticks >= old(bus)@.ticks,
            joined(*final(self), *final(bus)) == joined(*old(self), *old(bus)).reti(),
    {
        proof {
            reveal(Machine::reti);
        }
        let value = self.pop_word(bus);
        bus.tick();
        self.pc = value;
        self.ime = true;
    }

    #[verifier::rlimit(50)]
    pub fn run_call(&mut self, bus: &mut Bus, cond: JumpCondition)
        requires
            old(bus).wf(),
        ensures
            final(bus).wf(),
            final(bus)@.frame_cost() <= old(bus)@.frame_cost(),
            final(bus)@.ticks >= old(bus)@.ticks,
            joined(*final(self), *final(bus)) == joined(*old(self), *old(bus)).call(cond),
    {
        proof {
            reveal(Machine::call);
        }
        let value = self.fetch_word(bus);
        if self.jump_condition_reached(cond) {
            bus.tick();
            self.push_word(bus, self.pc);
            self.pc = value;
        }
    }

    pub fn run_rst(&mut self, bus: &mut Bus, lsb: u8)
        requires
            old(bus).wf(),
        ensures
            final(bus).wf(),
            final(bus)@.frame_cost() <= old(bus)@.frame_cost(),
            final(bus)@.ticks >= old(bus)@.ticks,
            joined(*final(self), *final(bus)) == joined(*old(self), *old(bus)).rst(lsb),
    {
        proof {
            reveal(Machine::rst);
        }
        bus.tick();
        self.push_word(bus, self.pc);
        self.pc = lsb as u16;
    }

    pub fn run_ld8(&mut self, bus: &mut Bus, dest: ByteDest, source: ByteSource)
        requires
            old(bus).wf(),
        ensures
            final(bus).wf(),
            final(bus)@.frame_cost() <= old(bus)@.frame_cost(),
            final(bus)@.ticks >= old(bus)@.ticks,
            joined(*final(self), *final(bus)) == joined(*old(self), *old(bus)).ld8(dest, source),
    {
        proof {
            reveal(Machine::ld8);
        }
        let value = self.resolve_byte_source(bus, source);
        self.write_byte_dest(bus, dest, value);
    }

    pub fn run_ld16(&mut self, bus: &mut Bus, dest: WordDest, source: WordSource)
        requires
            old(bus).wf(),
        ensures
            final(bus).wf(),
            final(bus)@.frame_cost() <= old(bus)@.frame_cost(),
            final(bus)@.ticks >= old(bus)@.ticks,
            joined(*final(self), *final(bus)) == joined(*old(self), *old(bus)).ld16(dest, source),
    {
        proof {
            reveal(Machine::ld16);
        }
        let value = self.resolve_word_source(source);
        self.write_word_dest(bus, dest, value);
    }

    pub fn run_ldhl(&mut self, bus: &mut Bus, val: u8)
        ensures
            *final(bus) == *old(bus),
            joined(*final(self), *final(bus)) == joined(*old(self), *old(bus)).ldhl(val),
    {
        proof {
            reveal(Machine::ldhl);
        }
        let r = alu_add_sp(self.sp, val);
        self.registers.f = r.flags;
        self.registers.set_hl(r.value);
    }

    pub fn run_push(&mut self, bus: &mut Bus, source: WordSource)
        requires
            old(bus).wf(),
        ensures
            final(bus).wf(),
            final(bus)@.frame_cost() <= old(bus)@.frame_cost(),
            final(bus)@.ticks >= old(bus)@.ticks,
            joined(*final(self), *final(bus)) == joined(*old(self), *old(bus)).push(source),
    {
        proof {
            reveal(Machine::push);
        }
        let value = self.resolve_word_source(source);
        bus.tick();
        self.push_word(bus, value);
    }

    pub fn run_pop(&mut self, bus: &mut Bus, dest: WordDest)
        requires
            old(bus).wf(),
        ensures
            final(bus).wf(),
            final(bus)@.frame_cost() <= old(bus)@.frame_cost(),
            final(bus)@.ticks >= old(bus)@.ticks,
            joined(*final(self), *final(bus)) == joined(*old(self), *old(bus)).pop(dest),
    {
        proof {
            reveal(Machine::pop);
        }
        let value = self.pop_word(bus);
        self.write_word_dest(bus, dest, value);
    }

    pub fn run_inc8(&mut self, bus: &mut Bus, loc: ByteLocation)
        requires
            old(bus).wf(),
        ensures
            final(bus).wf(),
            final(bus)@.frame_cost() <= old(bus)@.frame_cost(),
            final(bus)@.ticks >= old(bus)@.ticks,
            joined(*final(self), *final(bus)) == joined(*old(self), *old(bus)).inc8(loc),
    {
        proof {
            reveal(Machine::inc8);
        }
        let val = self.resolve_byte_source(bus, loc.to_source());
        let r = alu_inc(val, self.registers.f);
        self.registers.f = r.flags;
        self.write_byte_dest(bus, loc.to_dest(), r.value);
    }

    pub fn run_dec8(&mut self, bus: &mut Bus, loc: ByteLocation)
        requires
            old(bus).wf(),
        ensures
            final(bus).wf(),
            final(bus)@.frame_cost() <= old(bus)@.frame_cost(),
            final(bus)@.ticks >= old(bus)@.ticks,
            joined(*final(self), *final(bus)) == joined(*old(self), *old(bus)).dec8(loc),
    {
        proof {
            reveal(Machine::dec8);
        }
        let val = self.resolve_byte_source(bus, loc.to_source());
        let r = alu_dec(val, self.registers.f);
        self.registers.f = r.flags;
        self.write_byte_dest(bus, loc.to_dest(), r.value);
    }

    pub fn run_inc16(&mut self, bus: &mut Bus, loc: WordLocation)
        requires
            old(bus).wf(),
        ensures
            final(bus).wf(),
            final(bus)@.frame_cost() <= old(bus)@.frame_cost(),
            final(bus)@.ticks >= old(bus)@.ticks,
            joined(*final(self), *final(bus)) == joined(*old(self), *old(bus)).inc16(loc),
    {
        proof {
            reveal(Machine::inc16);
        }
        let value = self.resolve_word_source(loc.to_source());
        bus.tick();
        self.write_word_dest(bus, loc.to_dest(), value.wrapping_add(1));
    }

    pub fn run_dec16(&mut self, bus: &mut Bus, loc: WordLocation)
        requires
            old(bus).wf(),
        ensures
            final(bus).wf(),
            final(bus)@.frame_cost() <= old(bus)@.frame_cost(),
            final(bus)@.ticks >= old(bus)@.ticks,
            joined(*final(self), *final(bus)) == joined(*old(self), *old(bus)).dec16(loc),
    {
        proof {
            reveal(Machine::dec16);
        }
        let value = self.resolve_word_source(loc.to_source());
        bus.tick();
        self.write_word_dest(bus, loc.to_dest(), value.wrapping_sub(1));
    }

    pub fn run_addhl(&mut self, bus: &mut Bus, source: WordSource)
        requires
            old(bus).wf(),
        ensures
            final(bus).wf(),
            final(bus)@.frame_cost() <= old(bus)@.frame_cost(),
            final(bus)@.ticks >= old(bus)@.ticks,
            joined(*final(self), *final(bus)) == joined(*old(self), *old(bus)).addhl(source),
    {
        proof {
            reveal(Machine::addhl);
        }
        let value = self.resolve_word_source(source);
        bus.tick();
        let r = alu_add16(self.registers.get_hl(), value, self.registers.f);
        self.registers.f = r.flags;
        self.registers.set_hl(r.value);
    }

    pub fn run_addsp(&mut self, bus: &mut Bus, val: u8)
        ensures
            *final(bus) == *old(bus),
            joined(*final(self), *final(bus)) == joined(*old(self), *old(bus)).addsp(val),
    {
        proof {
            reveal(Machine::addsp);
        }
        let r = alu_add_sp(self.sp, val);
        self.registers.f = r.flags;
        self.sp = r.value;
    }

    /// Runs one of the eight operations of the arithmetic unit on A and
    /// an operand. `CP` sets the flags as `SUB` does and leaves A alone.
    #[verifier::rlimit(50)]
    pub fn run_alu(&mut self, bus: &mut Bus, op: AluOp, source: ByteSource)
        requires
            old(bus).wf(),
        ensures
            final(bus).wf(),
            final(bus)@.frame_cost() <= old(bus)@.frame_cost(),
            final(bus)@.ticks >= old(bus)@.ticks,
            joined(*final(self), *final(bus)) == joined(*old(self), *old(bus)).alu(op, source),
    {
        proof {
            reveal(Machine::alu);
        }
        let a = self.registers.a;
        let carry = self.registers.f.carry;
        let value = self.resolve_byte_source(bus, source);
        let r = alu_apply(op, a, value, carry);
        self.registers.f = r.flags;
        self.registers.a = r.value;
    }

    pub fn run_add(&mut self, bus: &mut Bus, source: ByteSource)
        requires
            old(bus).wf(),
        ensures
            final(bus).wf(),
            final(bus)@.frame_cost() <= old(bus)@.frame_cost(),
            final(bus)@.ticks >= old(bus)@.ticks,
            joined(*final(self), *final(bus)) == joined(*old(self), *old(bus)).alu(
                AluOp::Add,
                source,
            ),
    {
        self.run_alu(bus, AluOp::Add, source);
    }

    pub fn run_adc(&mut self, bus: &mut Bus, source: ByteSource)
        requires
            old(bus).wf(),
        ensures
            final(bus).wf(),
            final(bus)@.frame_cost() <= old(bus)@.frame_cost(),
            final(bus)@.ticks >= old(bus)@.ticks,
            joined(*final(self), *final(bus)) == joined(*old(self), *old(bus)).alu(
                AluOp::Adc,
                source,
            ),
    {
        self.run_alu(bus, AluOp::Adc, source);
    }

    pub fn run_sub(&mut self, bus: &mut Bus, source: ByteSource)
        requires
            old(bus).wf(),
        ensures
            final(bus).wf(),
            final(bus)@.frame_cost() <= old(bus)@.frame_cost(),
            final(bus)@.ticks >= old(bus)@.ticks,
            joined(*final(self), *final(bus)) == joined(*old(self), *old(bus)).alu(
                AluOp::Sub,
                source,
            ),
    {
        self.run_alu(bus, AluOp::Sub, source);
    }

    pub fn run_sbc(&mut self, bus: &mut Bus, source: ByteSource)
        requires
            old(bus).wf(),
        ensures
            final(bus).wf(),
            final(bus)@.frame_cost() <= old(bus)@.frame_cost(),
            final(bus)@.ticks >= old(bus)@.ticks,
            joined(*final(self), *final(bus)) == joined(*old(self), *old(bus)).alu(
                AluOp::Sbc,
                source,
            ),
    {
        self.run_alu(bus, AluOp::Sbc, source);
    }

    pub fn run_and(&mut self, bus: &mut Bus, source: ByteSource)
        requires
            old(bus).wf(),
        ensures
            final(bus).wf(),
            final(bus)@.frame_cost() <= old(bus)@.frame_cost(),
            final(bus)@.ticks >= old(bus)@.ticks,
            joined(*final(self), *final(bus)) == joined(*old(self), *old(bus)).alu(
                AluOp::And,
                source,
            ),
    {
        self.run_alu(bus, AluOp::And, source);
    }

    pub fn run_xor(&mut self, bus: &mut Bus, source: ByteSource)
        requires
            old(bus).wf(),
        ensures
            final(bus).wf(),
            final(bus)@.frame_cost() <= old(bus)@.frame_cost(),
            final(bus)@.ticks >= old(bus)@.ticks,
            joined(*final(self), *final(bus)) == joined(*old(self), *old(bus)).alu(
                AluOp::Xor,
                source,
            ),
    {
        self.run_alu(bus, AluOp::Xor, source);
    }

    pub fn run_or(&mut self, bus: &mut Bus, source: ByteSource)
        requires
            old(bus).wf(),
        ensures
            final(bus).wf(),
            final(bus)@.frame_cost() <= old(bus)@.frame_cost(),
            final(bus)@.ticks >= old(bus)@.ticks,
            joined(*final(self), *final(bus)) == joined(*old(self), *old(bus)).alu(
                AluOp::Or,
                source,
            ),
    {
        self.run_alu(bus, AluOp::Or, source);
    }

    pub fn run_cp(&mut self, bus: &mut Bus, source: ByteSource)
        requires
            old(bus).wf(),
        ensures
            final(bus).wf(),
            final(bus)@.frame_cost() <= old(bus)@.frame_cost(),
            final(bus)@.ticks >= old(bus)@.ticks,
            joined(*final(self), *final(bus)) == joined(*old(self), *old(bus)).alu(
                AluOp::Cp,
                source,
            ),
    {
        self.run_alu(bus, AluOp::Cp, source);
    }

    pub fn run_daa(&mut self)
        ensures
            *final(self) == old(self).daa(),
    {
        let r = alu_daa(self.registers.a, self.registers.f);
        self.registers.f = r.flags;
        self.registers.a = r.value;
    }

    pub fn run_scf(&mut self)
        ensures
            *final(self) == old(self).scf(),
    {
        self.update_flags(None, Some(false), Some(false), Some(true));
    }

    pub fn run_cpl(&mut self)
        ensures
            *final(self) == old(self).cpl(),
    {
        let r = alu_cpl(self.registers.a, self.registers.f);
        self.registers.f = r.flags;
        self.registers.a = r.value;
    }

    pub fn run_ccf(&mut self)
        ensures
            *final(self) == old(self).ccf(),
    {
        let carry = self.registers.f.carry;
        self.update_flags(None, Some(false), Some(false), Some(!carry));
    }

    /// Reads a register or `(HL)`, applies `op`, and writes the result
    /// back to where the operand came from.
    #[verifier::rlimit(50)]
    pub fn modify_loc(&mut self, bus: &mut Bus, loc: ByteLocation, op: BitOp)
        requires
            old(bus).wf(),
        ensures
            final(bus).wf(),
            final(bus)@.frame_cost() <= old(bus)@.frame_cost(),
            final(bus)@.ticks >= old(bus)@.ticks,
            joined(*final(self), *final(bus)) == joined(*old(self), *old(bus)).modify(loc, op),
    {
        proof {
            reveal(Machine::modify);
        }
        let old_val = self.resolve_byte_source(bus, loc.to_source());
        let r = bit_apply(op, old_val, self.registers.f);
        self.registers.f = r.flags;
        self.write_byte_dest(bus, loc.to_dest(), r.value);
    }

    pub fn run_rlc(&mut self, bus: &mut Bus, loc: ByteLocation)
        requires
            old(bus).wf(),
        ensures
            final(bus).wf(),
            final(bus)@.frame_cost() <= old(bus)@.frame_cost(),
            final(bus)@.ticks >= old(bus)@.ticks,
            joined(*final(self), *final(bus)) == joined(*old(self), *old(bus)).modify(
                loc,
                BitOp::Rlc,
            ),
    {
        self.modify_loc(bus, loc, BitOp::Rlc);
    }

    pub fn run_rrc(&mut self, bus: &mut Bus, loc: ByteLocation)
        requires
            old(bus).wf(),
        ensures
            final(bus).wf(),
            final(bus)@.frame_cost() <= old(bus)@.frame_cost(),
            final(bus)@.ticks >= old(bus)@.ticks,
            joined(*final(self), *final(bus)) == joined(*old(self), *old(bus)).modify(
                loc,
                BitOp::Rrc,
            ),
    {
        self.modify_loc(bus, loc, BitOp::Rrc);
    }

    pub fn run_rl(&mut self, bus: &mut Bus, loc: ByteLocation)
        requires
            old(bus).wf(),
        ensures
            final(bus).wf(),
            final(bus)@.frame_cost() <= old(bus)@.frame_cost(),
            final(bus)@.ticks >= old(bus)@.ticks,
            joined(*final(self), *final(bus)) == joined(*old(self), *old(bus)).modify(
                loc,
                BitOp::Rl,
            ),
    {
        self.modify_loc(bus, loc, BitOp::Rl);
    }

    pub fn run_rr(&mut self, bus: &mut Bus, loc: ByteLocation)
        requires
            old(bus).wf(),
        ensures
            final(bus).wf(),
            final(bus)@.frame_cost() <= old(bus)@.frame_cost(),
            final(bus)@.ticks >= old(bus)@.ticks,
            joined(*final(self), *final(bus)) == joined(*old(self), *old(bus)).modify(
                loc,
                BitOp::Rr,
            ),
    {
        self.modify_loc(bus, loc, BitOp::Rr);
    }

    pub fn run_sla(&mut self, bus: &mut Bus, loc: ByteLocation)
        requires
            old(bus).wf(),
        ensures
            final(bus).wf(),
            final(bus)@.frame_cost() <= old(bus)@.frame_cost(),
            final(bus)@.ticks >= old(bus)@.ticks,
            joined(*final(self), *final(bus)) == joined(*old(self), *old(bus)).modify(
                loc,
                BitOp::Sla,
            ),
    {
        self.modify_loc(bus, loc, BitOp::Sla);
    }

    pub fn run_sra(&mut self, bus: &mut Bus, loc: ByteLocation)
        requires
            old(bus).wf(),
        ensures
            final(bus).wf(),
            final(bus)@.frame_cost() <= old(bus)@.frame_cost(),
            final(bus)@.ticks >= old(bus)@.ticks,
            joined(*final(self), *final(bus)) == joined(*old(self), *old(bus)).modify(
                loc,
                BitOp::Sra,
            ),
    {
        self.modify_loc(bus, loc, BitOp::Sra);
    }

    pub fn run_swap(&mut self, bus: &mut Bus, loc: ByteLocation)
        requires
            old(bus).wf(),
        ensures
            final(bus).wf(),
            final(bus)@.frame_cost() <= old(bus)@.frame_cost(),
            final(bus)@.ticks >= old(bus)@.ticks,
            joined(*final(self), *final(bus)) == joined(*old(self), *old(bus)).modify(
                loc,
                BitOp::Swap,
            ),
    {
        self.modify_loc(bus, loc, BitOp::Swap);
    }

    pub fn run_srl(&mut self, bus: &mut Bus, loc: ByteLocation)
        requires
            old(bus).wf(),
        ensures
            final(bus).wf(),
            final(bus)@.frame_cost() <= old(bus)@.frame_cost(),
            final(bus)@.ticks >= old(bus)@.ticks,
            joined(*final(self), *final(bus)) == joined(*old(self), *old(bus)).modify(
                loc,
                BitOp::Srl,
            ),
    {
        self.modify_loc(bus, loc, BitOp::Srl);
    }

    pub fn run_res(&mut self, bus: &mut Bus, loc: ByteLocation, bit: u8)
        requires
            old(bus).wf(),
        ensures
            final(bus).wf(),
            final(bus)@.frame_cost() <= old(bus)@.frame_cost(),
            final(bus)@.ticks >= old(bus)@.ticks,
            joined(*final(self), *final(bus)) == joined(*old(self), *old(bus)).modify(
                loc,
                BitOp::ClearBit(bit),
            ),
    {
        self.modify_loc(bus, loc, BitOp::ClearBit(bit));
    }

    pub fn run_set(&mut self, bus: &mut Bus, loc: ByteLocation, bit: u8)
        requires
            old(bus).wf(),
        ensures
            final(bus).wf(),
            final(bus)@.frame_cost() <= old(bus)@.frame_cost(),
            final(bus)@.ticks >= old(bus)@.ticks,
            joined(*final(self), *final(bus)) == joined(*old(self), *old(bus)).modify(
                loc,
                BitOp::SetBit(bit),
            ),
    {
        self.modify_loc(bus, loc, BitOp::SetBit(bit));
    }

    /// Rotates A by `op` and clears Z, as the one-byte rotates do.
    pub fn rotate_accumulator(&mut self, bus: &mut Bus, op: BitOp)
        requires
            old(bus).wf(),
        ensures
            final(bus).wf(),
            final(bus)@.frame_cost() <= old(bus)@.frame_cost(),
            final(bus)@.ticks >= old(bus)@.ticks,
            joined(*final(self), *final(bus)) == joined(*old(self), *old(bus)).rotate_a(op),
    {
        proof {
            reveal(Machine::rotate_a);
        }
        self.modify_loc(bus, ByteLocation::A, op);
        self.update_flags(Some(false), None, None, None);
    }

    pub fn run_rlca(&mut self, bus: &mut Bus)
        requires
            old(bus).wf(),
        ensures
            final(bus).wf(),
            final(bus)@.frame_cost() <= old(bus)@.frame_cost(),
            final(bus)@.ticks >= old(bus)@.ticks,
            joined(*final(self), *final(bus)) == joined(*old(self), *old(bus)).rotate_a(
                BitOp::Rlc,
            ),
    {
        self.rotate_accumulator(bus, BitOp::Rlc);
    }

    pub fn run_rrca(&mut self, bus: &mut Bus)
        requires
            old(bus).wf(),
        ensures
            final(bus).wf(),
            final(bus)@.frame_cost() <= old(bus)@.frame_cost(),
            final(bus)@.ticks >= old(bus)@.ticks,
            joined(*final(self), *final(bus)) == joined(*old(self), *old(bus)).rotate_a(
                BitOp::Rrc,
            ),
    {
        self.rotate_accumulator(bus, BitOp::Rrc);
    }

    pub fn run_rla(&mut self, bus: &mut Bus)
        requires
            old(bus).wf(),
        ensures
            final(bus).wf(),
            final(bus)@.frame_cost() <= old(bus)@.frame_cost(),
            final(bus)@.ticks >= old(bus)@.ticks,
            joined(*final(self), *final(bus)) == joined(*old(self), *old(bus)).rotate_a(BitOp::Rl),
    {
        self.rotate_accumulator(bus, BitOp::Rl);
    }

    pub fn run_rra(&mut self, bus: &mut Bus)
        requires
            old(bus).wf(),
        ensures
            final(bus).wf(),
            final(bus)@.frame_cost() <= old(bus)@.frame_cost(),
            final(bus)@.ticks >= old(bus)@.ticks,
            joined(*final(self), *final(bus)) == joined(*old(self), *old(bus)).rotate_a(BitOp::Rr),
    {
        self.rotate_accumulator(bus, BitOp::Rr);
    }

    pub fn run_bit(&mut self, bus: &mut Bus, loc: ByteLocation, bit: u8)
        requires
            old(bus).wf(),
        ensures
            final(bus).wf(),
            final(bus)@.frame_cost() <= old(bus)@.frame_cost(),
            final(bus)@.ticks >= old(bus)@.ticks,
            joined(*final(self), *final(bus)) == joined(*old(self), *old(bus)).bit(loc, bit),
    {
        proof {
            reveal(Machine::bit);
        }
        let val = match loc {
            ByteLocation::IndHL => bus.read(self.registers.get_hl()),
            _ => self.read_reg_sync(loc),
        };
        self.registers.f = alu_bit(val, bit, self.registers.f);
    }

    /// The operand that a 3-bit register field names.
    pub fn decode_bits_to_location(&self, bits: u8) -> (loc: ByteLocation)
        ensures
            loc == ByteLocation::of_bits(bits),
    {
        match bits {
            0 => ByteLocation::B,
            1 => ByteLocation::C,
            2 => ByteLocation::D,
            3 => ByteLocation::E,
            4 => ByteLocation::H,
            5 => ByteLocation::L,
            6 => ByteLocation::IndHL,
            _ => ByteLocation::A,
        }
    }

    /// Reads an 8-bit operand; a memory operand costs one cycle.
    #[verifier::rlimit(50)]
    pub fn resolve_byte_source(&mut self, bus: &mut Bus, source: ByteSource) -> (value: u8)
        requires
            old(bus).wf(),
        ensures
            final(bus).wf(),
            final(bus)@.frame_cost() <= old(bus)@.frame_cost(),
            final(bus)@.ticks >= old(bus)@.ticks,
            value == joined(*old(self), *old(bus)).source_value(source),
            joined(*final(self), *final(bus)) == joined(*old(self), *old(bus)).source_read(source),
    {
        match source {
            ByteSource::A => self.registers.a,
            ByteSource::B => self.registers.b,
            ByteSource::C => self.registers.c,
            ByteSource::D => self.registers.d,
            ByteSource::E => self.registers.e,
            ByteSource::H => self.registers.h,
            ByteSource::L => self.registers.l,
            ByteSource::IndBC => bus.read(self.registers.get_bc()),
            ByteSource::IndDE => bus.read(self.registers.get_de()),
            ByteSource::IndHL => bus.read(self.registers.get_hl()),
            ByteSource::IndHLI => {
                let addr = self.registers.get_hl();
                self.registers.set_hl(addr.wrapping_add(1));
                bus.read(addr)
            },
            ByteSource::IndHLD => {
                let addr = self.registers.get_hl();
                self.registers.set_hl(addr.wrapping_sub(1));
                bus.read(addr)
            },
            ByteSource::FF00PlusC => bus.read(make_word(0xFF, self.registers.c)),
            ByteSource::Address(word) => bus.read(word),
            ByteSource::Immediate(byte) => byte,
        }
    }

    /// Writes an 8-bit result; a memory operand costs one cycle.
    #[verifier::rlimit(50)]
    pub fn write_byte_dest(&mut self, bus: &mut Bus, dest: ByteDest, value: u8)
        requires
            old(bus).wf(),
        ensures
            final(bus).wf(),
            final(bus)@.frame_cost() <= old(bus)@.frame_cost(),
            final(bus)@.ticks >= old(bus)@.ticks,
            joined(*final(self), *final(bus)) == joined(*old(self), *old(bus)).dest_written(
                dest,
                value,
            ),
    {
        match dest {
            ByteDest::A => self.registers.a = value,
            ByteDest::B => self.registers.b = value,
            ByteDest::C => self.registers.c = value,
            ByteDest::D => self.registers.d = value,
            ByteDest::E => self.registers.e = value,
            ByteDest::H => self.registers.h = value,
            ByteDest::L => self.registers.l = value,
            ByteDest::IndBC => bus.write(self.registers.get_bc(), value),
            ByteDest::IndDE => bus.write(self.registers.get_de(), value),
            ByteDest::IndHL => bus.write(self.registers.get_hl(), value),
            ByteDest::IndHLI => {
                let addr = self.registers.get_hl();
                self.registers.set_hl(addr.wrapping_add(1));
                bus.write(addr, value)
            },
            ByteDest::IndHLD => {
                let addr = self.registers.get_hl();
                self.registers.set_hl(addr.wrapping_sub(1));
                bus.write(addr, value)
            },
            ByteDest::FF00PlusC => bus.write(make_word(0xFF, self.registers.c), value),
            ByteDest::Address(word) => bus.write(word, value),
        }
    }

    /// The value of a 16-bit operand.
    pub fn resolve_word_source(&self, source: WordSource) -> (value: u16)
        ensures
            value == self.word_value(source),
    {
        match source {
            WordSource::AF => self.registers.get_af(),
            WordSource::BC => self.registers.get_bc(),
            WordSource::DE => self.registers.get_de(),
            WordSource::HL => self.registers.get_hl(),
            WordSource::SP => self.sp,
            WordSource::Immediate(word) => word,
        }
    }

    /// Writes a 16-bit result; a write to memory takes two cycles, low
    /// byte first.
    pub fn write_word_dest(&mut self, bus: &mut Bus, dest: WordDest, value: u16)
        requires
            old(bus).wf(),
        ensures
            final(bus).wf(),
            final(bus)@.frame_cost() <= old(bus)@.frame_cost(),
            final(bus)@.ticks >= old(bus)@.ticks,
            joined(*final(self), *final(bus)) == joined(*old(self), *old(bus)).word_written(
                dest,
                value,
            ),
            !(dest is Address) ==> *final(bus) == *old(bus),
    {
        match dest {
            WordDest::AF => self.registers.set_af(value),
            WordDest::BC => self.registers.set_bc(value),
            WordDest::DE => self.registers.set_de(value),
            WordDest::HL => self.registers.set_hl(value),
            WordDest::SP => self.sp = value,
            WordDest::Address(word) => {
                bus.write_u16(word, value, true);
            },
        }
    }

    pub fn jump_condition_reached(&self, cond: JumpCondition) -> (taken: bool)
        ensures
            taken == self.condition(cond),
    {
        match cond {
            JumpCondition::NotZero => !self.registers.f.zero,
            JumpCondition::Zero => self.registers.f.zero,
            JumpCondition::NoCarry => !self.registers.f.carry,
            JumpCondition::Carry => self.registers.f.carry,
            JumpCondition::Always => true,
        }
    }

    /// The value of a register operand.
    pub fn read_reg_sync(&self, loc: ByteLocation) -> (value: u8)
        requires
            loc != ByteLocation::IndHL,
        ensures
            value == self.register(loc),
    {
        match loc {
            ByteLocation::A => self.registers.a,
            ByteLocation::B => self.registers.b,
            ByteLocation::C => self.registers.c,
            ByteLocation::D => self.registers.d,
            ByteLocation::E => self.registers.e,
            ByteLocation::H => self.registers.h,
            _ => self.registers.l,
        }
    }

    /// Sets a register operand.
    pub fn write_reg_sync(&mut self, loc: ByteLocation, val: u8)
        requires
            loc != ByteLocation::IndHL,
        ensures
            *final(self) == old(self).with_register(loc, val),
    {
        match loc {
            ByteLocation::A => self.registers.a = val,
            ByteLocation::B => self.registers.b = val,
            ByteLocation::C => self.registers.c = val,
            ByteLocation::D => self.registers.d = val,
            ByteLocation::E => self.registers.e = val,
            ByteLocation::H => self.registers.h = val,
            _ => self.registers.l = val,
        }
    }

    /// Sets each flag for which a value is given.
    pub fn update_flags(
        &mut self,
        z: Option<bool>,
        n: Option<bool>,
        h: Option<bool>,
        c: Option<bool>,
    )
        ensures
            *final(self) == old(self).with_flags(flags_updated(old(self).registers.f, z, n, h, c)),
    {
        if let Some(val) = z {
            self.registers.f.zero = val;
        }
        if let Some(val) = n {
            self.registers.f.subtract = val;
        }
        if let Some(val) = h {
            self.registers.f.half_carry = val;
        }
        if let Some(val) = c {
            self.registers.f.carry = val;
        }
    }

    /// Serves interrupt `index`, which takes five cycles.
    #[verifier::rlimit(50)]
    pub fn handle_interrupt(&mut self, bus: &mut Bus, index: u8)
        requires
            old(bus).wf(),
        ensures
            final(bus).wf(),
            final(bus)@.frame_cost() <= old(bus)@.frame_cost(),
            final(bus)@.ticks >= old(bus)@.ticks,
            joined(*final(self), *final(bus)) == joined(*old(self), *old(bus)).handle_interrupt(
                index,
            ),
    {
        proof {
            reveal(Machine::handle_interrupt);
        }
        bus.tick();
        bus.tick();
        self.ime = false;
        self.push_word(bus, self.pc);
        bus.tick();
        bus.acknowledge(index);
        self.pc = 0x40 + 8 * (index as u16);
    }
}

/// A word pushed and popped again comes back unchanged, and SP ends where
/// it started, wherever the two bytes under SP lie in memory that keeps
/// writes. Popped into AF the word loses the low nibble of F, which does
/// not exist.
pub proof fn lemma_push_then_pop(m: Machine, value: u16)
    requires
        m.bus.wf(),
        keeps_writes(m.bus, m.cpu.sp.wrapping_sub(1)),
        keeps_writes(m.bus, m.cpu.sp.wrapping_sub(2)),
    ensures
        m.pushed(value).stack_top() == value,
        m.pushed(value).popped().cpu.sp == m.cpu.sp,
        m.pushed(value).pop(WordDest::BC).cpu.registers.bc() == value,
        m.pushed(value).pop(WordDest::DE).cpu.registers.de() == value,
        m.pushed(value).pop(WordDest::HL).cpu.registers.hl() == value,
        m.pushed(value).pop(WordDest::AF).cpu.registers.af() == value - value % 16,
        m.pushed(value).pop(WordDest::AF).cpu.sp == m.cpu.sp,
{
    reveal(Machine::pop);
    let upper = m.cpu.sp.wrapping_sub(1);
    let lower = m.cpu.sp.wrapping_sub(2);
    assert(lower.wrapping_add(1) == upper);
    assert(lower.wrapping_add(2) == m.cpu.sp);
    let b0 = m.bus;
    let b1 = b0.raw_write(upper, high(value));
    let b2 = b1.tick();
    let b3 = b2.raw_write(lower, low(value));
    let b4 = b3.tick();
    let b5 = b4.tick();
    lemma_memory_keeps_writes(b0, upper, high(value), lower, low(value));
    lemma_memory_keeps_writes(b0, lower, low(value), upper, high(value));
    crate::mmu::lemma_raw_write_wf(b0, upper, high(value));
    assert(keeps_writes(b1, upper) && keeps_writes(b1, lower));
    lemma_memory_keeps_writes(b1, upper, high(value), lower, low(value));
    lemma_memory_keeps_writes(b1, lower, low(value), upper, high(value));
    crate::mmu::lemma_tick_wf(b1);
    lemma_memory_keeps_writes(b2, lower, low(value), upper, high(value));
    lemma_memory_keeps_writes(b2, upper, high(value), lower, low(value));
    crate::mmu::lemma_raw_write_wf(b2, lower, low(value));
    assert(keeps_writes(b3, upper) && keeps_writes(b3, lower));
    lemma_memory_keeps_writes(b3, upper, high(value), lower, low(value));
    lemma_memory_keeps_writes(b3, lower, low(value), upper, high(value));
    crate::mmu::lemma_tick_wf(b3);
    lemma_memory_keeps_writes(b4, upper, high(value), lower, low(value));
    assert(m.pushed(value).bus == b4);
    assert(b4.raw_read(lower) == low(value));
    assert(b5.raw_read(upper) == high(value));
    crate::cpu::registers::lemma_word_split(value);
    crate::cpu::registers::lemma_af_low_nibble_clear(m.pushed(value).popped().cpu.registers, value);
}

} // verus!
