//! The SM83 processor: register file, operand descriptors, arithmetic unit and
//! the instruction interpreter.

use vstd::prelude::*;
use crate::cpu::executor::{joined, Machine};
use crate::cpu::instructions::{
    alu_op_of, condition_of, indirect_dest_of, indirect_source_of, pair_of, shift_op_of,
    stack_dest_of, stack_source_of, BitOp, ByteDest, ByteLocation, ByteSource,
    JumpCondition, WordDest, WordLocation, WordSource,
};
use crate::cpu::registers::{make_word, word, Registers};
use crate::mmu::Bus;

pub mod alu;
pub mod executor;
pub mod instructions;
pub mod registers;
pub mod timing;

verus! {

#[derive(Clone, Copy, Debug, PartialEq, Eq, Structural)]
pub struct Cpu {
    pub registers: Registers,
    pub pc: u16,
    pub sp: u16,
    /// The master interrupt enable.
    pub ime: bool,
    /// Steps left until a pending `EI` takes effect; 0 when none is pending.
    pub ime_countdown: u8,
    pub halted: bool,
    /// Set by a `HALT` that did not halt: the next opcode is read without
    /// moving PC.
    pub halt_bug_active: bool,
}

/// Why the processor cannot go on.
#[derive(Clone, Copy, Debug, PartialEq, Eq, Structural)]
pub enum CpuError {
    /// One of the eleven opcodes that name no instruction was fetched from
    /// `pc`.
    IllegalOpcode { opcode: u8, pc: u16 },
}

/// Whether an opcode names no instruction.
pub open spec fn is_illegal(opcode: u8) -> bool {
    ||| opcode == 0xD3
    ||| opcode == 0xE3
    ||| opcode == 0xE4
    ||| opcode == 0xF4
    ||| opcode == 0xDB
    ||| opcode == 0xEB
    ||| opcode == 0xEC
    ||| opcode == 0xFC
    ||| opcode == 0xDD
    ||| opcode == 0xED
    ||| opcode == 0xFD
}

impl Machine {
    /// `HALT`: with interrupts off and one pending the processor does not
    /// halt but arms the halt bug; otherwise it halts.
    pub open spec fn halt(self) -> Machine {
        if !self.cpu.ime && self.bus.pending() is Some {
            Machine { cpu: Cpu { halt_bug_active: true, ..self.cpu }, ..self }
        } else {
            Machine { cpu: Cpu { halted: true, ..self.cpu }, ..self }
        }
    }

    /// `DI`: interrupts off at once, and a pending `EI` is dropped.
    pub open spec fn di(self) -> Machine {
        Machine { cpu: Cpu { ime: false, ime_countdown: 0, ..self.cpu }, ..self }
    }

    /// `EI`: interrupts come on after the instruction that follows.
    pub open spec fn ei(self) -> Machine {
        Machine { cpu: Cpu { ime_countdown: 2, ..self.cpu }, ..self }
    }

    /// What an opcode in 0x00..=0x3F does, by its fields `y` (bits 5..3)
    /// and `z` (bits 2..0).
    #[verifier::opaque]
    pub open spec fn execute_low(self, opcode: u8) -> Machine {
        let y = opcode / 8;
        let z = opcode % 8;
        let p = y / 2;
        if z == 0 {
            if y == 0 {
                self
            } else if y == 1 {
                self.fetch_word().ld16(WordDest::Address(self.fetched_word()), WordSource::SP)
            } else if y == 2 {
                self.fetch_byte()
            } else if y == 3 {
                self.jr(JumpCondition::Always)
            } else {
                self.jr(condition_of((y - 4) as u8))
            }
        } else if z == 1 {
            if y % 2 == 0 {
                self.fetch_word().ld16(
                    pair_of(p).dest(),
                    WordSource::Immediate(self.fetched_word()),
                )
            } else {
                self.addhl(pair_of(p).source())
            }
        } else if z == 2 {
            if y % 2 == 0 {
                self.ld8(indirect_dest_of(p), ByteSource::A)
            } else {
                self.ld8(ByteDest::A, indirect_source_of(p))
            }
        } else if z == 3 {
            if y % 2 == 0 {
                self.inc16(pair_of(p))
            } else {
                self.dec16(pair_of(p))
            }
        } else if z == 4 {
            self.inc8(ByteLocation::of_bits(y))
        } else if z == 5 {
            self.dec8(ByteLocation::of_bits(y))
        } else if z == 6 {
            self.fetch_byte().ld8(
                ByteLocation::of_bits(y).dest(),
                ByteSource::Immediate(self.fetched()),
            )
        } else if y == 0 {
            self.rotate_a(BitOp::Rlc)
        } else if y == 1 {
            self.rotate_a(BitOp::Rrc)
        } else if y == 2 {
            self.rotate_a(BitOp::Rl)
        } else if y == 3 {
            self.rotate_a(BitOp::Rr)
        } else if y == 4 {
            self.daa()
        } else if y == 5 {
            self.cpl()
        } else if y == 6 {
            self.scf()
        } else {
            self.ccf()
        }
    }

    /// What an opcode in 0x40..=0x7F does: `HALT` for 0x76, else a load
    /// from the operand that bits 2..0 name to the one that bits 5..3 name.
    #[verifier::opaque]
    pub open spec fn execute_load(self, opcode: u8) -> Machine {
        if opcode == 0x76 {
            self.halt()
        } else {
            self.ld8(
                ByteLocation::of_bits((opcode / 8) % 8).dest(),
                ByteLocation::of_bits(opcode % 8).source(),
            )
        }
    }

    /// What an opcode in 0x80..=0xBF does: the operation that bits 5..3
    /// name, on A and the operand that bits 2..0 name.
    #[verifier::opaque]
    pub open spec fn execute_alu(self, opcode: u8) -> Machine {
        self.alu(alu_op_of((opcode / 8) % 8), ByteLocation::of_bits(opcode % 8).source())
    }

    /// What the opcode behind a CB prefix does: the operand is named by
    /// bits 2..0; below 0x40 bits 5..3 name a rotate or shift, above they
    /// number the bit that `BIT`, `RES` or `SET` works on.
    #[verifier::opaque]
    pub open spec fn execute_cb(self) -> Machine {
        let cb = self.fetched();
        let m = self.fetch_byte();
        let loc = ByteLocation::of_bits(cb % 8);
        let n = (cb / 8) % 8;
        if cb < 0x40 {
            m.modify(loc, shift_op_of(n))
        } else if cb < 0x80 {
            m.bit(loc, n)
        } else if cb < 0xC0 {
            m.modify(loc, BitOp::ClearBit(n))
        } else {
            m.modify(loc, BitOp::SetBit(n))
        }
    }

    /// What an opcode in 0xC0..=0xFF does whose field `z` (bits 2..0) is 0
    /// or 1: conditional returns, loads through 0xFF00 + n, arithmetic on
    /// SP, pops and plain returns. Field `y` is bits 5..3.
    #[verifier::opaque]
    pub open spec fn execute_returns(self, opcode: u8) -> Machine {
        let y = (opcode / 8) % 8;
        let p = y / 2;
        let n = self.fetched();
        if opcode % 8 == 0 {
            if y < 4 {
                self.ret(condition_of(y))
            } else if y == 4 {
                self.fetch_byte().ld8(ByteDest::Address(word(0xFF, n)), ByteSource::A)
            } else if y == 5 {
                self.fetch_byte().tick().tick().addsp(n)
            } else if y == 6 {
                self.fetch_byte().ld8(ByteDest::A, ByteSource::Address(word(0xFF, n)))
            } else {
                self.fetch_byte().tick().ldhl(n)
            }
        } else if y % 2 == 0 {
            self.pop(stack_dest_of(p))
        } else if p == 0 {
            self.ret(JumpCondition::Always)
        } else if p == 1 {
            self.reti()
        } else if p == 2 {
            self.jp_hl()
        } else {
            self.tick().ld16(WordDest::SP, WordSource::HL)
        }
    }

    /// What an opcode in 0xC0..=0xFF does whose field `z` is 2 or 3:
    /// jumps, loads through 0xFF00 + C and through an address, the CB
    /// prefix, `DI` and `EI`. The opcodes that name no instruction do
    /// nothing.
    #[verifier::opaque]
    pub open spec fn execute_jumps(self, opcode: u8) -> Machine {
        let y = (opcode / 8) % 8;
        let w = self.fetched_word();
        if opcode % 8 == 2 {
            if y < 4 {
                self.jp(condition_of(y))
            } else if y == 4 {
                self.ld8(ByteDest::FF00PlusC, ByteSource::A)
            } else if y == 5 {
                self.fetch_word().ld8(ByteDest::Address(w), ByteSource::A)
            } else if y == 6 {
                self.ld8(ByteDest::A, ByteSource::FF00PlusC)
            } else {
                self.fetch_word().ld8(ByteDest::A, ByteSource::Address(w))
            }
        } else if y == 0 {
            self.jp(JumpCondition::Always)
        } else if y == 1 {
            self.execute_cb()
        } else if y == 6 {
            self.di()
        } else if y == 7 {
            self.ei()
        } else {
            self
        }
    }

    /// What an opcode in 0xC0..=0xFF does whose field `z` is 4 or 5: calls
    /// and pushes. The opcodes that name no instruction do nothing.
    #[verifier::opaque]
    pub open spec fn execute_calls(self, opcode: u8) -> Machine {
        let y = (opcode / 8) % 8;
        if opcode % 8 == 4 {
            if y < 4 {
                self.call(condition_of(y))
            } else {
                self
            }
        } else if y % 2 == 0 {
            self.push(stack_source_of(y / 2))
        } else if y == 1 {
            self.call(JumpCondition::Always)
        } else {
            self
        }
    }

    /// What an opcode in 0xC0..=0xFF does whose field `z` is 6 or 7: the
    /// operation that `y` names on A and an immediate byte, or a restart
    /// at `y * 8`.
    #[verifier::opaque]
    pub open spec fn execute_immediates(self, opcode: u8) -> Machine {
        let y = (opcode / 8) % 8;
        if opcode % 8 == 6 {
            self.fetch_byte().alu(alu_op_of(y), ByteSource::Immediate(self.fetched()))
        } else {
            self.rst((y * 8) as u8)
        }
    }

    /// What an opcode in 0xC0..=0xFF does.
    pub open spec fn execute_high(self, opcode: u8) -> Machine {
        if opcode % 8 <= 1 {
            self.execute_returns(opcode)
        } else if opcode % 8 <= 3 {
            self.execute_jumps(opcode)
        } else if opcode % 8 <= 5 {
            self.execute_calls(opcode)
        } else {
            self.execute_immediates(opcode)
        }
    }

    /// What an opcode does once it was fetched.
    #[verifier::opaque]
    pub open spec fn execute(self, opcode: u8) -> Machine {
        if opcode < 0x40 {
            self.execute_low(opcode)
        } else if opcode < 0x80 {
            self.execute_load(opcode)
        } else if opcode < 0xC0 {
            self.execute_alu(opcode)
        } else {
            self.execute_high(opcode)
        }
    }

    /// The machine with the delay of `EI` counted down by one step.
    pub open spec fn ime_counted(self) -> Machine {
        if self.cpu.ime_countdown > 1 {
            Machine {
                cpu: Cpu { ime_countdown: (self.cpu.ime_countdown - 1) as u8, ..self.cpu },
                ..self
            }
        } else if self.cpu.ime_countdown == 1 {
            Machine { cpu: Cpu { ime_countdown: 0, ime: true, ..self.cpu }, ..self }
        } else {
            self
        }
    }

    /// The machine after the pending interrupt, if there is one and
    /// interrupts are on, was served.
    #[verifier::opaque]
    pub open spec fn served(self) -> Machine {
        if self.cpu.ime && self.bus.pending() is Some {
            self.handle_interrupt(self.bus.pending().unwrap())
        } else {
            self
        }
    }

    /// Whether this step runs an instruction: always unless the processor
    /// is halted, and then if the cycle it waits brings a pending
    /// interrupt.
    pub open spec fn resumes(self) -> bool {
        !self.cpu.halted || self.tick().bus.pending() is Some
    }

    /// The machine as it stands before the opcode is fetched, or, where
    /// the processor stays halted, at the end of the step.
    pub open spec fn prepared(self) -> Machine {
        let m = self.ime_counted();
        if !m.cpu.halted {
            m.served()
        } else if m.tick().bus.pending() is Some {
            Machine { cpu: Cpu { halted: false, ..m.cpu }, ..m.tick() }.served()
        } else {
            m.tick()
        }
    }

    /// The machine after the opcode was read. With the halt bug armed PC
    /// stays where it is, once.
    pub open spec fn opcode_read(self) -> Machine {
        if self.cpu.halt_bug_active {
            Machine { cpu: Cpu { halt_bug_active: false, ..self.cpu }, ..self.tick() }
        } else {
            self.fetch_byte()
        }
    }

    /// The machine after one instruction was fetched and executed.
    pub open spec fn run(self) -> Machine {
        self.opcode_read().execute(self.fetched())
    }

    /// The machine after one step: an instruction with what comes before
    /// it, or one cycle of sleep.
    pub open spec fn step(self) -> Machine {
        if self.resumes() {
            self.prepared().run()
        } else {
            self.prepared()
        }
    }

    /// The fault that a step ends in, if it fetches an opcode that names no
    /// instruction.
    pub open spec fn fault(self) -> Option<CpuError> {
        if self.resumes() && is_illegal(self.prepared().fetched()) {
            Some(
                CpuError::IllegalOpcode {
                    opcode: self.prepared().fetched(),
                    pc: self.prepared().cpu.pc,
                },
            )
        } else {
            None
        }
    }
}

impl Cpu {
    /// The processor as the boot sequence leaves it.
    pub open spec fn power_on() -> Cpu {
        Cpu {
            registers: Registers::power_on(),
            pc: 0x0100,
            sp: 0xFFFE,
            ime: false,
            ime_countdown: 0,
            halted: false,
            halt_bug_active: false,
        }
    }

    pub fn new() -> (c: Cpu)
        ensures
            c == Self::power_on(),
    {
        Cpu {
            registers: Registers::new(),
            pc: 0x0100,
            sp: 0xFFFE,
            ime: false,
            ime_countdown: 0,
            halted: false,
            halt_bug_active: false,
        }
    }

    /// Serves the pending interrupt if there is one and interrupts are on.
    fn serve_pending(&mut self, bus: &mut Bus)
        requires
            old(bus).wf(),
        ensures
            final(bus).wf(),
            final(bus)@.frame_cost() <= old(bus)@.frame_cost(),
            final(bus)@.ticks >= old(bus)@.ticks,
            joined(*final(self), *final(bus)) == joined(*old(self), *old(bus)).served(),
    {
        proof {
            reveal(Machine::served);
        }
        if self.ime {
            match bus.pending_interrupt() {
                Some(index) => {
                    self.handle_interrupt(bus, index);
                },
                None => {},
            }
        }
    }

    /// Advances the processor by one step: it serves a pending interrupt,
    /// then fetches and executes one instruction; halted, it sleeps for a
    /// cycle and wakes when an interrupt is pending. An opcode that names
    /// no instruction is reported with the address it was fetched from.
    /// Every step spends at least one machine cycle, and so brings the
    /// next frame nearer.
    #[verifier::rlimit(50)]
    pub fn step(&mut self, bus: &mut Bus) -> (r: Result<(), CpuError>)
        requires
            old(bus).wf(),
        ensures
            final(bus).wf(),
            joined(*final(self), *final(bus)) == joined(*old(self), *old(bus)).step(),
            r is Ok <==> joined(*old(self), *old(bus)).fault() is None,
            r is Err ==> Some(r->Err_0) == joined(*old(self), *old(bus)).fault(),
            final(bus)@.frame_cost() <= old(bus)@.frame_cost(),
            old(bus)@.frame_cost() > 0 ==> final(bus)@.frame_cost() < old(bus)@.frame_cost(),
            final(bus)@.ticks > old(bus)@.ticks,
    {
        if self.ime_countdown > 0 {
            self.ime_countdown = self.ime_countdown - 1;
            if self.ime_countdown == 0 {
                self.ime = true;
            }
        }
        if !self.halted {
            self.serve_pending(bus);
        } else {
            bus.tick();
            if bus.pending_interrupt().is_some() {
                self.halted = false;
                self.serve_pending(bus);
            } else {
                return Ok(());
            }
        }
        let fetched_from = self.pc;
        let opcode = bus.read(self.pc);
        if self.halt_bug_active {
            self.halt_bug_active = false;
        } else {
            self.pc = self.pc.wrapping_add(1);
        }
        self.execute(bus, opcode);
        if is_illegal_opcode(opcode) {
            Err(CpuError::IllegalOpcode { opcode, pc: fetched_from })
        } else {
            Ok(())
        }
    }

    /// Executes a fetched opcode.
    #[verifier::rlimit(50)]
    pub fn execute(&mut self, bus: &mut Bus, opcode: u8)
        requires
            old(bus).wf(),
        ensures
            final(bus).wf(),
            final(bus)@.frame_cost() <= old(bus)@.frame_cost(),
            final(bus)@.ticks >= old(bus)@.ticks,
            joined(*final(self), *final(bus)) == joined(*old(self), *old(bus)).execute(opcode),
    {
        proof {
            reveal(Machine::execute);
            reveal(Machine::execute_load);
            reveal(Machine::execute_alu);
        }
        if opcode < 0x40 {
            self.execute_low(bus, opcode);
        } else if opcode < 0x80 {
            if opcode == 0x76 {
                if !self.ime && bus.pending_interrupt().is_some() {
                    self.halt_bug_active = true;
                } else {
                    self.halted = true;
                }
            } else {
                let dest = self.decode_bits_to_location((opcode / 8) % 8).to_dest();
                let src = self.decode_bits_to_location(opcode % 8).to_source();
                self.run_ld8(bus, dest, src);
            }
        } else if opcode < 0xC0 {
            let src = self.decode_bits_to_location(opcode % 8).to_source();
            match (opcode / 8) % 8 {
                0 => self.run_add(bus, src),
                1 => self.run_adc(bus, src),
                2 => self.run_sub(bus, src),
                3 => self.run_sbc(bus, src),
                4 => self.run_and(bus, src),
                5 => self.run_xor(bus, src),
                6 => self.run_or(bus, src),
                _ => self.run_cp(bus, src),
            }
        } else {
            self.execute_high(bus, opcode);
        }
    }

    /// Executes an opcode in 0x00..=0x3F.
    #[verifier::rlimit(50)]
    fn execute_low(&mut self, bus: &mut Bus, opcode: u8)
        requires
            old(bus).wf(),
            opcode < 0x40,
        ensures
            final(bus).wf(),
            final(bus)@.frame_cost() <= old(bus)@.frame_cost(),
            final(bus)@.ticks >= old(bus)@.ticks,
            joined(*final(self), *final(bus)) == joined(*old(self), *old(bus)).execute_low(opcode),
    {
        proof {
            reveal(Machine::execute_low);
        }
        match opcode {
            0x00 => {},
            0x10 => {
                let _discarded_byte = self.fetch_byte(bus);
            },
            0x06 | 0x0E | 0x16 | 0x1E | 0x26 | 0x2E | 0x36 | 0x3E => {
                let dest = self.decode_bits_to_location(opcode / 8).to_dest();
                let val = self.fetch_byte(bus);
                self.run_ld8(bus, dest, ByteSource::Immediate(val));
            },
            0x02 => self.run_ld8(bus, ByteDest::IndBC, ByteSource::A),
            0x12 => self.run_ld8(bus, ByteDest::IndDE, ByteSource::A),
            0x22 => self.run_ld8(bus, ByteDest::IndHLI, ByteSource::A),
            0x32 => self.run_ld8(bus, ByteDest::IndHLD, ByteSource::A),
            0x0A => self.run_ld8(bus, ByteDest::A, ByteSource::IndBC),
            0x1A => self.run_ld8(bus, ByteDest::A, ByteSource::IndDE),
            0x2A => self.run_ld8(bus, ByteDest::A, ByteSource::IndHLI),
            0x3A => self.run_ld8(bus, ByteDest::A, ByteSource::IndHLD),
            0x01 => {
                let w = self.fetch_word(bus);
                self.run_ld16(bus, WordDest::BC, WordSource::Immediate(w));
            },
            0x11 => {
                let w = self.fetch_word(bus);
                self.run_ld16(bus, WordDest::DE, WordSource::Immediate(w));
            },
            0x21 => {
                let w = self.fetch_word(bus);
                self.run_ld16(bus, WordDest::HL, WordSource::Immediate(w));
            },
            0x31 => {
                let w = self.fetch_word(bus);
                self.run_ld16(bus, WordDest::SP, WordSource::Immediate(w));
            },
            0x08 => {
                let addr = self.fetch_word(bus);
                self.run_ld16(bus, WordDest::Address(addr), WordSource::SP);
            },
            0x04 | 0x14 | 0x24 | 0x34 | 0x0C | 0x1C | 0x2C | 0x3C => {
                let loc = self.decode_bits_to_location(opcode / 8);
                self.run_inc8(bus, loc);
            },
            0x05 | 0x15 | 0x25 | 0x35 | 0x0D | 0x1D | 0x2D | 0x3D => {
                let loc = self.decode_bits_to_location(opcode / 8);
                self.run_dec8(bus, loc);
            },
            0x27 => self.run_daa(),
            0x37 => self.run_scf(),
            0x2F => self.run_cpl(),
            0x3F => self.run_ccf(),
            0x03 => self.run_inc16(bus, WordLocation::BC),
            0x13 => self.run_inc16(bus, WordLocation::DE),
            0x23 => self.run_inc16(bus, WordLocation::HL),
            0x33 => self.run_inc16(bus, WordLocation::SP),
            0x0B => self.run_dec16(bus, WordLocation::BC),
            0x1B => self.run_dec16(bus, WordLocation::DE),
            0x2B => self.run_dec16(bus, WordLocation::HL),
            0x3B => self.run_dec16(bus, WordLocation::SP),
            0x09 => self.run_addhl(bus, WordSource::BC),
            0x19 => self.run_addhl(bus, WordSource::DE),
            0x29 => self.run_addhl(bus, WordSource::HL),
            0x39 => self.run_addhl(bus, WordSource::SP),
            0x18 => self.run_jr(bus, JumpCondition::Always),
            0x20 => self.run_jr(bus, JumpCondition::NotZero),
            0x28 => self.run_jr(bus, JumpCondition::Zero),
            0x30 => self.run_jr(bus, JumpCondition::NoCarry),
            0x38 => self.run_jr(bus, JumpCondition::Carry),
            0x07 => self.run_rlca(bus),
            0x17 => self.run_rla(bus),
            0x0F => self.run_rrca(bus),
            _ => self.run_rra(bus),
        }
    }

    /// Executes the opcode behind a CB prefix.
    #[verifier::rlimit(50)]
    fn execute_cb(&mut self, bus: &mut Bus)
        requires
            old(bus).wf(),
        ensures
            final(bus).wf(),
            final(bus)@.frame_cost() <= old(bus)@.frame_cost(),
            final(bus)@.ticks >= old(bus)@.ticks,
            joined(*final(self), *final(bus)) == joined(*old(self), *old(bus)).execute_cb(),
    {
        proof {
            reveal(Machine::execute_cb);
        }
        let cb_opcode = self.fetch_byte(bus);
        let loc = self.decode_bits_to_location(cb_opcode % 8);
        let bit = (cb_opcode / 8) % 8;
        if cb_opcode < 0x40 {
            match bit {
                0 => self.run_rlc(bus, loc),
                1 => self.run_rrc(bus, loc),
                2 => self.run_rl(bus, loc),
                3 => self.run_rr(bus, loc),
                4 => self.run_sla(bus, loc),
                5 => self.run_sra(bus, loc),
                6 => self.run_swap(bus, loc),
                _ => self.run_srl(bus, loc),
            }
        } else if cb_opcode < 0x80 {
            self.run_bit(bus, loc, bit);
        } else if cb_opcode < 0xC0 {
            self.run_res(bus, loc, bit);
        } else {
            self.run_set(bus, loc, bit);
        }
    }

    /// Executes the conditional returns, the loads through 0xFF00 + n, the
    /// arithmetic on SP, the pops and the plain returns: the opcodes in
    /// 0xC0..=0xFF whose low three bits are 0 or 1.
    #[verifier::rlimit(50)]
    fn execute_returns(&mut self, bus: &mut Bus, opcode: u8)
        requires
            old(bus).wf(),
            opcode >= 0xC0,
            opcode % 8 <= 1,
        ensures
            final(bus).wf(),
            final(bus)@.frame_cost() <= old(bus)@.frame_cost(),
            final(bus)@.ticks >= old(bus)@.ticks,
            joined(*final(self), *final(bus)) == joined(*old(self), *old(bus)).execute_returns(
                opcode,
            ),
    {
        proof {
            reveal(Machine::execute_returns);
        }
        match opcode {
            0xC0 => self.run_ret(bus, JumpCondition::NotZero),
            0xC8 => self.run_ret(bus, JumpCondition::Zero),
            0xD0 => self.run_ret(bus, JumpCondition::NoCarry),
            0xD8 => self.run_ret(bus, JumpCondition::Carry),
            0xE0 => {
                let n = self.fetch_byte(bus);
                self.run_ld8(bus, ByteDest::Address(make_word(0xFF, n)), ByteSource::A);
            },
            0xE8 => {
                let offset = self.fetch_byte(bus);
                bus.tick();
                bus.tick();
                self.run_addsp(bus, offset);
            },
            0xF0 => {
                let n = self.fetch_byte(bus);
                self.run_ld8(bus, ByteDest::A, ByteSource::Address(make_word(0xFF, n)));
            },
            0xF8 => {
                let offset = self.fetch_byte(bus);
                bus.tick();
                self.run_ldhl(bus, offset);
            },
            0xC1 => self.run_pop(bus, WordDest::BC),
            0xD1 => self.run_pop(bus, WordDest::DE),
            0xE1 => self.run_pop(bus, WordDest::HL),
            0xF1 => self.run_pop(bus, WordDest::AF),
            0xC9 => self.run_ret(bus, JumpCondition::Always),
            0xD9 => self.run_reti(bus),
            0xE9 => self.run_jp_hl(bus),
            0xF9 => {
                bus.tick();
                self.run_ld16(bus, WordDest::SP, WordSource::HL);
            },
            _ => {},
        }
    }

    /// Executes the jumps, the loads through 0xFF00 + C and through an
    /// address, the CB prefix, `DI` and `EI`: the opcodes in 0xC0..=0xFF
    /// whose low three bits are 2 or 3.
    #[verifier::rlimit(50)]
    fn execute_jumps(&mut self, bus: &mut Bus, opcode: u8)
        requires
            old(bus).wf(),
            opcode >= 0xC0,
            2 <= opcode % 8 <= 3,
        ensures
            final(bus).wf(),
            final(bus)@.frame_cost() <= old(bus)@.frame_cost(),
            final(bus)@.ticks >= old(bus)@.ticks,
            joined(*final(self), *final(bus)) == joined(*old(self), *old(bus)).execute_jumps(
                opcode,
            ),
    {
        proof {
            reveal(Machine::execute_jumps);
        }
        match opcode {
            0xC2 => self.run_jp(bus, JumpCondition::NotZero),
            0xCA => self.run_jp(bus, JumpCondition::Zero),
            0xD2 => self.run_jp(bus, JumpCondition::NoCarry),
            0xDA => self.run_jp(bus, JumpCondition::Carry),
            0xE2 => self.run_ld8(bus, ByteDest::FF00PlusC, ByteSource::A),
            0xF2 => self.run_ld8(bus, ByteDest::A, ByteSource::FF00PlusC),
            0xEA => {
                let addr = self.fetch_word(bus);
                self.run_ld8(bus, ByteDest::Address(addr), ByteSource::A);
            },
            0xFA => {
                let addr = self.fetch_word(bus);
                self.run_ld8(bus, ByteDest::A, ByteSource::Address(addr));
            },
            0xC3 => self.run_jp(bus, JumpCondition::Always),
            0xCB => self.execute_cb(bus),
            0xF3 => {
                self.ime = false;
                self.ime_countdown = 0;
            },
            0xFB => {
                self.ime_countdown = 2;
            },
            _ => {},
        }
    }

    /// Executes the calls and the pushes: the opcodes in 0xC0..=0xFF whose
    /// low three bits are 4 or 5.
    #[verifier::rlimit(50)]
    fn execute_calls(&mut self, bus: &mut Bus, opcode: u8)
        requires
            old(bus).wf(),
            opcode >= 0xC0,
            4 <= opcode % 8 <= 5,
        ensures
            final(bus).wf(),
            final(bus)@.frame_cost() <= old(bus)@.frame_cost(),
            final(bus)@.ticks >= old(bus)@.ticks,
            joined(*final(self), *final(bus)) == joined(*old(self), *old(bus)).execute_calls(
                opcode,
            ),
    {
        proof {
            reveal(Machine::execute_calls);
        }
        match opcode {
            0xC4 => self.run_call(bus, JumpCondition::NotZero),
            0xCC => self.run_call(bus, JumpCondition::Zero),
            0xD4 => self.run_call(bus, JumpCondition::NoCarry),
            0xDC => self.run_call(bus, JumpCondition::Carry),
            0xCD => self.run_call(bus, JumpCondition::Always),
            0xC5 => self.run_push(bus, WordSource::BC),
            0xD5 => self.run_push(bus, WordSource::DE),
            0xE5 => self.run_push(bus, WordSource::HL),
            0xF5 => self.run_push(bus, WordSource::AF),
            _ => {},
        }
    }

    /// Executes the arithmetic on an immediate byte and the restarts: the
    /// opcodes in 0xC0..=0xFF whose low three bits are 6 or 7.
    #[verifier::rlimit(50)]
    fn execute_immediates(&mut self, bus: &mut Bus, opcode: u8)
        requires
            old(bus).wf(),
            opcode >= 0xC0,
            opcode % 8 >= 6,
        ensures
            final(bus).wf(),
            final(bus)@.frame_cost() <= old(bus)@.frame_cost(),
            final(bus)@.ticks >= old(bus)@.ticks,
            joined(*final(self), *final(bus)) == joined(*old(self), *old(bus)).execute_immediates(
                opcode,
            ),
    {
        proof {
            reveal(Machine::execute_immediates);
        }
        match opcode {
            0xC6 => {
                let v = self.fetch_byte(bus);
                self.run_add(bus, ByteSource::Immediate(v));
            },
            0xCE => {
                let v = self.fetch_byte(bus);
                self.run_adc(bus, ByteSource::Immediate(v));
            },
            0xD6 => {
                let v = self.fetch_byte(bus);
                self.run_sub(bus, ByteSource::Immediate(v));
            },
            0xDE => {
                let v = self.fetch_byte(bus);
                self.run_sbc(bus, ByteSource::Immediate(v));
            },
            0xE6 => {
                let v = self.fetch_byte(bus);
                self.run_and(bus, ByteSource::Immediate(v));
            },
            0xEE => {
                let v = self.fetch_byte(bus);
                self.run_xor(bus, ByteSource::Immediate(v));
            },
            0xF6 => {
                let v = self.fetch_byte(bus);
                self.run_or(bus, ByteSource::Immediate(v));
            },
            0xFE => {
                let v = self.fetch_byte(bus);
                self.run_cp(bus, ByteSource::Immediate(v));
            },
            0xC7 | 0xD7 | 0xE7 | 0xF7 | 0xCF | 0xDF | 0xEF | 0xFF => {
                self.run_rst(bus, opcode - 0xC0 - opcode % 8);
            },
            _ => {},
        }
    }

    /// Executes an opcode in 0xC0..=0xFF.
    fn execute_high(&mut self, bus: &mut Bus, opcode: u8)
        requires
            old(bus).wf(),
            opcode >= 0xC0,
        ensures
            final(bus).wf(),
            final(bus)@.frame_cost() <= old(bus)@.frame_cost(),
            final(bus)@.ticks >= old(bus)@.ticks,
            joined(*final(self), *final(bus)) == joined(*old(self), *old(bus)).execute_high(
                opcode,
            ),
    {
        let group = opcode % 8;
        if group <= 1 {
            self.execute_returns(bus, opcode);
        } else if group <= 3 {
            self.execute_jumps(bus, opcode);
        } else if group <= 5 {
            self.execute_calls(bus, opcode);
        } else {
            self.execute_immediates(bus, opcode);
        }
    }
}

/// Whether an opcode names no instruction.
pub fn is_illegal_opcode(opcode: u8) -> (illegal: bool)
    ensures
        illegal == is_illegal(opcode),
{
    match opcode {
        0xD3 | 0xE3 | 0xE4 | 0xF4 | 0xDB | 0xEB | 0xEC | 0xFC | 0xDD | 0xED | 0xFD => true,
        _ => false,
    }
}

/// `HALT` with interrupts off and one pending does not halt: it arms the
/// halt bug. The next opcode is then read without moving PC, and that read
/// disarms the bug, so that one `HALT` repeats one opcode fetch and no
/// more. Any other `HALT` halts and arms nothing.
pub proof fn lemma_halt_bug(m: Machine)
    ensures
        !m.cpu.ime && m.bus.pending() is Some ==> {
            &&& m.halt().cpu.halt_bug_active
            &&& m.halt().cpu.halted == m.cpu.halted
            &&& m.halt().opcode_read().cpu.pc == m.cpu.pc
            &&& !m.halt().opcode_read().cpu.halt_bug_active
            &&& m.halt().opcode_read().opcode_read().cpu.pc == m.cpu.pc.wrapping_add(1)
        },
        m.cpu.ime || m.bus.pending() is None ==> {
            &&& m.halt().cpu.halted
            &&& m.halt().cpu.halt_bug_active == m.cpu.halt_bug_active
        },
        m.halt().bus == m.bus,
{
}

/// A halted processor sleeps one cycle per step until an interrupt is
/// pending; then it wakes, and with interrupts off it goes on behind the
/// `HALT` without serving the interrupt.
pub proof fn lemma_halted_step(m: Machine)
    requires
        m.cpu.halted,
        m.cpu.ime_countdown == 0,
    ensures
        m.tick().bus.pending() is None ==> m.step() == m.tick(),
        m.tick().bus.pending() is Some ==> !m.prepared().cpu.halted,
        m.tick().bus.pending() is Some && !m.cpu.ime ==> m.prepared() == (Machine {
            cpu: Cpu { halted: false, ..m.cpu },
            ..m.tick()
        }),
{
    reveal(Machine::served);
    reveal(Machine::handle_interrupt);
}

/// `EI` turns interrupts on only after the instruction that follows it:
/// the step after `EI` still runs with them off, and the step after that
/// has them on before it looks for a pending interrupt. `DI` turns them
/// off at once and drops a pending `EI`.
pub proof fn lemma_ei_delay(m: Machine)
    ensures
        m.ei().cpu.ime == m.cpu.ime,
        m.ei().ime_counted().cpu.ime == m.cpu.ime,
        m.ei().ime_counted().cpu.ime_countdown == 1,
        m.ei().ime_counted().ime_counted().cpu.ime,
        m.ei().ime_counted().ime_counted().cpu.ime_countdown == 0,
        !m.ei().di().cpu.ime,
        !m.ei().di().ime_counted().ime_counted().cpu.ime,
{
}

} // verus!
