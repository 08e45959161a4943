//! What every instruction costs in machine cycles, and the proof that the
//! processor spends exactly that.

use vstd::prelude::*;
use crate::cpu::executor::Machine;
use crate::cpu::instructions::{
    alu_op_of, condition_of, indirect_dest_of, indirect_source_of, pair_of, shift_op_of,
    stack_dest_of, stack_source_of, AluOp, BitOp, ByteDest, ByteLocation, ByteSource,
    JumpCondition, WordDest, WordLocation, WordSource,
};
use crate::cpu::is_illegal;
use crate::cpu::registers::word;
use crate::mmu::BusState;

verus! {

/// The published cost in machine cycles of the opcode behind a CB prefix,
/// prefix included: 2 on a register, 4 on `(HL)`, 3 for `BIT n, (HL)`.
pub open spec fn prefixed_cycles(cb: u8) -> int {
    if cb % 8 != 6 {
        2
    } else if 0x40 <= cb < 0x80 {
        3
    } else {
        4
    }
}

/// The published cost in machine cycles of an opcode, its fetch included.
/// `cb` is the byte after a CB prefix; `taken` says whether the condition
/// of a conditional jump, call or return holds.
pub open spec fn published_cycles(opcode: u8, cb: u8, taken: bool) -> int {
    let y = (opcode / 8) % 8;
    let z = opcode % 8;
    if opcode < 0x40 {
        if z == 0 {
            if y == 0 {
                1
            } else if y == 1 {
                5
            } else if y == 2 {
                1
            } else if y == 3 || taken {
                3
            } else {
                2
            }
        } else if z == 1 {
            if y % 2 == 0 {
                3
            } else {
                2
            }
        } else if z == 2 || z == 3 {
            2
        } else if z == 4 || z == 5 {
            if y == 6 {
                3
            } else {
                1
            }
        } else if z == 6 {
            if y == 6 {
                3
            } else {
                2
            }
        } else {
            1
        }
    } else if opcode < 0x80 {
        if opcode == 0x76 {
            1
        } else if y == 6 || z == 6 {
            2
        } else {
            1
        }
    } else if opcode < 0xC0 {
        if z == 6 {
            2
        } else {
            1
        }
    } else if z == 0 {
        if y < 4 {
            if taken {
                5
            } else {
                2
            }
        } else if y == 5 {
            4
        } else {
            3
        }
    } else if z == 1 {
        if y % 2 == 0 {
            3
        } else if y == 1 || y == 3 {
            4
        } else if y == 5 {
            1
        } else {
            2
        }
    } else if z == 2 {
        if y < 4 {
            if taken {
                4
            } else {
                3
            }
        } else if y == 4 || y == 6 {
            2
        } else {
            4
        }
    } else if z == 3 {
        if y == 0 {
            4
        } else if y == 1 {
            prefixed_cycles(cb)
        } else {
            1
        }
    } else if z == 4 {
        if taken {
            6
        } else {
            3
        }
    } else if z == 5 {
        if y % 2 == 0 {
            4
        } else {
            6
        }
    } else if z == 6 {
        2
    } else {
        4
    }
}

/// The published cost in machine cycles of an opcode, its fetch included.
pub fn instruction_cycles(opcode: u8, cb: u8, taken: bool) -> (cycles: u8)
    ensures
        cycles == published_cycles(opcode, cb, taken),
{
    let y = (opcode / 8) % 8;
    let z = opcode % 8;
    match opcode {
        0x00..=0x3F => match z {
            0 => if y == 0 || y == 2 {
                1
            } else if y == 1 {
                5
            } else if y == 3 || taken {
                3
            } else {
                2
            },
            1 => if y % 2 == 0 {
                3
            } else {
                2
            },
            2 | 3 => 2,
            4 | 5 => if y == 6 {
                3
            } else {
                1
            },
            6 => if y == 6 {
                3
            } else {
                2
            },
            _ => 1,
        },
        0x76 => 1,
        0x40..=0x7F => if y == 6 || z == 6 {
            2
        } else {
            1
        },
        0x80..=0xBF => if z == 6 {
            2
        } else {
            1
        },
        _ => match z {
            0 => if y < 4 {
                if taken {
                    5
                } else {
                    2
                }
            } else if y == 5 {
                4
            } else {
                3
            },
            1 => if y % 2 == 0 {
                3
            } else if y == 1 || y == 3 {
                4
            } else if y == 5 {
                1
            } else {
                2
            },
            2 => if y < 4 {
                if taken {
                    4
                } else {
                    3
                }
            } else if y == 4 || y == 6 {
                2
            } else {
                4
            },
            3 => if y == 0 {
                4
            } else if y == 1 {
                if cb % 8 != 6 {
                    2
                } else if 0x40 <= cb && cb < 0x80 {
                    3
                } else {
                    4
                }
            } else {
                1
            },
            4 => if taken {
                6
            } else {
                3
            },
            5 => if y % 2 == 0 {
                4
            } else {
                6
            },
            6 => 2,
            _ => 4,
        },
    }
}

/// Whether an opcode is a conditional jump, call or return.
pub open spec fn is_conditional(opcode: u8) -> bool {
    let y = (opcode / 8) % 8;
    let z = opcode % 8;
    if opcode < 0x40 {
        z == 0 && y >= 4
    } else {
        opcode >= 0xC0 && y < 4 && (z == 0 || z == 2 || z == 4)
    }
}

/// The condition of a conditional opcode.
pub open spec fn condition_in(opcode: u8) -> JumpCondition {
    condition_of(((opcode / 8) % 4) as u8)
}

/// Whether an 8-bit source operand lies in memory.
pub open spec fn source_in_memory(source: ByteSource) -> bool {
    match source {
        ByteSource::IndBC => true,
        ByteSource::IndDE => true,
        ByteSource::IndHL => true,
        ByteSource::IndHLI => true,
        ByteSource::IndHLD => true,
        ByteSource::FF00PlusC => true,
        ByteSource::Address(_) => true,
        _ => false,
    }
}

/// Whether an 8-bit destination operand lies in memory.
pub open spec fn dest_in_memory(dest: ByteDest) -> bool {
    match dest {
        ByteDest::IndBC => true,
        ByteDest::IndDE => true,
        ByteDest::IndHL => true,
        ByteDest::IndHLI => true,
        ByteDest::IndHLD => true,
        ByteDest::FF00PlusC => true,
        ByteDest::Address(_) => true,
        _ => false,
    }
}

pub open spec fn one_if(b: bool) -> int {
    if b {
        1
    } else {
        0
    }
}

impl Machine {
    /// The machine cycles that pass between this machine and a later one.
    pub open spec fn cycles_to(self, later: Machine) -> int {
        later.bus.ticks - self.bus.ticks
    }
}

/// A machine cycle adds one to the cycle count, and a write that takes no
/// time adds nothing.
pub proof fn lemma_cycle_count()
    ensures
        forall|b: BusState| #[trigger] b.tick().ticks == b.ticks + 1,
        forall|b: BusState, addr: u16, value: u8| #[trigger]
            b.raw_write(addr, value).ticks == b.ticks,
{
    reveal(BusState::tick);
    reveal(BusState::raw_write);
}

/// Reading an operand costs a cycle if it lies in memory; so does writing
/// one.
pub proof fn lemma_operand_cycles(m: Machine, source: ByteSource, dest: ByteDest, value: u8)
    ensures
        m.cycles_to(m.source_read(source)) == one_if(source_in_memory(source)),
        m.cycles_to(m.dest_written(dest, value)) == one_if(dest_in_memory(dest)),
        m.source_read(source).cpu.registers.f == m.cpu.registers.f,
        m.dest_written(dest, value).cpu.registers.f == m.cpu.registers.f,
{
    lemma_cycle_count();
}

/// Jumps: a relative jump costs one cycle for its offset, an absolute one
/// two for its target; taken, either costs one more. `JP HL` is free.
pub proof fn lemma_jump_cycles(m: Machine, cond: JumpCondition)
    ensures
        m.cycles_to(m.jr(cond)) == 1 + one_if(m.cpu.condition(cond)),
        m.cycles_to(m.jp(cond)) == 2 + one_if(m.cpu.condition(cond)),
        m.cycles_to(m.jp_hl()) == 0,
{
    reveal(Machine::jr);
    reveal(Machine::jp);
    reveal(Machine::jp_hl);
    lemma_cycle_count();
}

/// Calls and returns: a call costs two cycles for its target and three
/// more if taken; a plain return costs three; a conditional one costs one
/// and three more if taken; a restart costs three.
pub proof fn lemma_call_cycles(m: Machine, cond: JumpCondition, lsb: u8)
    ensures
        m.cycles_to(m.call(cond)) == 2 + 3 * one_if(m.cpu.condition(cond)),
        m.cycles_to(m.ret(JumpCondition::Always)) == 3,
        cond != JumpCondition::Always ==> m.cycles_to(m.ret(cond)) == 1 + 3 * one_if(
            m.cpu.condition(cond),
        ),
        m.cycles_to(m.reti()) == 3,
        m.cycles_to(m.rst(lsb)) == 3,
{
    reveal(Machine::call);
    reveal(Machine::ret);
    reveal(Machine::reti);
    reveal(Machine::rst);
    lemma_cycle_count();
}

/// Loads: an 8-bit load costs a cycle for each operand in memory; a 16-bit
/// load costs two cycles when it stores to memory and none otherwise; a
/// push costs three cycles and a pop two.
pub proof fn lemma_load_cycles(
    m: Machine,
    dest: ByteDest,
    source: ByteSource,
    wide_dest: WordDest,
    wide_source: WordSource,
    n: u8,
)
    ensures
        m.cycles_to(m.ld8(dest, source)) == one_if(source_in_memory(source)) + one_if(
            dest_in_memory(dest),
        ),
        m.cycles_to(m.ld16(wide_dest, wide_source)) == 2 * one_if(wide_dest is Address),
        m.cycles_to(m.push(wide_source)) == 3,
        m.cycles_to(m.pop(wide_dest)) == 2 + 2 * one_if(wide_dest is Address),
        m.cycles_to(m.ldhl(n)) == 0,
        m.cycles_to(m.addsp(n)) == 0,
{
    reveal(Machine::ld8);
    reveal(Machine::ld16);
    reveal(Machine::push);
    reveal(Machine::pop);
    reveal(Machine::ldhl);
    reveal(Machine::addsp);
    lemma_cycle_count();
    lemma_operand_cycles(m, source, dest, m.source_value(source));
    lemma_operand_cycles(m.source_read(source), source, dest, m.source_value(source));
}

/// Arithmetic on A and an operand costs a cycle if the operand lies in
/// memory; the four instructions on A and the flags alone cost none.
pub proof fn lemma_alu_cycles(m: Machine, op: AluOp, source: ByteSource)
    ensures
        m.cycles_to(m.alu(op, source)) == one_if(source_in_memory(source)),
        m.cycles_to(m.daa()) == 0,
        m.cycles_to(m.cpl()) == 0,
        m.cycles_to(m.scf()) == 0,
        m.cycles_to(m.ccf()) == 0,
{
    reveal(Machine::alu);
    lemma_operand_cycles(m, source, ByteDest::A, 0);
}

/// 8-bit increments and decrements cost two cycles on `(HL)`, one to read
/// and one to write back, and none on a register.
pub proof fn lemma_step_cycles(m: Machine, loc: ByteLocation)
    ensures
        m.cycles_to(m.inc8(loc)) == 2 * one_if(loc == ByteLocation::IndHL),
        m.cycles_to(m.dec8(loc)) == 2 * one_if(loc == ByteLocation::IndHL),
{
    reveal(Machine::inc8);
    reveal(Machine::dec8);
    let read = m.source_read(loc.source());
    lemma_operand_cycles(m, loc.source(), loc.dest(), 0);
    let up = crate::cpu::alu::inc_spec(m.source_value(loc.source()), m.cpu.registers.f);
    let down = crate::cpu::alu::dec_spec(m.source_value(loc.source()), m.cpu.registers.f);
    lemma_operand_cycles(read.with_flags(up.flags), loc.source(), loc.dest(), up.value);
    lemma_operand_cycles(read.with_flags(down.flags), loc.source(), loc.dest(), down.value);
}

/// The read-modify-write operations cost two cycles on `(HL)` and none on
/// a register; `BIT`, which writes nothing back, costs one on `(HL)`.
pub proof fn lemma_modify_cycles(m: Machine, loc: ByteLocation, op: BitOp, n: u8)
    ensures
        m.cycles_to(m.modify(loc, op)) == 2 * one_if(loc == ByteLocation::IndHL),
        m.cycles_to(m.rotate_a(op)) == 0,
        m.cycles_to(m.bit(loc, n)) == one_if(loc == ByteLocation::IndHL),
{
    reveal(Machine::modify);
    reveal(Machine::rotate_a);
    reveal(Machine::bit);
    let read = m.source_read(loc.source());
    lemma_operand_cycles(m, loc.source(), loc.dest(), 0);
    let r = crate::cpu::executor::bit_outcome(
        op,
        m.source_value(loc.source()),
        m.cpu.registers.f,
    );
    lemma_operand_cycles(read.with_flags(r.flags), loc.source(), loc.dest(), r.value);
    let a = ByteLocation::A;
    let ra = crate::cpu::executor::bit_outcome(op, m.source_value(a.source()), m.cpu.registers.f);
    lemma_operand_cycles(m, a.source(), a.dest(), 0);
    lemma_operand_cycles(
        m.source_read(a.source()).with_flags(ra.flags),
        a.source(),
        a.dest(),
        ra.value,
    );
}

/// 16-bit increments, decrements and additions cost one cycle.
pub proof fn lemma_wide_cycles(m: Machine, wide: WordLocation, source: WordSource)
    ensures
        m.cycles_to(m.inc16(wide)) == 1,
        m.cycles_to(m.dec16(wide)) == 1,
        m.cycles_to(m.addhl(source)) == 1,
{
    reveal(Machine::inc16);
    reveal(Machine::dec16);
    reveal(Machine::addhl);
    lemma_cycle_count();
}

/// Serving an interrupt takes five machine cycles.
pub proof fn lemma_interrupt_cycles(m: Machine, index: u8)
    ensures
        m.cycles_to(m.handle_interrupt(index)) == 5,
        m.handle_interrupt(index).cpu.pc == 0x40 + 8 * index,
        !m.handle_interrupt(index).cpu.ime,
{
    reveal(Machine::handle_interrupt);
    lemma_cycle_count();
}

/// Reading the byte or the word at PC costs one cycle or two and leaves
/// the flags alone.
pub proof fn lemma_fetch_cycles(m: Machine)
    ensures
        m.cycles_to(m.fetch_byte()) == 1,
        m.cycles_to(m.fetch_word()) == 2,
        m.cycles_to(m.tick()) == 1,
        m.fetch_byte().cpu.registers == m.cpu.registers,
        m.fetch_word().cpu.registers == m.cpu.registers,
        m.tick().cpu == m.cpu,
{
    lemma_cycle_count();
}

/// What an opcode in 0x00..=0x3F costs after its fetch.
pub proof fn lemma_low_cycles(m: Machine, opcode: u8)
    requires
        opcode < 0x40,
        opcode != 0x10,
    ensures
        m.cycles_to(m.execute_low(opcode)) == published_cycles(
            opcode,
            0,
            m.cpu.condition(condition_in(opcode)),
        ) - 1,
{
    reveal(Machine::execute_low);
    let y = opcode / 8;
    let z = opcode % 8;
    let p = y / 2;
    lemma_fetch_cycles(m);
    if z == 0 {
        if y == 1 {
            lemma_load_cycles(
                m.fetch_word(),
                ByteDest::A,
                ByteSource::A,
                WordDest::Address(m.fetched_word()),
                WordSource::SP,
                0,
            );
        } else if y == 3 {
            lemma_jump_cycles(m, JumpCondition::Always);
        } else if y >= 4 {
            lemma_jump_cycles(m, condition_of((y - 4) as u8));
        }
    } else if z == 1 {
        if y % 2 == 0 {
            lemma_load_cycles(
                m.fetch_word(),
                ByteDest::A,
                ByteSource::A,
                pair_of(p).dest(),
                WordSource::Immediate(m.fetched_word()),
                0,
            );
        } else {
            lemma_wide_cycles(m, pair_of(p), pair_of(p).source());
        }
    } else if z == 2 {
        if y % 2 == 0 {
            lemma_load_cycles(
                m,
                indirect_dest_of(p),
                ByteSource::A,
                WordDest::SP,
                WordSource::SP,
                0,
            );
        } else {
            lemma_load_cycles(
                m,
                ByteDest::A,
                indirect_source_of(p),
                WordDest::SP,
                WordSource::SP,
                0,
            );
        }
    } else if z == 3 {
        lemma_wide_cycles(m, pair_of(p), WordSource::SP);
    } else if z == 4 || z == 5 {
        lemma_step_cycles(m, ByteLocation::of_bits(y));
    } else if z == 6 {
        lemma_load_cycles(
            m.fetch_byte(),
            ByteLocation::of_bits(y).dest(),
            ByteSource::Immediate(m.fetched()),
            WordDest::SP,
            WordSource::SP,
            0,
        );
    } else {
        lemma_modify_cycles(m, ByteLocation::A, BitOp::Rlc, 0);
        lemma_modify_cycles(m, ByteLocation::A, BitOp::Rrc, 0);
        lemma_modify_cycles(m, ByteLocation::A, BitOp::Rl, 0);
        lemma_modify_cycles(m, ByteLocation::A, BitOp::Rr, 0);
        lemma_alu_cycles(m, AluOp::Add, ByteSource::A);
    }
}

/// What an opcode in 0x40..=0xBF costs after its fetch.
pub proof fn lemma_middle_cycles(m: Machine, opcode: u8)
    requires
        0x40 <= opcode < 0xC0,
    ensures
        opcode < 0x80 ==> m.cycles_to(m.execute_load(opcode)) == published_cycles(opcode, 0, false)
            - 1,
        opcode >= 0x80 ==> m.cycles_to(m.execute_alu(opcode)) == published_cycles(opcode, 0, false)
            - 1,
{
    reveal(Machine::execute_load);
    reveal(Machine::execute_alu);
    let y = (opcode / 8) % 8;
    let z = opcode % 8;
    if opcode < 0x80 {
        if opcode != 0x76 {
            lemma_load_cycles(
                m,
                ByteLocation::of_bits(y).dest(),
                ByteLocation::of_bits(z).source(),
                WordDest::SP,
                WordSource::SP,
                0,
            );
        }
    } else {
        lemma_alu_cycles(m, alu_op_of(y), ByteLocation::of_bits(z).source());
    }
}

/// What the opcode behind a CB prefix costs after the prefix was fetched.
pub proof fn lemma_prefixed_cycles(m: Machine)
    ensures
        m.cycles_to(m.execute_cb()) == prefixed_cycles(m.fetched()) - 1,
{
    reveal(Machine::execute_cb);
    let cb = m.fetched();
    let loc = ByteLocation::of_bits(cb % 8);
    let n = (cb / 8) % 8;
    lemma_fetch_cycles(m);
    lemma_modify_cycles(m.fetch_byte(), loc, shift_op_of(n), n);
    lemma_modify_cycles(m.fetch_byte(), loc, BitOp::ClearBit(n), n);
    lemma_modify_cycles(m.fetch_byte(), loc, BitOp::SetBit(n), n);
}

/// What an opcode in 0xC0..=0xFF costs after its fetch.
pub proof fn lemma_high_cycles(m: Machine, opcode: u8)
    requires
        opcode >= 0xC0,
        !is_illegal(opcode),
    ensures
        m.cycles_to(m.execute_high(opcode)) == published_cycles(
            opcode,
            m.fetched(),
            m.cpu.condition(condition_in(opcode)),
        ) - 1,
{
    let y = (opcode / 8) % 8;
    let z = opcode % 8;
    let p = y / 2;
    let n = m.fetched();
    let w = m.fetched_word();
    lemma_fetch_cycles(m);
    lemma_fetch_cycles(m.fetch_byte());
    lemma_fetch_cycles(m.fetch_byte().tick());
    if z <= 1 {
        reveal(Machine::execute_returns);
        if z == 0 {
            if y < 4 {
                lemma_call_cycles(m, condition_of(y), 0);
            } else if y == 4 {
                lemma_load_cycles(
                    m.fetch_byte(),
                    ByteDest::Address(word(0xFF, n)),
                    ByteSource::A,
                    WordDest::SP,
                    WordSource::SP,
                    n,
                );
            } else if y == 5 {
                lemma_load_cycles(
                    m.fetch_byte().tick().tick(),
                    ByteDest::A,
                    ByteSource::A,
                    WordDest::SP,
                    WordSource::SP,
                    n,
                );
            } else if y == 6 {
                lemma_load_cycles(
                    m.fetch_byte(),
                    ByteDest::A,
                    ByteSource::Address(word(0xFF, n)),
                    WordDest::SP,
                    WordSource::SP,
                    n,
                );
            } else {
                lemma_load_cycles(
                    m.fetch_byte().tick(),
                    ByteDest::A,
                    ByteSource::A,
                    WordDest::SP,
                    WordSource::SP,
                    n,
                );
            }
        } else if y % 2 == 0 {
            lemma_load_cycles(m, ByteDest::A, ByteSource::A, stack_dest_of(p), WordSource::SP, 0);
        } else if p <= 1 {
            lemma_call_cycles(m, JumpCondition::Always, 0);
        } else if p == 2 {
            lemma_jump_cycles(m, JumpCondition::Always);
        } else {
            lemma_load_cycles(m.tick(), ByteDest::A, ByteSource::A, WordDest::SP, WordSource::HL, 0);
        }
    } else if z <= 3 {
        reveal(Machine::execute_jumps);
        if z == 2 {
            if y < 4 {
                lemma_jump_cycles(m, condition_of(y));
            } else if y == 4 {
                lemma_load_cycles(
                    m,
                    ByteDest::FF00PlusC,
                    ByteSource::A,
                    WordDest::SP,
                    WordSource::SP,
                    0,
                );
            } else if y == 5 {
                lemma_load_cycles(
                    m.fetch_word(),
                    ByteDest::Address(w),
                    ByteSource::A,
                    WordDest::SP,
                    WordSource::SP,
                    0,
                );
            } else if y == 6 {
                lemma_load_cycles(
                    m,
                    ByteDest::A,
                    ByteSource::FF00PlusC,
                    WordDest::SP,
                    WordSource::SP,
                    0,
                );
            } else {
                lemma_load_cycles(
                    m.fetch_word(),
                    ByteDest::A,
                    ByteSource::Address(w),
                    WordDest::SP,
                    WordSource::SP,
                    0,
                );
            }
        } else if y == 0 {
            lemma_jump_cycles(m, JumpCondition::Always);
        } else if y == 1 {
            lemma_prefixed_cycles(m);
        }
    } else if z <= 5 {
        reveal(Machine::execute_calls);
        if z == 4 {
            lemma_call_cycles(m, condition_of(y), 0);
        } else if y % 2 == 0 {
            lemma_load_cycles(m, ByteDest::A, ByteSource::A, WordDest::SP, stack_source_of(p), 0);
        } else {
            lemma_call_cycles(m, JumpCondition::Always, 0);
        }
    } else {
        reveal(Machine::execute_immediates);
        if z == 6 {
            lemma_alu_cycles(m.fetch_byte(), alu_op_of(y), ByteSource::Immediate(n));
        } else {
            lemma_call_cycles(m, JumpCondition::Always, (y * 8) as u8);
        }
    }
}

/// Every instruction costs what the published table says, for both
/// outcomes of a condition: the cycles that fetching and executing the
/// opcode at PC take are those of `published_cycles`. The opcodes that
/// name no instruction have no entry, and `STOP` is left out because it
/// reads the byte that follows it, which costs a cycle of its own.
pub proof fn lemma_instruction_cycles(m: Machine)
    requires
        !is_illegal(m.fetched()),
        m.fetched() != 0x10,
    ensures
        m.cycles_to(m.run()) == published_cycles(
            m.fetched(),
            m.opcode_read().fetched(),
            m.cpu.condition(condition_in(m.fetched())),
        ),
{
    reveal(Machine::execute);
    let opcode = m.fetched();
    let k = m.opcode_read();
    lemma_cycle_count();
    assert(m.cycles_to(k) == 1);
    assert(k.cpu.registers == m.cpu.registers);
    if opcode < 0x40 {
        lemma_low_cycles(k, opcode);
    } else if opcode < 0xC0 {
        lemma_middle_cycles(k, opcode);
    } else {
        lemma_high_cycles(k, opcode);
    }
}

/// Whether a step of a running processor serves an interrupt before its
/// instruction: interrupts are on, counting an `EI` that falls due with
/// this step, and one is pending.
pub open spec fn serves_interrupt(m: Machine) -> bool {
    m.ime_counted().cpu.ime && m.bus.pending() is Some
}

/// A step of a running processor costs five cycles for the interrupt it
/// serves, if it serves one, and then what the table says for the
/// instruction it executes.
pub proof fn lemma_step_cycles_of_running(m: Machine)
    requires
        !m.cpu.halted,
        !is_illegal(m.prepared().fetched()),
        m.prepared().fetched() != 0x10,
    ensures
        m.cycles_to(m.step()) == 5 * one_if(serves_interrupt(m)) + published_cycles(
            m.prepared().fetched(),
            m.prepared().opcode_read().fetched(),
            m.prepared().cpu.condition(condition_in(m.prepared().fetched())),
        ),
{
    reveal(Machine::served);
    let counted = m.ime_counted();
    if serves_interrupt(m) {
        lemma_interrupt_cycles(counted, counted.bus.pending().unwrap());
    }
    lemma_instruction_cycles(m.prepared());
}

/// A halted processor that stays halted spends one cycle per step.
pub proof fn lemma_step_cycles_of_sleeping(m: Machine)
    requires
        m.cpu.halted,
        !m.resumes(),
    ensures
        m.cycles_to(m.step()) == 1,
        m.step().cpu.halted,
        m.step().cpu.pc == m.cpu.pc,
{
    lemma_cycle_count();
}

/// `STOP` costs two cycles: one for the opcode and one for the byte behind/// `STOP` costs two cycles: one for the opcode and one for the byte behind
/// it.
pub proof fn lemma_stop_cycles(m: Machine)
    requires
        m.fetched() == 0x10,
    ensures
        m.cycles_to(m.run()) == 2,
        !m.cpu.halt_bug_active ==> m.run().cpu.pc == m.cpu.pc.wrapping_add(1).wrapping_add(1),
{
    reveal(Machine::execute);
    reveal(Machine::execute_low);
    lemma_cycle_count();
}

} // verus!
