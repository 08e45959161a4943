//! The system timer: DIV, TIMA, TMA and TAC.
//!
//! TIMA counts falling edges of one bit of a free-running 16-bit counter,
//! gated by the enable bit of TAC. DIV is the upper byte of that counter.

use vstd::prelude::*;

verus! {

pub const DIV: u16 = 0xFF04;

pub const TIMA: u16 = 0xFF05;

pub const TMA: u16 = 0xFF06;

pub const TAC: u16 = 0xFF07;

#[derive(Clone, Copy, Debug, PartialEq, Eq, Structural)]
pub struct Timer {
    /// TIMA
    pub timer_counter: u8,
    /// TMA
    pub timer_modulo: u8,
    /// TAC
    pub timer_control: u8,
    /// The free-running counter; DIV is its upper byte.
    pub internal_counter: u16,
    /// Clocks left until an overflowed TIMA is reloaded from TMA; 0 when no
    /// reload is pending.
    pub cycles_until_tima_reload: u32,
}

/// The weight of the counter bit that the clock select of TAC picks:
/// 00 is bit 9, 01 bit 3, 10 bit 5, 11 bit 7.
pub open spec fn selected_weight(tac: u8) -> int {
    if tac % 4 == 0 {
        512
    } else if tac % 4 == 1 {
        8
    } else if tac % 4 == 2 {
        32
    } else {
        128
    }
}

impl Timer {
    pub open spec fn power_on() -> Timer {
        Timer {
            timer_counter: 0,
            timer_modulo: 0,
            timer_control: 0,
            internal_counter: 0,
            cycles_until_tima_reload: 0,
        }
    }

    /// Whether the timer is enabled (bit 2 of TAC).
    pub open spec fn enabled(self) -> bool {
        (self.timer_control / 4) % 2 == 1
    }

    /// The signal whose falling edges TIMA counts: the selected counter bit
    /// AND the enable bit.
    pub open spec fn signal(self) -> bool {
        self.enabled() && (self.internal_counter as int / selected_weight(self.timer_control)) % 2
            == 1
    }

    /// TIMA after one more count: an overflow leaves it at 0 and schedules the
    /// reload four clocks later.
    pub open spec fn counted(self) -> Timer {
        if self.timer_counter == 255 {
            Timer { timer_counter: 0, cycles_until_tima_reload: 4, ..self }
        } else {
            Timer { timer_counter: (self.timer_counter + 1) as u8, ..self }
        }
    }

    /// Whether a pending reload falls due within the next `t_cycles` clocks.
    pub open spec fn reload_due(self, t_cycles: u32) -> bool {
        self.cycles_until_tima_reload > 0 && t_cycles >= self.cycles_until_tima_reload
    }

    /// The timer with its reload countdown advanced by `t_cycles` clocks.
    pub open spec fn reloaded(self, t_cycles: u32) -> Timer {
        if self.cycles_until_tima_reload == 0 {
            self
        } else if t_cycles >= self.cycles_until_tima_reload {
            Timer { cycles_until_tima_reload: 0, timer_counter: self.timer_modulo, ..self }
        } else {
            Timer {
                cycles_until_tima_reload: (self.cycles_until_tima_reload - t_cycles) as u32,
                ..self
            }
        }
    }

    /// The timer with the counter moved to `counter`, counting the falling
    /// edge if that move makes one.
    pub open spec fn with_counter(self, counter: u16) -> Timer {
        let moved = Timer { internal_counter: counter, ..self };
        if self.signal() && !moved.signal() {
            moved.counted()
        } else {
            moved
        }
    }

    /// The timer after `t_cycles` clocks.
    pub open spec fn step_spec(self, t_cycles: u32) -> Timer {
        self.reloaded(t_cycles).with_counter(
            ((self.internal_counter + t_cycles) % 0x10000) as u16,
        )
    }

    pub open spec fn read_spec(self, addr: u16) -> u8 {
        if addr == DIV {
            (self.internal_counter / 256) as u8
        } else if addr == TIMA {
            self.timer_counter
        } else if addr == TMA {
            self.timer_modulo
        } else {
            (0xF8 + self.timer_control % 8) as u8
        }
    }

    pub open spec fn write_spec(self, addr: u16, value: u8) -> Timer {
        if addr == DIV {
            self.with_counter(0)
        } else if addr == TIMA {
            Timer { timer_counter: value, cycles_until_tima_reload: 0, ..self }
        } else if addr == TMA {
            Timer { timer_modulo: value, ..self }
        } else {
            let set = Timer { timer_control: value, ..self };
            if self.signal() && !set.signal() {
                set.counted()
            } else {
                set
            }
        }
    }

    pub fn new() -> (t: Timer)
        ensures
            t == Self::power_on(),
    {
        Timer {
            timer_counter: 0x00,
            timer_modulo: 0x00,
            timer_control: 0x00,
            internal_counter: 0,
            cycles_until_tima_reload: 0,
        }
    }

    /// Advances the timer by `t_cycles` clocks and says whether the timer
    /// interrupt is requested, which is when a pending reload falls due.
    pub fn step(&mut self, t_cycles: u32) -> (interrupt: bool)
        ensures
            *final(self) == old(self).step_spec(t_cycles),
            interrupt == old(self).reload_due(t_cycles),
    {
        let mut interrupt = false;
        if self.cycles_until_tima_reload > 0 {
            if t_cycles >= self.cycles_until_tima_reload {
                self.cycles_until_tima_reload = 0;
                self.timer_counter = self.timer_modulo;
                interrupt = true;
            } else {
                self.cycles_until_tima_reload = self.cycles_until_tima_reload - t_cycles;
            }
        }
        let signal_before = self.get_timer_signal();
        let advanced: u64 = (self.internal_counter as u64 + t_cycles as u64) % 0x10000;
        self.internal_counter = advanced as u16;
        let signal_after = self.get_timer_signal();
        if signal_before && !signal_after {
            self.inc_timer_counter();
        }
        interrupt
    }

    pub fn get_timer_signal(&self) -> (s: bool)
        ensures
            s == self.signal(),
    {
        let enable = (self.timer_control / 4) % 2 == 1;
        let select = self.timer_control % 4;
        let weight: u16 = if select == 0 {
            512
        } else if select == 1 {
            8
        } else if select == 2 {
            32
        } else {
            128
        };
        enable && (self.internal_counter / weight) % 2 == 1
    }

    pub fn inc_timer_counter(&mut self)
        ensures
            *final(self) == old(self).counted(),
    {
        if self.timer_counter == 255 {
            self.timer_counter = 0x00;
            self.cycles_until_tima_reload = 4;
        } else {
            self.timer_counter = self.timer_counter + 1;
        }
    }

    pub fn read(&self, addr: u16) -> (b: u8)
        requires
            DIV <= addr <= TAC,
        ensures
            b == self.read_spec(addr),
    {
        if addr == DIV {
            (self.internal_counter / 256) as u8
        } else if addr == TIMA {
            self.timer_counter
        } else if addr == TMA {
            self.timer_modulo
        } else {
            0xF8 + self.timer_control % 8
        }
    }

    pub fn write(&mut self, addr: u16, value: u8)
        requires
            DIV <= addr <= TAC,
        ensures
            *final(self) == old(self).write_spec(addr, value),
    {
        if addr == DIV {
            let signal_before = self.get_timer_signal();
            self.internal_counter = 0;
            let signal_after = self.get_timer_signal();
            if signal_before && !signal_after {
                self.inc_timer_counter();
            }
        } else if addr == TIMA {
            self.timer_counter = value;
            self.cycles_until_tima_reload = 0;
        } else if addr == TMA {
            self.timer_modulo = value;
        } else {
            let signal_before = self.get_timer_signal();
            self.timer_control = value;
            let signal_after = self.get_timer_signal();
            if signal_before && !signal_after {
                self.inc_timer_counter();
            }
        }
    }
}

/// Writing DIV clears the counter, so DIV reads 0 right afterwards.
pub proof fn lemma_div_reads_zero_after_write(t: Timer, value: u8)
    ensures
        t.write_spec(DIV, value).read_spec(DIV) == 0,
        t.write_spec(DIV, value).internal_counter == 0,
{
}

/// A write to TIMA while a reload is pending cancels it: from then on the
/// timer behaves as one that never had a reload scheduled, so the following
/// machine cycle neither copies TMA into TIMA nor requests the interrupt.
pub proof fn lemma_tima_write_cancels_reload(t: Timer, value: u8, t_cycles: u32)
    requires
        t.cycles_until_tima_reload > 0,
    ensures
        t.write_spec(TIMA, value) == (Timer {
            timer_counter: value,
            cycles_until_tima_reload: 0,
            ..t
        }),
        !t.write_spec(TIMA, value).reload_due(t_cycles),
        t.write_spec(TIMA, value).reloaded(t_cycles).timer_counter == value,
{
}

/// Each of TIMA, TMA and TAC reads back what was written to it, TAC with its
/// five unused bits set.
pub proof fn lemma_timer_registers_read_back(t: Timer, value: u8)
    ensures
        t.write_spec(TMA, value).read_spec(TMA) == value,
        t.write_spec(TAC, value).read_spec(TAC) == 0xF8 + value % 8,
        t.write_spec(TIMA, value).read_spec(TIMA) == value,
{
}

/// With the timer enabled at one count per 16 clocks and TIMA at 0xFF, the
/// count that overflows leaves TIMA at 0 for one machine cycle; the cycle
/// after it loads TMA and requests the interrupt.
pub proof fn lemma_overflow_then_reload(t: Timer)
    requires
        t.timer_control % 8 == 5,
        t.timer_counter == 0xFF,
        t.cycles_until_tima_reload == 0,
        t.internal_counter % 16 == 12,
    ensures
        !t.reload_due(4),
        t.step_spec(4).timer_counter == 0,
        t.step_spec(4).cycles_until_tima_reload == 4,
        t.step_spec(4).reload_due(4),
        t.step_spec(4).step_spec(4).timer_counter == t.timer_modulo,
        t.step_spec(4).step_spec(4).cycles_until_tima_reload == 0,
{
    let c = t.internal_counter;
    assert((t.timer_control / 4) % 2 == 1 && t.timer_control % 4 == 1);
    assert((c as int / 8) % 2 == 1);
    let c1 = ((c + 4) % 0x10000) as u16;
    assert((c1 as int / 8) % 2 == 0);
    let c2 = ((c1 + 4) % 0x10000) as u16;
    assert((c2 as int / 8) % 2 == 0);
}

} // verus!
