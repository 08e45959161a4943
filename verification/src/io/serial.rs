//! The serial port: an 8-bit shift register clocked at 8192 Hz, and a record
//! of every byte it has sent.

use vstd::prelude::*;

verus! {

pub const SB: u16 = 0xFF01;

pub const SC: u16 = 0xFF02;

/// The byte that ends a line of the record.
pub const LINE_FEED: u8 = 0x0A;

/// Master clocks per shifted bit.
pub const CLOCKS_PER_BIT: u32 = 512;

pub struct Serial {
    /// SB
    pub sb: u8,
    /// SC
    pub sc: u8,
    /// Clocks left until the next bit is shifted.
    pub timer: u32,
    /// Bits shifted so far in the running transfer.
    pub shift_count: u8,
    /// The byte that SB held when the running transfer started.
    pub current_char: u8,
    /// Every byte sent and not yet taken, oldest first.
    pub log_buffer: Vec<u8>,
}

/// The port as contracts see it.
pub struct SerialState {
    pub sb: u8,
    pub sc: u8,
    pub timer: u32,
    pub shift_count: u8,
    pub current_char: u8,
    pub log: Seq<u8>,
}

impl View for Serial {
    type V = SerialState;

    open spec fn view(&self) -> SerialState {
        SerialState {
            sb: self.sb,
            sc: self.sc,
            timer: self.timer,
            shift_count: self.shift_count,
            current_char: self.current_char,
            log: self.log_buffer@,
        }
    }
}

/// Whether a value written to SC starts a transfer: bits 7 and 0 both set.
pub open spec fn starts_transfer(value: u8) -> bool {
    value >= 128 && value % 2 == 1
}

impl SerialState {
    pub open spec fn power_on() -> SerialState {
        SerialState { sb: 0, sc: 0, timer: 0, shift_count: 0, current_char: 0, log: Seq::empty() }
    }

    /// Whether a transfer on the internal clock is running.
    pub open spec fn transferring(self) -> bool {
        starts_transfer(self.sc)
    }

    /// Whether the next `t_cycles` clocks shift a bit.
    pub open spec fn shift_due(self, t_cycles: u32) -> bool {
        self.transferring() && t_cycles >= self.timer
    }

    /// Whether the next `t_cycles` clocks shift the eighth bit, which ends
    /// the transfer and requests the serial interrupt.
    pub open spec fn completes(self, t_cycles: u32) -> bool {
        self.shift_due(t_cycles) && self.shift_count >= 7
    }

    /// The port after `t_cycles` clocks. A shift moves SB one place left and
    /// brings a 1 in at the right, as an unconnected line does. The eighth
    /// shift clears bit 7 of SC and records the byte that was sent.
    pub open spec fn step_spec(self, t_cycles: u32) -> SerialState {
        if !self.transferring() {
            self
        } else if !self.shift_due(t_cycles) {
            SerialState { timer: (self.timer - t_cycles) as u32, ..self }
        } else if self.shift_count >= 7 {
            SerialState {
                sb: ((self.sb * 2) % 256 + 1) as u8,
                sc: (self.sc - 128) as u8,
                timer: 0,
                shift_count: 0,
                log: self.log.push(self.current_char),
                ..self
            }
        } else {
            SerialState {
                sb: ((self.sb * 2) % 256 + 1) as u8,
                timer: CLOCKS_PER_BIT,
                shift_count: (self.shift_count + 1) as u8,
                ..self
            }
        }
    }

    /// The port after `n` machine cycles.
    pub open spec fn after_cycles(self, n: nat) -> SerialState
        decreases n,
    {
        if n == 0 {
            self
        } else {
            self.after_cycles((n - 1) as nat).step_spec(4)
        }
    }

    /// SB reads as stored; SC reads with its six unused bits set.
    pub open spec fn read_spec(self, addr: u16) -> u8 {
        if addr == SB {
            self.sb
        } else {
            ((self.sc / 128) * 128 + 0x7E + self.sc % 2) as u8
        }
    }

    pub open spec fn write_spec(self, addr: u16, value: u8) -> SerialState {
        if addr == SB {
            SerialState { sb: value, ..self }
        } else if starts_transfer(value) {
            SerialState {
                sc: value,
                current_char: self.sb,
                timer: CLOCKS_PER_BIT,
                shift_count: 0,
                ..self
            }
        } else {
            SerialState { sc: value, ..self }
        }
    }
}

impl Serial {
    pub fn new() -> (s: Serial)
        ensures
            s@ == SerialState::power_on(),
    {
        Serial {
            sb: 0x00,
            sc: 0x00,
            timer: 0,
            shift_count: 0,
            current_char: 0,
            log_buffer: Vec::new(),
        }
    }

    pub fn read(&self, addr: u16) -> (b: u8)
        requires
            SB <= addr <= SC,
        ensures
            b == self@.read_spec(addr),
    {
        if addr == SB {
            self.sb
        } else {
            (self.sc / 128) * 128 + 0x7E + self.sc % 2
        }
    }

    pub fn write(&mut self, addr: u16, value: u8)
        requires
            SB <= addr <= SC,
        ensures
            final(self)@ == old(self)@.write_spec(addr, value),
    {
        if addr == SB {
            self.sb = value;
        } else {
            self.sc = value;
            if value >= 128 && value % 2 == 1 {
                self.current_char = self.sb;
                self.timer = CLOCKS_PER_BIT;
                self.shift_count = 0;
            }
        }
    }

    /// Advances the port by `t_cycles` clocks and says whether the serial
    /// interrupt is requested, which is when the transfer completes.
    pub fn step(&mut self, t_cycles: u32) -> (interrupt: bool)
        ensures
            final(self)@ == old(self)@.step_spec(t_cycles),
            interrupt == old(self)@.completes(t_cycles),
    {
        if !(self.sc >= 128 && self.sc % 2 == 1) {
            return false;
        }
        if t_cycles < self.timer {
            self.timer = self.timer - t_cycles;
            return false;
        }
        self.sb = (self.sb % 128) * 2 + 1;
        if self.shift_count >= 7 {
            self.sc = self.sc - 128;
            self.timer = 0;
            self.shift_count = 0;
            self.log_buffer.push(self.current_char);
            true
        } else {
            self.timer = CLOCKS_PER_BIT;
            self.shift_count = self.shift_count + 1;
            false
        }
    }

    /// Hands over the lines that are complete: every byte sent up to and
    /// with the last line feed. The line that is still being sent stays in
    /// the record.
    pub fn take_lines(&mut self) -> (lines: Vec<u8>)
        ensures
            lines@ + final(self)@.log == old(self)@.log,
            forall|i: int| 0 <= i < final(self)@.log.len() ==> final(self)@.log[i] != LINE_FEED,
            lines@.len() == 0 || lines@.last() == LINE_FEED,
            final(self)@ == (SerialState { log: final(self)@.log, ..old(self)@ }),
    {
        let n = self.log_buffer.len();
        let mut cut = n;
        while cut > 0 && self.log_buffer[cut - 1] != LINE_FEED
            invariant
                cut <= n,
                n == self.log_buffer@.len(),
                forall|i: int| cut <= i < n ==> self.log_buffer@[i] != LINE_FEED,
            decreases cut,
        {
            cut = cut - 1;
        }
        let mut rest = self.log_buffer.split_off(cut);
        std::mem::swap(&mut rest, &mut self.log_buffer);
        assert(rest@ + self.log_buffer@ =~= old(self)@.log);
        rest
    }

    /// Hands over every byte sent since the last call, oldest first, and
    /// leaves the record empty.
    pub fn take_log(&mut self) -> (sent: Vec<u8>)
        ensures
            sent@ == old(self)@.log,
            final(self)@ == (SerialState { log: Seq::empty(), ..old(self)@ }),
    {
        let mut sent: Vec<u8> = Vec::new();
        std::mem::swap(&mut sent, &mut self.log_buffer);
        sent
    }
}

/// SB reads back what was written; SC reads back bits 7 and 0 of what was
/// written, with the other six bits set.
pub proof fn lemma_serial_registers_read_back(s: SerialState, value: u8)
    ensures
        s.write_spec(SB, value).read_spec(SB) == value,
        s.write_spec(SC, value).read_spec(SC) == (value / 128) * 128 + 0x7E + value % 2,
{
}

/// A byte after `k` shifts to the left, each bringing a 1 in at the right.
pub open spec fn shifted(sb: u8, k: nat) -> u8
    decreases k,
{
    if k == 0 {
        sb
    } else {
        ((shifted(sb, (k - 1) as nat) * 2) % 256 + 1) as u8
    }
}

/// One shift puts a 1 below the ones that are already at the right.
pub proof fn lemma_shift_adds_a_one(x: u8)
    ensures
        ((x * 2) % 256 + 1) % 2 == 1,
        x % 2 == 1 ==> ((x * 2) % 256 + 1) % 4 == 3,
        x % 4 == 3 ==> ((x * 2) % 256 + 1) % 8 == 7,
        x % 8 == 7 ==> ((x * 2) % 256 + 1) % 16 == 15,
        x % 16 == 15 ==> ((x * 2) % 256 + 1) % 32 == 31,
        x % 32 == 31 ==> ((x * 2) % 256 + 1) % 64 == 63,
        x % 64 == 63 ==> ((x * 2) % 256 + 1) % 128 == 127,
        x % 128 == 127 ==> (x * 2) % 256 + 1 == 255,
{
    let y = (x * 2) % 256 + 1;
    if x >= 128 {
        assert(y == 2 * x - 255);
    } else {
        assert(y == 2 * x + 1);
    }
}

/// Eight shifts leave nothing of the byte: all bits are 1.
pub proof fn lemma_eight_shifts(sb: u8)
    ensures
        shifted(sb, 8) == 0xFF,
{
    reveal_with_fuel(shifted, 9);
    lemma_shift_adds_a_one(sb);
    lemma_shift_adds_a_one(shifted(sb, 1));
    lemma_shift_adds_a_one(shifted(sb, 2));
    lemma_shift_adds_a_one(shifted(sb, 3));
    lemma_shift_adds_a_one(shifted(sb, 4));
    lemma_shift_adds_a_one(shifted(sb, 5));
    lemma_shift_adds_a_one(shifted(sb, 6));
    lemma_shift_adds_a_one(shifted(sb, 7));
}

/// Where a transfer stands `i` machine cycles after it started: one bit is
/// shifted every 128 cycles, and until the eighth nothing else changes.
pub proof fn lemma_transfer_progress(s: SerialState, i: nat)
    requires
        s.transferring(),
        s.timer == CLOCKS_PER_BIT,
        s.shift_count == 0,
        i < 1024,
    ensures
        s.after_cycles(i).sc == s.sc,
        s.after_cycles(i).shift_count == i / 128,
        s.after_cycles(i).timer == 512 - 4 * (i % 128),
        s.after_cycles(i).sb == shifted(s.sb, i / 128),
        s.after_cycles(i).log == s.log,
        s.after_cycles(i).current_char == s.current_char,
        s.after_cycles(i).completes(4) <==> i == 1023,
    decreases i,
{
    if i > 0 {
        let before = s.after_cycles((i - 1) as nat);
        lemma_transfer_progress(s, (i - 1) as nat);
        let j = (i - 1) as int;
        assert(before.timer == 512 - 4 * (j % 128));
        if j % 128 == 127 {
            assert(i / 128 == j / 128 + 1);
            assert(i % 128 == 0);
            assert(before.shift_due(4));
            assert(before.shift_count < 7);
        } else {
            assert(i / 128 == j / 128);
            assert(i % 128 == j % 128 + 1);
            assert(!before.shift_due(4));
        }
    }
}

/// A transfer takes 1024 machine cycles, eight bits at 512 clocks each:
/// the cycle that ends it, and no earlier one, requests the interrupt;
/// SB then holds 0xFF, bit 7 of SC is clear, and the byte that was sent is
/// on record.
pub proof fn lemma_transfer_takes_1024_cycles(s: SerialState, value: u8, i: nat)
    requires
        starts_transfer(value),
        i < 1024,
    ensures
        s.write_spec(SC, value).after_cycles(i).completes(4) <==> i == 1023,
        s.write_spec(SC, value).after_cycles(1024).sb == 0xFF,
        s.write_spec(SC, value).after_cycles(1024).sc == value - 128,
        s.write_spec(SC, value).after_cycles(1024).log == s.log.push(s.sb),
        !s.write_spec(SC, value).after_cycles(1024).transferring(),
{
    let started = s.write_spec(SC, value);
    lemma_transfer_progress(started, i);
    lemma_transfer_progress(started, 1023);
    lemma_eight_shifts(s.sb);
    let last = started.after_cycles(1023);
    assert(last.shift_count == 7);
    assert(last.timer == 4);
    assert(started.after_cycles(1024) == last.step_spec(4));
    assert(shifted(s.sb, 8) == ((shifted(s.sb, 7) * 2) % 256 + 1) as u8);
}

} // verus!
