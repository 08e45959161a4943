//! A cycle-accurate core for the first monochrome handheld built around the
//! Sharp SM83: processor, memory bus, timer, serial port, joypad and pixel
//! pipeline, advanced in lockstep one machine cycle at a time.

use vstd::prelude::*;
use crate::cartridge::{verdict, RomError};
use crate::cpu::executor::Machine;
use crate::cpu::{Cpu, CpuError};
use crate::io::ppu::FRAME_SIZE;
use crate::mmu::{Bus, BusState};

pub mod bits;
pub mod cartridge;
pub mod cpu;
pub mod io;
pub mod mmu;

verus! {

/// The processor and the bus with everything on it.
pub struct EmulatorState {
    pub cpu: Cpu,
    pub bus: Bus,
}

impl View for EmulatorState {
    type V = Machine;

    open spec fn view(&self) -> Machine {
        Machine { cpu: self.cpu, bus: self.bus@ }
    }
}

/// What a host holds to run a cartridge: it asks for a frame, reads the
/// pixels, and reports the buttons.
pub struct DancyHandle {
    pub state: EmulatorState,
}

impl View for DancyHandle {
    type V = Machine;

    open spec fn view(&self) -> Machine {
        self.state@
    }
}

impl Machine {
    /// The machine right after the cartridge was put in: the processor in
    /// its state after boot, the bus before its first cycle.
    pub open spec fn power_on(rom: Seq<u8>) -> Machine {
        Machine { cpu: Cpu::power_on(), bus: BusState::power_on(rom) }
    }

    /// The machine with the frame-ready mark taken off.
    pub open spec fn frame_taken(self) -> Machine {
        Machine { bus: BusState { frame_ready: false, ..self.bus }, ..self }
    }

    /// The machine after `n` steps of the processor.
    pub open spec fn after_steps(self, n: nat) -> Machine
        decreases n,
    {
        if n == 0 {
            self
        } else {
            self.after_steps((n - 1) as nat).step()
        }
    }

    /// Whether the run of a frame stops with step `n`: that step faults, or
    /// it leaves the frame ready.
    pub open spec fn stops_with(self, n: nat) -> bool {
        n >= 1 && (self.after_steps((n - 1) as nat).fault() is Some || self.after_steps(
            n,
        ).bus.frame_ready)
    }

    /// Whether step `n` is the first with which the run of a frame stops.
    pub open spec fn frame_ends_with(self, n: nat) -> bool {
        self.stops_with(n) && forall|k: nat| 1 <= k < n ==> !self.stops_with(k)
    }

    /// Whether a run of a frame from this machine takes `n` steps, gives
    /// `result` and leaves the machine `after`: step `n` is the first with
    /// which the run stops; a fault of that step is the result, and
    /// otherwise the frame-ready mark is taken off.
    pub open spec fn frame_run(self, n: nat, result: Result<(), CpuError>, after: Machine) -> bool {
        let fault = self.after_steps((n - 1) as nat).fault();
        &&& self.frame_ends_with(n)
        &&& match result {
            Ok(_) => fault is None && after == self.after_steps(n).frame_taken(),
            Err(e) => fault == Some(e) && after == self.after_steps(n),
        }
    }
}

impl EmulatorState {
    pub open spec fn wf(&self) -> bool {
        self.bus.wf()
    }
}

impl DancyHandle {
    pub open spec fn wf(&self) -> bool {
        self.state.wf()
    }

    /// Puts a cartridge in, or says why its image is refused.
    pub fn new(rom_bytes: Vec<u8>) -> (r: Result<DancyHandle, RomError>)
        ensures
            match r {
                Ok(h) => verdict(rom_bytes@) is None && h.wf() && h@ == Machine::power_on(
                    rom_bytes@,
                ),
                Err(e) => verdict(rom_bytes@) == Some(e),
            },
    {
        match Bus::new(rom_bytes) {
            Ok(bus) => Ok(DancyHandle { state: EmulatorState { cpu: Cpu::new(), bus } }),
            Err(e) => Err(e),
        }
    }

    /// Runs the processor, step by step, until the pixel unit enters
    /// vertical blank, and takes the frame-ready mark off again; or until
    /// a step faults, and hands the fault on. The run always ends: a frame
    /// is never more than 70224 dots away.
    #[verifier::rlimit(50)]
    pub fn run_frame(&mut self) -> (r: Result<(), CpuError>)
        requires
            old(self).wf(),
        ensures
            final(self).wf(),
            exists|n: nat| #[trigger] old(self)@.frame_taken().frame_run(n, r, final(self)@),
    {
        proof {
            reveal(Bus::wf);
        }
        self.state.bus.frame_ready = false;
        let ghost start = self@;
        let ghost mut n: nat = 0;
        assert(start == old(self)@.frame_taken());
        loop
            invariant
                self.wf(),
                start == old(self)@.frame_taken(),
                self@ == start.after_steps(n),
                !self.state.bus.frame_ready,
                forall|k: nat| 1 <= k <= n ==> !start.stops_with(k),
            decreases self@.bus.frame_cost(),
        {
            proof {
                reveal(Bus::wf);
                crate::mmu::lemma_cost_positive(self@.bus);
            }
            let r = self.state.cpu.step(&mut self.state.bus);
            proof {
                n = n + 1;
            }
            match r {
                Err(e) => {
                    assert(start.frame_ends_with(n));
                    assert(start.frame_run(n, r, self@));
                    return Err(e);
                },
                Ok(()) => {},
            }
            if self.state.bus.frame_ready {
                assert(start.frame_ends_with(n));
                self.state.bus.frame_ready = false;
                assert(self@ == start.after_steps(n).frame_taken());
                assert(start.frame_run(n, Ok(()), self@));
                return Ok(());
            }
            proof {
                crate::mmu::lemma_cost_positive(self@.bus);
            }
        }
    }

    /// The frame as 160 x 144 pixels, row by row, each 0xAARRGGBB.
    pub fn get_pixels(&self) -> (pixels: Vec<u32>)
        ensures
            pixels@ == self@.bus.ppu.frame,
            pixels@.len() == FRAME_SIZE,
    {
        let mut pixels: Vec<u32> = Vec::with_capacity(FRAME_SIZE);
        let mut i: usize = 0;
        while i < FRAME_SIZE
            invariant
                i <= FRAME_SIZE,
                pixels@ == self.state.bus.ppu.graphics_buffer@.take(i as int),
            decreases FRAME_SIZE - i,
        {
            pixels.push(self.state.bus.ppu.graphics_buffer[i]);
            proof {
                let frame = self.state.bus.ppu.graphics_buffer@;
                assert(frame.take(i + 1) =~= frame.take(i as int).push(frame[i as int]));
            }
            i = i + 1;
        }
        proof {
            let frame = self.state.bus.ppu.graphics_buffer@;
            assert(frame.take(FRAME_SIZE as int) =~= frame);
        }
        pixels
    }

    /// Reports the buttons, 0 meaning pressed: bit 7 down, 6 up, 5 left,
    /// 4 right, 3 start, 2 select, 1 B, 0 A.
    pub fn update_buttons(&mut self, pressed: u8)
        requires
            old(self).wf(),
        ensures
            final(self).wf(),
            final(self)@ == (Machine { bus: old(self)@.bus.with_buttons(pressed), ..old(self)@ }),
    {
        self.state.bus.set_buttons(pressed);
    }

    /// Hands over the complete lines that the serial port has sent, each
    /// with its line feed; the line still being sent stays behind.
    pub fn take_serial_lines(&mut self) -> (lines: Vec<u8>)
        requires
            old(self).wf(),
        ensures
            final(self).wf(),
            lines@ + final(self)@.bus.serial.log == old(self)@.bus.serial.log,
            forall|i: int|
                0 <= i < final(self)@.bus.serial.log.len() ==> final(self)@.bus.serial.log[i]
                    != crate::io::serial::LINE_FEED,
            lines@.len() == 0 || lines@.last() == crate::io::serial::LINE_FEED,
            final(self)@ == (Machine {
                bus: BusState {
                    serial: crate::io::serial::SerialState {
                        log: final(self)@.bus.serial.log,
                        ..old(self)@.bus.serial
                    },
                    ..old(self)@.bus
                },
                ..old(self)@
            }),
    {
        self.state.bus.take_serial_lines()
    }

    /// Hands over the bytes that the serial port has sent since the last
    /// call, oldest first.
    pub fn take_serial_log(&mut self) -> (sent: Vec<u8>)
        requires
            old(self).wf(),
        ensures
            final(self).wf(),
            sent@ == old(self)@.bus.serial.log,
            final(self)@ == (Machine {
                bus: BusState {
                    serial: crate::io::serial::SerialState {
                        log: Seq::empty(),
                        ..old(self)@.bus.serial
                    },
                    ..old(self)@.bus
                },
                ..old(self)@
            }),
    {
        self.state.bus.take_serial_log()
    }
}

} // verus!
