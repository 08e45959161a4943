use dancy::cpu::timing::instruction_cycles;
use dancy::cpu::{is_illegal_opcode, Cpu, CpuError};
use dancy::DancyHandle;

/// A machine whose ROM holds `program` at 0x0100 and zeros elsewhere.
fn machine(program: &[u8]) -> Box<DancyHandle> {
    let mut rom = vec![0u8; 0x8000];
    rom[0x0100..0x0100 + program.len()].copy_from_slice(program);
    Box::new(DancyHandle::new(rom).unwrap())
}

fn step(h: &mut DancyHandle) -> Result<(), CpuError> {
    h.state.cpu.step(&mut h.state.bus)
}

/// Runs one step and gives the machine cycles it took.
fn cycles_of_step(h: &mut DancyHandle) -> u64 {
    let before = h.state.bus.accumulated_cycles;
    step(h).unwrap();
    h.state.bus.accumulated_cycles - before
}

fn flags(h: &DancyHandle) -> (bool, bool, bool, bool) {
    let f = h.state.cpu.registers.f;
    (f.zero, f.subtract, f.half_carry, f.carry)
}

fn set_flags(h: &mut DancyHandle, z: bool, n: bool, hc: bool, c: bool) {
    let f = &mut h.state.cpu.registers.f;
    f.zero = z;
    f.subtract = n;
    f.half_carry = hc;
    f.carry = c;
}

/// The published cost of every opcode in clocks; for a conditional
/// instruction the cost when the condition fails. 0 marks the opcodes that
/// name no instruction.
const CLOCKS: [u8; 256] = [
    4, 12, 8, 8, 4, 4, 8, 4, 20, 8, 8, 8, 4, 4, 8, 4, //
    4, 12, 8, 8, 4, 4, 8, 4, 12, 8, 8, 8, 4, 4, 8, 4, //
    8, 12, 8, 8, 4, 4, 8, 4, 8, 8, 8, 8, 4, 4, 8, 4, //
    8, 12, 8, 8, 12, 12, 12, 4, 8, 8, 8, 8, 4, 4, 8, 4, //
    4, 4, 4, 4, 4, 4, 8, 4, 4, 4, 4, 4, 4, 4, 8, 4, //
    4, 4, 4, 4, 4, 4, 8, 4, 4, 4, 4, 4, 4, 4, 8, 4, //
    4, 4, 4, 4, 4, 4, 8, 4, 4, 4, 4, 4, 4, 4, 8, 4, //
    8, 8, 8, 8, 8, 8, 4, 8, 4, 4, 4, 4, 4, 4, 8, 4, //
    4, 4, 4, 4, 4, 4, 8, 4, 4, 4, 4, 4, 4, 4, 8, 4, //
    4, 4, 4, 4, 4, 4, 8, 4, 4, 4, 4, 4, 4, 4, 8, 4, //
    4, 4, 4, 4, 4, 4, 8, 4, 4, 4, 4, 4, 4, 4, 8, 4, //
    4, 4, 4, 4, 4, 4, 8, 4, 4, 4, 4, 4, 4, 4, 8, 4, //
    8, 12, 12, 16, 12, 16, 8, 16, 8, 16, 12, 4, 12, 24, 8, 16, //
    8, 12, 12, 0, 12, 16, 8, 16, 8, 16, 12, 0, 12, 0, 8, 16, //
    12, 12, 8, 0, 0, 16, 8, 16, 16, 4, 16, 0, 0, 0, 8, 16, //
    12, 12, 8, 4, 0, 16, 8, 16, 12, 8, 16, 4, 0, 0, 8, 16, //
];

/// The published cost in clocks of a conditional instruction whose
/// condition holds.
fn clocks_when_taken(opcode: u8) -> Option<u8> {
    match opcode {
        0x20 | 0x28 | 0x30 | 0x38 => Some(12),
        0xC0 | 0xC8 | 0xD0 | 0xD8 => Some(20),
        0xC2 | 0xCA | 0xD2 | 0xDA => Some(16),
        0xC4 | 0xCC | 0xD4 | 0xDC => Some(24),
        _ => None,
    }
}

/// Flags under which the condition of a conditional opcode holds.
fn taking_flags(opcode: u8) -> (bool, bool) {
    match (opcode >> 3) & 0x03 {
        0 => (false, false),
        1 => (true, false),
        2 => (false, false),
        _ => (false, true),
    }
}

#[test]
fn cpu_starts_in_its_state_after_boot() {
    let cpu = Cpu::new();
    assert_eq!(cpu.registers.a, 0x01);
    assert_eq!(cpu.registers.get_af(), 0x01B0);
    assert_eq!(cpu.registers.get_bc(), 0x0013);
    assert_eq!(cpu.registers.get_de(), 0x00D8);
    assert_eq!(cpu.registers.get_hl(), 0x014D);
    assert_eq!(cpu.sp, 0xFFFE);
    assert_eq!(cpu.pc, 0x0100);
    assert!(!cpu.ime);
    assert!(!cpu.halted);
    assert!(!cpu.halt_bug_active);
    assert_eq!(cpu.ime_countdown, 0);
}

#[test]
fn every_instruction_costs_what_the_table_says() {
    for opcode in 0..=255u8 {
        if CLOCKS[opcode as usize] == 0 || opcode == 0x76 || opcode == 0x10 || opcode == 0xCB {
            continue;
        }
        let mut h = machine(&[opcode, 0x02, 0xC0]);
        h.state.cpu.registers.set_hl(0xC000);
        h.state.cpu.sp = 0xD000;
        match clocks_when_taken(opcode) {
            Some(taken) => {
                let (z, c) = taking_flags(opcode);
                set_flags(&mut h, z, false, false, c);
                assert_eq!(cycles_of_step(&mut h), taken as u64 / 4, "opcode {:02X} taken", opcode);
                let mut h = machine(&[opcode, 0x02, 0xC0]);
                h.state.cpu.sp = 0xD000;
                set_flags(&mut h, !z, false, false, !c);
                assert_eq!(
                    cycles_of_step(&mut h),
                    CLOCKS[opcode as usize] as u64 / 4,
                    "opcode {:02X} not taken",
                    opcode
                );
            }
            None => {
                assert_eq!(
                    cycles_of_step(&mut h),
                    CLOCKS[opcode as usize] as u64 / 4,
                    "opcode {:02X}",
                    opcode
                );
            }
        }
    }
}

#[test]
fn published_costs_agree_with_the_table() {
    for opcode in 0..=255u8 {
        if CLOCKS[opcode as usize] == 0 || opcode == 0xCB {
            continue;
        }
        assert_eq!(
            instruction_cycles(opcode, 0, false) as u32 * 4,
            CLOCKS[opcode as usize] as u32,
            "opcode {:02X}",
            opcode
        );
        if let Some(taken) = clocks_when_taken(opcode) {
            assert_eq!(instruction_cycles(opcode, 0, true) as u32 * 4, taken as u32);
        }
    }
    for cb in 0..=255u8 {
        let expected = if cb & 0x07 != 6 {
            2
        } else if (0x40..0x80).contains(&cb) {
            3
        } else {
            4
        };
        assert_eq!(instruction_cycles(0xCB, cb, false), expected);
    }
}

#[test]
fn every_prefixed_instruction_costs_what_the_table_says() {
    for cb in 0..=255u8 {
        let mut h = machine(&[0xCB, cb]);
        h.state.cpu.registers.set_hl(0xC000);
        let expected = if cb & 0x07 != 6 {
            2
        } else if (0x40..0x80).contains(&cb) {
            3
        } else {
            4
        };
        assert_eq!(cycles_of_step(&mut h), expected, "CB {:02X}", cb);
        assert_eq!(h.state.cpu.pc, 0x0102);
    }
}

#[test]
fn halt_and_stop_costs() {
    let mut h = machine(&[0x76]);
    assert_eq!(cycles_of_step(&mut h), 1);
    assert!(h.state.cpu.halted);
    assert_eq!(cycles_of_step(&mut h), 1);
    assert_eq!(h.state.cpu.pc, 0x0101);
    let mut h = machine(&[0x10, 0x00, 0x3C]);
    assert_eq!(cycles_of_step(&mut h), 2);
    assert_eq!(h.state.cpu.pc, 0x0102);
    assert!(!h.state.cpu.halted);
}

#[test]
fn nops_and_a_jump_back_loop_with_the_published_cost() {
    let mut program = vec![0x00u8; 32];
    program.extend_from_slice(&[0xC3, 0x00, 0x01]);
    let mut h = machine(&program);
    for _ in 0..33 {
        step(&mut h).unwrap();
    }
    assert_eq!(h.state.cpu.pc, 0x0100);
    assert_eq!(h.state.bus.accumulated_cycles, 32 + 4);
    for _ in 0..66 {
        step(&mut h).unwrap();
    }
    assert_eq!(h.state.cpu.pc, 0x0100);
    assert_eq!(h.state.bus.accumulated_cycles, 3 * 36);
    step(&mut h).unwrap();
    assert_eq!(h.state.cpu.pc, 0x0101);
    assert_eq!(h.state.bus.accumulated_cycles, 3 * 36 + 1);
}

#[test]
fn ninety_nine_nops_and_a_jump_make_a_hundred_instructions() {
    let mut program = vec![0x00u8; 99];
    program.extend_from_slice(&[0xC3, 0x00, 0x01]);
    let mut h = machine(&program);
    for _ in 0..100 {
        step(&mut h).unwrap();
    }
    assert_eq!(h.state.cpu.pc, 0x0100);
    assert_eq!(h.state.bus.accumulated_cycles, 99 + 4);
}

#[test]
fn illegal_opcodes_are_reported_with_their_address() {
    for opcode in [0xD3u8, 0xE3, 0xE4, 0xF4, 0xDB, 0xEB, 0xEC, 0xFC, 0xDD, 0xED, 0xFD] {
        assert!(is_illegal_opcode(opcode));
        let mut h = machine(&[0x00, opcode]);
        assert_eq!(step(&mut h), Ok(()));
        assert_eq!(step(&mut h), Err(CpuError::IllegalOpcode { opcode, pc: 0x0101 }));
    }
    let illegal = (0..=255u8).filter(|&op| is_illegal_opcode(op)).count();
    assert_eq!(illegal, 11);
}

#[test]
fn register_loads_move_every_register() {
    let regs = [0u8, 1, 2, 3, 4, 5, 7];
    for &dst in &regs {
        for &src in &regs {
            let opcode = 0x40 | (dst << 3) | src;
            let mut h = machine(&[opcode]);
            {
                let r = &mut h.state.cpu.registers;
                r.b = 0x10;
                r.c = 0x11;
                r.d = 0x12;
                r.e = 0x13;
                r.h = 0x14;
                r.l = 0x15;
                r.a = 0x17;
            }
            step(&mut h).unwrap();
            let r = h.state.cpu.registers;
            let values = [r.b, r.c, r.d, r.e, r.h, r.l, 0, r.a];
            assert_eq!(values[dst as usize], 0x10 + src, "opcode {:02X}", opcode);
        }
    }
}

#[test]
fn loads_through_hl() {
    let mut h = machine(&[0x36, 0x5A, 0x46, 0x70, 0x7E]);
    h.state.cpu.registers.set_hl(0xC123);
    step(&mut h).unwrap();
    assert_eq!(h.state.bus.raw_read(0xC123), 0x5A);
    step(&mut h).unwrap();
    assert_eq!(h.state.cpu.registers.b, 0x5A);
    h.state.cpu.registers.b = 0x77;
    step(&mut h).unwrap();
    assert_eq!(h.state.bus.raw_read(0xC123), 0x77);
    step(&mut h).unwrap();
    assert_eq!(h.state.cpu.registers.a, 0x77);
}

#[test]
fn immediate_loads() {
    let mut h = machine(&[
        0x06, 1, 0x0E, 2, 0x16, 3, 0x1E, 4, 0x26, 5, 0x2E, 6, 0x3E, 7, 0x01, 0x34, 0x12, 0x11, 0x78,
        0x56, 0x21, 0xBC, 0x9A, 0x31, 0xF0, 0xDE,
    ]);
    for _ in 0..7 {
        step(&mut h).unwrap();
    }
    let r = h.state.cpu.registers;
    assert_eq!((r.b, r.c, r.d, r.e, r.h, r.l, r.a), (1, 2, 3, 4, 5, 6, 7));
    for _ in 0..4 {
        step(&mut h).unwrap();
    }
    let r = h.state.cpu.registers;
    assert_eq!(r.get_bc(), 0x1234);
    assert_eq!(r.get_de(), 0x5678);
    assert_eq!(r.get_hl(), 0x9ABC);
    assert_eq!(h.state.cpu.sp, 0xDEF0);
}

#[test]
fn indirect_loads_of_a() {
    let mut h = machine(&[0x02, 0x12, 0x22, 0x32, 0x0A, 0x1A, 0x2A, 0x3A]);
    h.state.cpu.registers.a = 0x42;
    h.state.cpu.registers.set_bc(0xC000);
    h.state.cpu.registers.set_de(0xC001);
    h.state.cpu.registers.set_hl(0xC002);
    for _ in 0..4 {
        step(&mut h).unwrap();
    }
    assert_eq!(h.state.bus.raw_read(0xC000), 0x42);
    assert_eq!(h.state.bus.raw_read(0xC001), 0x42);
    assert_eq!(h.state.bus.raw_read(0xC002), 0x42);
    assert_eq!(h.state.bus.raw_read(0xC003), 0x42);
    assert_eq!(h.state.cpu.registers.get_hl(), 0xC002);
    h.state.bus.raw_write(0xC000, 1);
    h.state.bus.raw_write(0xC001, 2);
    h.state.bus.raw_write(0xC002, 3);
    h.state.bus.raw_write(0xC003, 4);
    step(&mut h).unwrap();
    assert_eq!(h.state.cpu.registers.a, 1);
    step(&mut h).unwrap();
    assert_eq!(h.state.cpu.registers.a, 2);
    step(&mut h).unwrap();
    assert_eq!(h.state.cpu.registers.a, 3);
    assert_eq!(h.state.cpu.registers.get_hl(), 0xC003);
    step(&mut h).unwrap();
    assert_eq!(h.state.cpu.registers.a, 4);
    assert_eq!(h.state.cpu.registers.get_hl(), 0xC002);
}

#[test]
fn high_page_and_absolute_loads() {
    let mut h = machine(&[0xE0, 0x80, 0xE2, 0xEA, 0x00, 0xC0, 0xF0, 0x81, 0xF2, 0xFA, 0x00, 0xC0]);
    h.state.cpu.registers.a = 0x99;
    h.state.cpu.registers.c = 0x81;
    for _ in 0..3 {
        step(&mut h).unwrap();
    }
    assert_eq!(h.state.bus.raw_read(0xFF80), 0x99);
    assert_eq!(h.state.bus.raw_read(0xFF81), 0x99);
    assert_eq!(h.state.bus.raw_read(0xC000), 0x99);
    h.state.bus.raw_write(0xFF81, 0x11);
    h.state.bus.raw_write(0xC000, 0x22);
    h.state.cpu.registers.a = 0;
    step(&mut h).unwrap();
    assert_eq!(h.state.cpu.registers.a, 0x11);
    h.state.cpu.registers.a = 0;
    step(&mut h).unwrap();
    assert_eq!(h.state.cpu.registers.a, 0x11);
    step(&mut h).unwrap();
    assert_eq!(h.state.cpu.registers.a, 0x22);
}

#[test]
fn sp_is_stored_low_byte_first() {
    let mut h = machine(&[0x08, 0x00, 0xC0, 0xF9]);
    h.state.cpu.sp = 0x1234;
    step(&mut h).unwrap();
    assert_eq!(h.state.bus.raw_read(0xC000), 0x34);
    assert_eq!(h.state.bus.raw_read(0xC001), 0x12);
    h.state.cpu.registers.set_hl(0xBEEF);
    step(&mut h).unwrap();
    assert_eq!(h.state.cpu.sp, 0xBEEF);
}

#[test]
fn push_then_pop_returns_the_value_and_restores_sp() {
    for value in [0x0000u16, 0x1234, 0xFFFF, 0x8001, 0x00FF] {
        let mut h = machine(&[0xC5, 0xD1, 0xE5, 0xC1]);
        h.state.cpu.sp = 0xD000;
        h.state.cpu.registers.set_bc(value);
        step(&mut h).unwrap();
        assert_eq!(h.state.cpu.sp, 0xCFFE);
        assert_eq!(h.state.bus.raw_read(0xCFFF), (value >> 8) as u8);
        assert_eq!(h.state.bus.raw_read(0xCFFE), value as u8);
        step(&mut h).unwrap();
        assert_eq!(h.state.cpu.sp, 0xD000);
        assert_eq!(h.state.cpu.registers.get_de(), value);
        h.state.cpu.registers.set_hl(!value);
        step(&mut h).unwrap();
        step(&mut h).unwrap();
        assert_eq!(h.state.cpu.registers.get_bc(), !value);
        assert_eq!(h.state.cpu.sp, 0xD000);
    }
}

#[test]
fn af_round_trip_drops_the_low_nibble_of_f() {
    let mut h = machine(&[0xC5, 0xF1, 0xF5, 0xD1]);
    h.state.cpu.sp = 0xD000;
    h.state.cpu.registers.set_bc(0x12FF);
    step(&mut h).unwrap();
    step(&mut h).unwrap();
    assert_eq!(h.state.cpu.registers.get_af(), 0x12F0);
    assert_eq!(flags(&h), (true, true, true, true));
    step(&mut h).unwrap();
    step(&mut h).unwrap();
    assert_eq!(h.state.cpu.registers.get_de(), 0x12F0);
    assert_eq!(h.state.cpu.sp, 0xD000);
}

#[test]
fn stack_pointer_wraps() {
    let mut h = machine(&[0xC5, 0xC1]);
    h.state.cpu.sp = 0x0001;
    h.state.cpu.registers.set_bc(0xABCD);
    step(&mut h).unwrap();
    assert_eq!(h.state.cpu.sp, 0xFFFF);
    assert_eq!(h.state.bus.raw_read(0xFFFF), 0xCD);
    step(&mut h).unwrap();
    assert_eq!(h.state.cpu.sp, 0x0001);
}

#[test]
fn relative_jumps_go_both_ways() {
    let mut h = machine(&[0x18, 0x02, 0x00, 0x00, 0x18, 0xFA]);
    step(&mut h).unwrap();
    assert_eq!(h.state.cpu.pc, 0x0104);
    step(&mut h).unwrap();
    assert_eq!(h.state.cpu.pc, 0x0100);
}

#[test]
fn conditional_jumps_follow_the_flags() {
    for (opcode, z, c, taken) in [
        (0x20u8, false, false, true),
        (0x20, true, false, false),
        (0x28, true, false, true),
        (0x28, false, false, false),
        (0x30, false, false, true),
        (0x30, false, true, false),
        (0x38, false, true, true),
        (0x38, false, false, false),
    ] {
        let mut h = machine(&[opcode, 0x10]);
        set_flags(&mut h, z, false, false, c);
        step(&mut h).unwrap();
        assert_eq!(h.state.cpu.pc, if taken { 0x0112 } else { 0x0102 }, "opcode {:02X}", opcode);
        let mut h = machine(&[opcode + 0xA2, 0x00, 0x20]);
        set_flags(&mut h, z, false, false, c);
        step(&mut h).unwrap();
        assert_eq!(h.state.cpu.pc, if taken { 0x2000 } else { 0x0103 });
    }
    let mut h = machine(&[0xE9]);
    h.state.cpu.registers.set_hl(0x4321);
    step(&mut h).unwrap();
    assert_eq!(h.state.cpu.pc, 0x4321);
}

#[test]
fn call_and_return() {
    let mut h = machine(&[0xCD, 0x10, 0x01, 0x3C]);
    h.state.cpu.sp = 0xD000;
    let mut rom_call = vec![0u8; 0x8000];
    rom_call[0x0100..0x0103].copy_from_slice(&[0xCD, 0x10, 0x01]);
    rom_call[0x0110] = 0xC9;
    let mut h2 = Box::new(DancyHandle::new(rom_call).unwrap());
    h2.state.cpu.sp = 0xD000;
    step(&mut h2).unwrap();
    assert_eq!(h2.state.cpu.pc, 0x0110);
    assert_eq!(h2.state.cpu.sp, 0xCFFE);
    assert_eq!(h2.state.bus.raw_read(0xCFFE), 0x03);
    assert_eq!(h2.state.bus.raw_read(0xCFFF), 0x01);
    step(&mut h2).unwrap();
    assert_eq!(h2.state.cpu.pc, 0x0103);
    assert_eq!(h2.state.cpu.sp, 0xD000);
    step(&mut h).unwrap();
    assert_eq!(h.state.cpu.pc, 0x0110);
}

#[test]
fn conditional_call_and_return_follow_the_flags() {
    let mut h = machine(&[0xC4, 0x00, 0x20, 0xCC, 0x00, 0x20]);
    h.state.cpu.sp = 0xD000;
    set_flags(&mut h, true, false, false, false);
    step(&mut h).unwrap();
    assert_eq!(h.state.cpu.pc, 0x0103);
    assert_eq!(h.state.cpu.sp, 0xD000);
    step(&mut h).unwrap();
    assert_eq!(h.state.cpu.pc, 0x2000);
    assert_eq!(h.state.cpu.sp, 0xCFFE);
    let mut h = machine(&[0xD8, 0xD0]);
    h.state.cpu.sp = 0xD000;
    h.state.bus.raw_write(0xD000, 0x34);
    h.state.bus.raw_write(0xD001, 0x12);
    set_flags(&mut h, false, false, false, false);
    step(&mut h).unwrap();
    assert_eq!(h.state.cpu.pc, 0x0101);
    step(&mut h).unwrap();
    assert_eq!(h.state.cpu.pc, 0x1234);
    assert_eq!(h.state.cpu.sp, 0xD002);
}

#[test]
fn restarts_jump_to_their_vectors() {
    for (i, opcode) in [0xC7u8, 0xCF, 0xD7, 0xDF, 0xE7, 0xEF, 0xF7, 0xFF].iter().enumerate() {
        let mut h = machine(&[*opcode]);
        h.state.cpu.sp = 0xD000;
        step(&mut h).unwrap();
        assert_eq!(h.state.cpu.pc, 8 * i as u16);
        assert_eq!(h.state.cpu.sp, 0xCFFE);
        assert_eq!(h.state.bus.read_u16(0xCFFE), 0x0101);
    }
}

#[test]
fn reti_returns_and_enables_interrupts() {
    let mut h = machine(&[0xD9]);
    h.state.cpu.sp = 0xD000;
    h.state.bus.raw_write(0xD000, 0x50);
    h.state.bus.raw_write(0xD001, 0x01);
    step(&mut h).unwrap();
    assert_eq!(h.state.cpu.pc, 0x0150);
    assert!(h.state.cpu.ime);
}

#[test]
fn eight_bit_increments_and_decrements() {
    let mut h = machine(&[0x3C, 0x3C, 0x3D, 0x3D, 0x34, 0x35]);
    h.state.cpu.registers.a = 0xFE;
    set_flags(&mut h, false, true, false, true);
    step(&mut h).unwrap();
    assert_eq!(h.state.cpu.registers.a, 0xFF);
    assert_eq!(flags(&h), (false, false, false, true));
    step(&mut h).unwrap();
    assert_eq!(h.state.cpu.registers.a, 0x00);
    assert_eq!(flags(&h), (true, false, true, true));
    step(&mut h).unwrap();
    assert_eq!(h.state.cpu.registers.a, 0xFF);
    assert_eq!(flags(&h), (false, true, true, true));
    h.state.cpu.registers.a = 0x01;
    step(&mut h).unwrap();
    assert_eq!(h.state.cpu.registers.a, 0x00);
    assert_eq!(flags(&h), (true, true, false, true));
    h.state.cpu.registers.set_hl(0xC000);
    h.state.bus.raw_write(0xC000, 0x0F);
    step(&mut h).unwrap();
    assert_eq!(h.state.bus.raw_read(0xC000), 0x10);
    assert_eq!(flags(&h), (false, false, true, true));
    step(&mut h).unwrap();
    assert_eq!(h.state.bus.raw_read(0xC000), 0x0F);
    assert_eq!(flags(&h), (false, true, true, true));
}

#[test]
fn sixteen_bit_increments_and_decrements_leave_the_flags() {
    let mut h = machine(&[0x03, 0x1B, 0x23, 0x3B]);
    h.state.cpu.registers.set_bc(0xFFFF);
    h.state.cpu.registers.set_de(0x0000);
    h.state.cpu.registers.set_hl(0x00FF);
    h.state.cpu.sp = 0x1000;
    set_flags(&mut h, true, false, true, false);
    for _ in 0..4 {
        step(&mut h).unwrap();
    }
    assert_eq!(h.state.cpu.registers.get_bc(), 0x0000);
    assert_eq!(h.state.cpu.registers.get_de(), 0xFFFF);
    assert_eq!(h.state.cpu.registers.get_hl(), 0x0100);
    assert_eq!(h.state.cpu.sp, 0x0FFF);
    assert_eq!(flags(&h), (true, false, true, false));
}

#[test]
fn add_hl_sets_carries_from_bits_11_and_15() {
    let mut h = machine(&[0x09, 0x19, 0x29]);
    h.state.cpu.registers.set_hl(0x0FFF);
    h.state.cpu.registers.set_bc(0x0001);
    h.state.cpu.registers.set_de(0xF000);
    set_flags(&mut h, true, true, false, false);
    step(&mut h).unwrap();
    assert_eq!(h.state.cpu.registers.get_hl(), 0x1000);
    assert_eq!(flags(&h), (true, false, true, false));
    step(&mut h).unwrap();
    assert_eq!(h.state.cpu.registers.get_hl(), 0x0000);
    assert_eq!(flags(&h), (true, false, false, true));
    h.state.cpu.registers.set_hl(0x8800);
    step(&mut h).unwrap();
    assert_eq!(h.state.cpu.registers.get_hl(), 0x1000);
    assert_eq!(flags(&h), (true, false, true, true));
}

#[test]
fn sp_relative_arithmetic() {
    let mut h = machine(&[0xE8, 0x01, 0xE8, 0xFF, 0xF8, 0x10, 0xF8, 0xF0]);
    h.state.cpu.sp = 0x00FF;
    set_flags(&mut h, true, true, false, false);
    step(&mut h).unwrap();
    assert_eq!(h.state.cpu.sp, 0x0100);
    assert_eq!(flags(&h), (false, false, true, true));
    step(&mut h).unwrap();
    assert_eq!(h.state.cpu.sp, 0x00FF);
    assert_eq!(flags(&h), (false, false, false, false));
    step(&mut h).unwrap();
    assert_eq!(h.state.cpu.registers.get_hl(), 0x010F);
    assert_eq!(h.state.cpu.sp, 0x00FF);
    assert_eq!(flags(&h), (false, false, false, true));
    step(&mut h).unwrap();
    assert_eq!(h.state.cpu.registers.get_hl(), 0x00EF);
    assert_eq!(flags(&h), (false, false, false, true));
}

#[test]
fn arithmetic_on_a_and_a_register() {
    let mut h = machine(&[0x80, 0x88, 0x90, 0x98, 0xA0, 0xA8, 0xB0, 0xB8]);
    h.state.cpu.registers.a = 0x3A;
    h.state.cpu.registers.b = 0xC6;
    step(&mut h).unwrap();
    assert_eq!(h.state.cpu.registers.a, 0x00);
    assert_eq!(flags(&h), (true, false, true, true));
    step(&mut h).unwrap();
    assert_eq!(h.state.cpu.registers.a, 0xC7);
    assert_eq!(flags(&h), (false, false, false, false));
    h.state.cpu.registers.a = 0x10;
    h.state.cpu.registers.b = 0x01;
    step(&mut h).unwrap();
    assert_eq!(h.state.cpu.registers.a, 0x0F);
    assert_eq!(flags(&h), (false, true, true, false));
    h.state.cpu.registers.a = 0x00;
    set_flags(&mut h, false, false, false, true);
    step(&mut h).unwrap();
    assert_eq!(h.state.cpu.registers.a, 0xFE);
    assert_eq!(flags(&h), (false, true, true, true));
    h.state.cpu.registers.a = 0xF0;
    h.state.cpu.registers.b = 0x0F;
    step(&mut h).unwrap();
    assert_eq!(h.state.cpu.registers.a, 0x00);
    assert_eq!(flags(&h), (true, false, true, false));
    h.state.cpu.registers.a = 0xFF;
    step(&mut h).unwrap();
    assert_eq!(h.state.cpu.registers.a, 0xF0);
    assert_eq!(flags(&h), (false, false, false, false));
    step(&mut h).unwrap();
    assert_eq!(h.state.cpu.registers.a, 0xFF);
    assert_eq!(flags(&h), (false, false, false, false));
    h.state.cpu.registers.a = 0x0F;
    step(&mut h).unwrap();
    assert_eq!(h.state.cpu.registers.a, 0x0F);
    assert_eq!(flags(&h), (true, true, false, false));
}

#[test]
fn arithmetic_on_a_and_an_immediate() {
    let mut h = machine(&[0xC6, 0x0F, 0xCE, 0xF0, 0xD6, 0x01, 0xDE, 0x00, 0xE6, 0x0F, 0xEE, 0xFF, 0xF6, 0x01, 0xFE, 0xF2]);
    h.state.cpu.registers.a = 0x01;
    step(&mut h).unwrap();
    assert_eq!(h.state.cpu.registers.a, 0x10);
    assert_eq!(flags(&h), (false, false, true, false));
    step(&mut h).unwrap();
    assert_eq!(h.state.cpu.registers.a, 0x00);
    assert_eq!(flags(&h), (true, false, false, true));
    step(&mut h).unwrap();
    assert_eq!(h.state.cpu.registers.a, 0xFF);
    assert_eq!(flags(&h), (false, true, true, true));
    step(&mut h).unwrap();
    assert_eq!(h.state.cpu.registers.a, 0xFE);
    assert_eq!(flags(&h), (false, true, false, false));
    step(&mut h).unwrap();
    assert_eq!(h.state.cpu.registers.a, 0x0E);
    assert_eq!(flags(&h), (false, false, true, false));
    step(&mut h).unwrap();
    assert_eq!(h.state.cpu.registers.a, 0xF1);
    assert_eq!(flags(&h), (false, false, false, false));
    step(&mut h).unwrap();
    assert_eq!(h.state.cpu.registers.a, 0xF1);
    step(&mut h).unwrap();
    assert_eq!(h.state.cpu.registers.a, 0xF1);
    assert_eq!(flags(&h), (false, true, true, true));
}

#[test]
fn decimal_adjust_after_addition_and_subtraction() {
    let mut h = machine(&[0xC6, 0x38, 0x27, 0xD6, 0x09, 0x27, 0xC6, 0x99, 0x27]);
    h.state.cpu.registers.a = 0x45;
    step(&mut h).unwrap();
    assert_eq!(h.state.cpu.registers.a, 0x7D);
    step(&mut h).unwrap();
    assert_eq!(h.state.cpu.registers.a, 0x83);
    assert_eq!(flags(&h), (false, false, false, false));
    step(&mut h).unwrap();
    assert_eq!(h.state.cpu.registers.a, 0x7A);
    step(&mut h).unwrap();
    assert_eq!(h.state.cpu.registers.a, 0x74);
    assert_eq!(flags(&h), (false, true, false, false));
    h.state.cpu.registers.a = 0x01;
    step(&mut h).unwrap();
    assert_eq!(h.state.cpu.registers.a, 0x9A);
    step(&mut h).unwrap();
    assert_eq!(h.state.cpu.registers.a, 0x00);
    assert_eq!(flags(&h), (true, false, false, true));
}

#[test]
fn complement_and_carry_instructions() {
    let mut h = machine(&[0x2F, 0x37, 0x3F, 0x3F]);
    h.state.cpu.registers.a = 0x35;
    set_flags(&mut h, true, false, false, false);
    step(&mut h).unwrap();
    assert_eq!(h.state.cpu.registers.a, 0xCA);
    assert_eq!(flags(&h), (true, true, true, false));
    step(&mut h).unwrap();
    assert_eq!(flags(&h), (true, false, false, true));
    step(&mut h).unwrap();
    assert_eq!(flags(&h), (true, false, false, false));
    set_flags(&mut h, false, true, true, false);
    step(&mut h).unwrap();
    assert_eq!(flags(&h), (false, false, false, true));
}

#[test]
fn accumulator_rotates_clear_zero() {
    let mut h = machine(&[0x07, 0x0F, 0x17, 0x1F, 0x17]);
    h.state.cpu.registers.a = 0x85;
    set_flags(&mut h, true, true, true, false);
    step(&mut h).unwrap();
    assert_eq!(h.state.cpu.registers.a, 0x0B);
    assert_eq!(flags(&h), (false, false, false, true));
    step(&mut h).unwrap();
    assert_eq!(h.state.cpu.registers.a, 0x85);
    assert_eq!(flags(&h), (false, false, false, true));
    step(&mut h).unwrap();
    assert_eq!(h.state.cpu.registers.a, 0x0B);
    assert_eq!(flags(&h), (false, false, false, true));
    step(&mut h).unwrap();
    assert_eq!(h.state.cpu.registers.a, 0x85);
    assert_eq!(flags(&h), (false, false, false, true));
    h.state.cpu.registers.a = 0x80;
    set_flags(&mut h, false, false, false, false);
    step(&mut h).unwrap();
    assert_eq!(h.state.cpu.registers.a, 0x00);
    assert_eq!(flags(&h), (false, false, false, true));
}

#[test]
fn prefixed_rotates_and_shifts_set_zero_from_the_result() {
    let cases: [(u8, u8, bool, u8, (bool, bool, bool, bool)); 11] = [
        (0x00, 0x85, false, 0x0B, (false, false, false, true)),
        (0x00, 0x00, true, 0x00, (true, false, false, false)),
        (0x08, 0x01, false, 0x80, (false, false, false, true)),
        (0x10, 0x80, false, 0x00, (true, false, false, true)),
        (0x10, 0x11, true, 0x23, (false, false, false, false)),
        (0x18, 0x01, false, 0x00, (true, false, false, true)),
        (0x18, 0x8A, true, 0xC5, (false, false, false, false)),
        (0x20, 0xFF, false, 0xFE, (false, false, false, true)),
        (0x28, 0x8A, false, 0xC5, (false, false, false, false)),
        (0x30, 0xF1, true, 0x1F, (false, false, false, false)),
        (0x38, 0x01, false, 0x00, (true, false, false, true)),
    ];
    for (cb, value, carry, result, expected) in cases {
        let mut h = machine(&[0xCB, cb]);
        h.state.cpu.registers.b = value;
        set_flags(&mut h, false, true, true, carry);
        step(&mut h).unwrap();
        assert_eq!(h.state.cpu.registers.b, result, "CB {:02X}", cb);
        assert_eq!(flags(&h), expected, "CB {:02X}", cb);
        let mut h = machine(&[0xCB, cb | 0x06]);
        h.state.cpu.registers.set_hl(0xC000);
        h.state.bus.raw_write(0xC000, value);
        set_flags(&mut h, false, true, true, carry);
        step(&mut h).unwrap();
        assert_eq!(h.state.bus.raw_read(0xC000), result, "CB {:02X} (HL)", cb);
        assert_eq!(flags(&h), expected, "CB {:02X} (HL)", cb);
    }
}

#[test]
fn bit_test_reset_and_set() {
    for n in 0..8u8 {
        let mut h = machine(&[0xCB, 0x40 | (n << 3) | 7, 0xCB, 0x80 | (n << 3) | 7, 0xCB, 0x40 | (n << 3) | 7, 0xCB, 0xC0 | (n << 3) | 7]);
        h.state.cpu.registers.a = 0xFF;
        set_flags(&mut h, true, true, false, true);
        step(&mut h).unwrap();
        assert_eq!(flags(&h), (false, false, true, true));
        step(&mut h).unwrap();
        assert_eq!(h.state.cpu.registers.a, 0xFF & !(1 << n));
        assert_eq!(flags(&h), (false, false, true, true));
        step(&mut h).unwrap();
        assert_eq!(flags(&h), (true, false, true, true));
        h.state.cpu.registers.a = 0x00;
        step(&mut h).unwrap();
        assert_eq!(h.state.cpu.registers.a, 1 << n);
    }
    let mut h = machine(&[0xCB, 0x46]);
    h.state.cpu.registers.set_hl(0xC000);
    h.state.bus.raw_write(0xC000, 0x01);
    step(&mut h).unwrap();
    assert_eq!(flags(&h).0, false);
    assert_eq!(h.state.bus.raw_read(0xC000), 0x01);
}

#[test]
fn halt_sleeps_until_an_interrupt_is_pending() {
    let mut h = machine(&[0x76, 0x3C]);
    h.state.cpu.registers.a = 0;
    step(&mut h).unwrap();
    assert!(h.state.cpu.halted);
    for _ in 0..10 {
        assert_eq!(cycles_of_step(&mut h), 1);
        assert!(h.state.cpu.halted);
        assert_eq!(h.state.cpu.pc, 0x0101);
    }
    h.state.bus.raw_write(0xFFFF, 0x04);
    h.state.bus.raw_write(0xFF0F, 0x04);
    assert_eq!(cycles_of_step(&mut h), 2);
    assert!(!h.state.cpu.halted);
    assert_eq!(h.state.cpu.registers.a, 1);
    assert_eq!(h.state.cpu.pc, 0x0102);
    assert_eq!(h.state.bus.raw_read(0xFF0F), 0xE4);
}

#[test]
fn halt_with_interrupts_on_wakes_into_the_handler() {
    let mut h = machine(&[0x76, 0x3C]);
    h.state.cpu.ime = true;
    h.state.cpu.sp = 0xD000;
    step(&mut h).unwrap();
    assert!(h.state.cpu.halted);
    step(&mut h).unwrap();
    h.state.bus.raw_write(0xFFFF, 0x01);
    h.state.bus.raw_write(0xFF0F, 0x01);
    assert_eq!(cycles_of_step(&mut h), 1 + 5 + 1);
    assert!(!h.state.cpu.halted);
    assert!(!h.state.cpu.ime);
    assert_eq!(h.state.cpu.pc, 0x0041);
    assert_eq!(h.state.bus.read_u16(0xCFFE), 0x0101);
    assert_eq!(h.state.bus.raw_read(0xFF0F), 0xE0);
}

#[test]
fn halt_bug_runs_the_next_opcode_twice() {
    let mut h = machine(&[0x76, 0x3C, 0x00]);
    h.state.cpu.registers.a = 0;
    h.state.bus.raw_write(0xFFFF, 0x04);
    h.state.bus.raw_write(0xFF0F, 0x04);
    step(&mut h).unwrap();
    assert!(!h.state.cpu.halted);
    assert!(h.state.cpu.halt_bug_active);
    assert_eq!(h.state.cpu.pc, 0x0101);
    step(&mut h).unwrap();
    assert!(!h.state.cpu.halt_bug_active);
    assert_eq!(h.state.cpu.pc, 0x0101);
    assert_eq!(h.state.cpu.registers.a, 1);
    step(&mut h).unwrap();
    assert_eq!(h.state.cpu.pc, 0x0102);
    assert_eq!(h.state.cpu.registers.a, 2);
    step(&mut h).unwrap();
    assert_eq!(h.state.cpu.pc, 0x0103);
    assert_eq!(h.state.cpu.registers.a, 2);
}

#[test]
fn halt_bug_makes_an_opcode_its_own_operand() {
    let mut h = machine(&[0x76, 0x3E, 0x14]);
    h.state.cpu.registers.a = 0;
    h.state.cpu.registers.d = 0;
    h.state.bus.raw_write(0xFFFF, 0x1F);
    h.state.bus.raw_write(0xFF0F, 0x10);
    step(&mut h).unwrap();
    step(&mut h).unwrap();
    assert_eq!(h.state.cpu.registers.a, 0x3E);
    assert_eq!(h.state.cpu.pc, 0x0102);
    step(&mut h).unwrap();
    assert_eq!(h.state.cpu.registers.d, 1);
}

#[test]
fn halt_with_interrupts_on_does_not_arm_the_bug() {
    let mut h = machine(&[0x76, 0x3C]);
    h.state.cpu.ime = true;
    h.state.bus.raw_write(0xFFFF, 0x04);
    h.state.bus.raw_write(0xFF0F, 0x04);
    h.state.cpu.ime = false;
    h.state.bus.raw_write(0xFF0F, 0x00);
    step(&mut h).unwrap();
    assert!(h.state.cpu.halted);
    assert!(!h.state.cpu.halt_bug_active);
}

#[test]
fn interrupt_service_takes_five_cycles_and_jumps_to_the_vector() {
    for bit in 0..5u8 {
        let mut h = machine(&[0x00]);
        h.state.cpu.ime = true;
        h.state.cpu.sp = 0xD000;
        h.state.bus.raw_write(0xFFFF, 0x1F);
        h.state.bus.raw_write(0xFF0F, 1 << bit);
        assert_eq!(cycles_of_step(&mut h), 5 + 1);
        assert_eq!(h.state.cpu.pc, 0x0040 + 8 * bit as u16 + 1);
        assert!(!h.state.cpu.ime);
        assert_eq!(h.state.cpu.sp, 0xCFFE);
        assert_eq!(h.state.bus.raw_read(0xCFFE), 0x00);
        assert_eq!(h.state.bus.raw_read(0xCFFF), 0x01);
        assert_eq!(h.state.bus.raw_read(0xFF0F), 0xE0);
    }
}

#[test]
fn lowest_pending_interrupt_is_served_first() {
    let mut h = machine(&[0x00]);
    h.state.cpu.ime = true;
    h.state.cpu.sp = 0xD000;
    h.state.bus.raw_write(0xFFFF, 0x1E);
    h.state.bus.raw_write(0xFF0F, 0x15);
    step(&mut h).unwrap();
    assert_eq!(h.state.cpu.pc, 0x0051);
    assert_eq!(h.state.bus.raw_read(0xFF0F), 0xF1);
}

#[test]
fn interrupts_wait_while_the_master_enable_is_off() {
    let mut h = machine(&[0x00, 0x00]);
    h.state.bus.raw_write(0xFFFF, 0x1F);
    h.state.bus.raw_write(0xFF0F, 0x01);
    assert_eq!(cycles_of_step(&mut h), 1);
    assert_eq!(h.state.cpu.pc, 0x0101);
    assert_eq!(h.state.bus.raw_read(0xFF0F), 0xE1);
}

#[test]
fn ei_takes_effect_after_the_following_instruction() {
    let mut h = machine(&[0xFB, 0x3C, 0x3C, 0x3C]);
    h.state.cpu.registers.a = 0;
    h.state.cpu.sp = 0xD000;
    h.state.bus.raw_write(0xFFFF, 0x01);
    h.state.bus.raw_write(0xFF0F, 0x01);
    step(&mut h).unwrap();
    assert!(!h.state.cpu.ime);
    step(&mut h).unwrap();
    assert_eq!(h.state.cpu.registers.a, 1);
    assert_eq!(h.state.cpu.pc, 0x0102);
    assert!(!h.state.cpu.ime);
    step(&mut h).unwrap();
    assert_eq!(h.state.cpu.registers.a, 1);
    assert_eq!(h.state.cpu.pc, 0x0041);
    assert_eq!(h.state.bus.read_u16(0xCFFE), 0x0102);
}

#[test]
fn di_cancels_a_pending_ei() {
    let mut h = machine(&[0xFB, 0xF3, 0x00, 0x00]);
    h.state.bus.raw_write(0xFFFF, 0x01);
    h.state.bus.raw_write(0xFF0F, 0x01);
    for _ in 0..4 {
        step(&mut h).unwrap();
    }
    assert!(!h.state.cpu.ime);
    assert_eq!(h.state.cpu.pc, 0x0104);
    let mut h = machine(&[0xF3]);
    h.state.cpu.ime = true;
    step(&mut h).unwrap();
    assert!(!h.state.cpu.ime);
}

#[test]
fn program_raises_the_timer_interrupt() {
    let mut h = machine(&[
        0x3E, 0xAB, 0xE0, 0x06, 0x3E, 0xFF, 0xE0, 0x05, 0x3E, 0x05, 0xE0, 0x07, 0x18, 0xFE,
    ]);
    for _ in 0..6 {
        step(&mut h).unwrap();
    }
    assert_eq!(h.state.bus.raw_read(0xFF0F) & 0x04, 0);
    let mut steps = 0;
    while h.state.bus.raw_read(0xFF0F) & 0x04 == 0 {
        step(&mut h).unwrap();
        steps += 1;
        assert!(steps < 10);
    }
    assert_eq!(h.state.bus.raw_read(0xFF05), 0xAB);
    assert_eq!(h.state.bus.raw_read(0xFF0F), 0xE4);
}

#[test]
fn program_sends_a_byte_over_serial() {
    let mut h = machine(&[0x3E, 0x80, 0xE0, 0x02, 0x3E, 0x81, 0xE0, 0x02, 0x18, 0xFE]);
    for _ in 0..4 {
        step(&mut h).unwrap();
    }
    let started = h.state.bus.accumulated_cycles;
    assert_eq!(h.state.bus.raw_read(0xFF0F) & 0x08, 0);
    while h.state.bus.accumulated_cycles < started + 1020 {
        step(&mut h).unwrap();
    }
    assert_eq!(h.state.bus.raw_read(0xFF0F) & 0x08, 0);
    while h.state.bus.accumulated_cycles < started + 1026 {
        step(&mut h).unwrap();
    }
    assert_eq!(h.state.bus.raw_read(0xFF0F) & 0x08, 0x08);
    assert_eq!(h.state.bus.raw_read(0xFF01), 0xFF);
}

#[test]
fn pc_wraps_at_the_top_of_memory() {
    let mut h = machine(&[0x00]);
    h.state.cpu.pc = 0xFFFF;
    h.state.bus.raw_write(0xFFFF, 0x00);
    step(&mut h).unwrap();
    assert_eq!(h.state.cpu.pc, 0x0000);
}
