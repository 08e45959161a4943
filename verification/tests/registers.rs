use dancy::cpu::registers::{FlagsRegister, Registers};

#[test]
fn power_on_register_pairs() {
    let r = Registers::new();
    assert_eq!(r.get_af(), 0x01B0);
    assert_eq!(r.get_bc(), 0x0013);
    assert_eq!(r.get_de(), 0x00D8);
    assert_eq!(r.get_hl(), 0x014D);
}

#[test]
fn set_af_drops_low_nibble_of_f() {
    let mut r = Registers::new();
    r.set_af(0x12FF);
    assert_eq!(r.get_af(), 0x12F0);
    assert_eq!(r.a, 0x12);
    assert!(r.f.zero && r.f.subtract && r.f.half_carry && r.f.carry);
    r.set_af(0xAB0F);
    assert_eq!(r.get_af(), 0xAB00);
}

#[test]
fn flags_pack_into_upper_nibble() {
    let f = FlagsRegister { zero: true, subtract: false, half_carry: true, carry: false };
    assert_eq!(f.to_byte(), 0xA0);
    assert_eq!(u8::from(f), 0xA0);
    assert_eq!(FlagsRegister::from(0x5Fu8), FlagsRegister { zero: false, subtract: true, half_carry: false, carry: true });
}
