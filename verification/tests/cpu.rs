use lameboy::cpu::Cpu;

fn cpu_with_a(a: u8) -> Cpu {
    let mut c = Cpu::new();
    c.set_a(a);
    c
}

#[test]
fn new_cpu_starts_at_zero() {
    let c = Cpu::new();
    assert_eq!((c.af, c.bc, c.de, c.hl, c.sp, c.pc, c.mcycle), (0, 0, 0, 0, 0, 0, 1));
}

#[test]
fn registers_and_flags() {
    let mut c = Cpu::new();
    c.set_b(0x12);
    c.set_c(0x34);
    c.set_d(0x56);
    c.set_e(0x78);
    c.set_h(0x9A);
    c.set_l(0xBC);
    c.set_a(0xDE);
    assert_eq!((c.bc, c.de, c.hl), (0x1234, 0x5678, 0x9ABC));
    assert_eq!((c.get_b(), c.get_c(), c.get_d(), c.get_e()), (0x12, 0x34, 0x56, 0x78));
    assert_eq!((c.get_h(), c.get_l(), c.get_a()), (0x9A, 0xBC, 0xDE));
    c.set_fz(true);
    c.set_fc(true);
    assert_eq!(c.get_f(), 0b1001_0000);
    assert!(c.is_fz() && !c.is_fn() && !c.is_fh() && c.is_fc());
    assert_eq!((c.get_fz(), c.get_fn(), c.get_fh(), c.get_fc()), (1, 0, 0, 1));
    c.set_flags(false, true, true, false);
    assert_eq!(c.get_f(), 0b0110_0000);
    assert_eq!(c.get_a(), 0xDE);
}

#[test]
fn add_sets_half_carry_and_carry() {
    let mut c = cpu_with_a(0x0F);
    c.add(0x01);
    assert_eq!(c.get_a(), 0x10);
    assert_eq!(c.get_f(), 0b0010_0000);
    let mut c = cpu_with_a(0xFF);
    c.add(0x01);
    assert_eq!(c.get_a(), 0x00);
    assert_eq!(c.get_f(), 0b1011_0000);
}

#[test]
fn sub_and_cp() {
    let mut c = cpu_with_a(0x10);
    assert_eq!(c.cp(0x01), 0x0F);
    assert_eq!(c.get_a(), 0x10);
    assert_eq!(c.get_f(), 0b0110_0000);
    c.sub(0x10);
    assert_eq!(c.get_a(), 0x00);
    assert_eq!(c.get_f(), 0b1100_0000);
    let mut c = cpu_with_a(0x01);
    c.sub(0x02);
    assert_eq!(c.get_a(), 0xFF);
    assert_eq!(c.get_f(), 0b0111_0000);
}

#[test]
fn logic_operations() {
    let mut c = cpu_with_a(0b1100);
    c.and(0b1010);
    assert_eq!(c.get_a(), 0b1000);
    assert_eq!(c.get_f(), 0b0010_0000);
    let mut c = cpu_with_a(0b1100);
    c.or(0b1010);
    assert_eq!(c.get_a(), 0b1110);
    assert_eq!(c.get_f(), 0);
    let mut c = cpu_with_a(0b1100);
    c.xor(0b1010);
    assert_eq!(c.get_a(), 0b0110);
    let mut c = cpu_with_a(0x5A);
    c.xor(0x5A);
    assert_eq!(c.get_a(), 0);
    assert_eq!(c.get_f(), 0b1000_0000);
}

#[test]
fn carry_through_operations() {
    let mut c = cpu_with_a(0xFE);
    c.set_fc(true);
    c.add_with_carry(0x01);
    assert_eq!(c.get_a(), 0x00);
    assert!(c.is_fz() && c.is_fc() && c.is_fh());
    let mut c = cpu_with_a(0x00);
    c.set_fc(true);
    c.sub_with_carry(0x00);
    assert_eq!(c.get_a(), 0xFF);
    assert!(c.is_fn() && c.is_fc() && c.is_fh());
}
