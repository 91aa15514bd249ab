use sm83_core::registers::Registers;

#[test]
fn test_bc() {
    let mut registers = Registers::default();
    registers.b = 0xde;
    registers.c = 0xad;
    assert_eq!(registers.bc(), 0xdead);
}

#[test]
fn test_de() {
    let mut registers = Registers::default();
    registers.d = 0xde;
    registers.e = 0xad;
    assert_eq!(registers.de(), 0xdead);
}

#[test]
fn test_hl() {
    let mut registers = Registers::default();
    registers.h = 0xde;
    registers.l = 0xad;
    assert_eq!(registers.hl(), 0xdead);
}

#[test]
fn test_set_bc() {
    let mut registers = Registers::default();
    registers.set_bc(0xdead);
    assert_eq!(registers.b, 0xde);
    assert_eq!(registers.c, 0xad);
}

#[test]
fn test_set_de() {
    let mut registers = Registers::default();
    registers.set_de(0xdead);
    assert_eq!(registers.d, 0xde);
    assert_eq!(registers.e, 0xad);
}

#[test]
fn test_set_hl() {
    let mut registers = Registers::default();
    registers.set_hl(0xdead);
    assert_eq!(registers.h, 0xde);
    assert_eq!(registers.l, 0xad);
}
