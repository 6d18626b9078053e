use cpu16::fault::Fault;
use cpu16::registers::{
    Half, Register16, RegisterFile, AX, BP, BX, CS, CX, DI, DS, DX, ES, FS, GS, REGISTER_COUNT, SI,
    SP, SS,
};

#[test]
fn register_indices_are_fixed() {
    assert_eq!(
        [AX, CX, DX, BX, SP, BP, SI, DI, ES, CS, SS, DS, FS, GS],
        [0, 1, 2, 3, 4, 5, 6, 7, 8, 9, 10, 11, 12, 13]
    );
    assert_eq!(REGISTER_COUNT, 14);
}

#[test]
fn new_register_file_is_zero() {
    let regs = RegisterFile::new();
    for r in 0..REGISTER_COUNT {
        assert_eq!(regs.read16(r), 0);
    }
}

#[test]
fn write16_then_read16_returns_the_value() {
    for r in 0..REGISTER_COUNT {
        for v in [0x0000u16, 0x0001, 0x00FF, 0x0100, 0x1234, 0x8000, 0xFFFF] {
            let mut regs = RegisterFile::new();
            regs.write16(r, v);
            assert_eq!(regs.read16(r), v);
            for q in 0..REGISTER_COUNT {
                if q != r {
                    assert_eq!(regs.read16(q), 0);
                }
            }
        }
    }
}

#[test]
fn write16_replaces_both_halves() {
    let mut regs = RegisterFile::new();
    assert_eq!(regs.write8(CX, Half::Low, 0xEE), Ok(()));
    assert_eq!(regs.write8(CX, Half::High, 0xDD), Ok(()));
    regs.write16(CX, 0x0102);
    assert_eq!(regs.read8(CX, Half::Low), Ok(0x02));
    assert_eq!(regs.read8(CX, Half::High), Ok(0x01));
}

#[test]
fn halves_compose_the_word() {
    for r in [AX, CX, DX, BX] {
        let mut regs = RegisterFile::new();
        assert_eq!(regs.write8(r, Half::Low, 0x34), Ok(()));
        assert_eq!(regs.write8(r, Half::High, 0x12), Ok(()));
        assert_eq!(regs.read16(r), 0x1234);

        let mut regs = RegisterFile::new();
        assert_eq!(regs.write8(r, Half::High, 0xAB), Ok(()));
        assert_eq!(regs.write8(r, Half::Low, 0xCD), Ok(()));
        assert_eq!(regs.read16(r), 0xABCD);
    }
}

#[test]
fn halves_compose_the_word_for_every_byte_pair() {
    let mut regs = RegisterFile::new();
    for hi in 0..=255u8 {
        for lo in [0u8, 1, 0x7F, 0x80, 0xFF, hi] {
            assert_eq!(regs.write8(DX, Half::Low, lo), Ok(()));
            assert_eq!(regs.write8(DX, Half::High, hi), Ok(()));
            assert_eq!(regs.read16(DX), ((hi as u16) << 8) | lo as u16);
        }
    }
}

#[test]
fn write8_keeps_the_other_half() {
    let mut regs = RegisterFile::new();
    regs.write16(BX, 0x1234);
    regs.write16(AX, 0x5678);
    assert_eq!(regs.write8(BX, Half::Low, 0xFF), Ok(()));
    assert_eq!(regs.read16(BX), 0x12FF);
    assert_eq!(regs.write8(BX, Half::High, 0x00), Ok(()));
    assert_eq!(regs.read16(BX), 0x00FF);
    assert_eq!(regs.read16(AX), 0x5678);
}

#[test]
fn read8_gives_the_addressed_half() {
    let mut regs = RegisterFile::new();
    regs.write16(AX, 0xBEEF);
    assert_eq!(regs.read8(AX, Half::Low), Ok(0xEF));
    assert_eq!(regs.read8(AX, Half::High), Ok(0xBE));
}

#[test]
fn byte_access_to_other_registers_is_a_contract_violation() {
    let mut regs = RegisterFile::new();
    for r in [SP, BP, SI, DI, ES, CS, SS, DS, FS, GS, 14, 100, usize::MAX] {
        assert_eq!(regs.read8(r, Half::Low), Err(Fault::ContractViolation));
        assert_eq!(regs.read8(r, Half::High), Err(Fault::ContractViolation));
        assert_eq!(regs.write8(r, Half::Low, 0xFF), Err(Fault::ContractViolation));
        assert_eq!(regs.write8(r, Half::High, 0xFF), Err(Fault::ContractViolation));
    }
    for r in 0..REGISTER_COUNT {
        assert_eq!(regs.read16(r), 0);
    }
}

#[test]
fn register16_splits_and_joins() {
    let mut r = Register16 { hi: 0, lo: 0 };
    r.set_u16(0xABCD);
    assert_eq!(r.hi, 0xAB);
    assert_eq!(r.lo, 0xCD);
    assert_eq!(r.u16(), 0xABCD);
    assert_eq!(Register16 { hi: 0x01, lo: 0x00 }.u16(), 0x0100);
    assert_eq!(Register16 { hi: 0x00, lo: 0xFF }.u16(), 0x00FF);
    assert_eq!(Register16 { hi: 0xFF, lo: 0xFF }.u16(), 0xFFFF);
}
