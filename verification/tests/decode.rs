use cpu16::cpu::CPU;
use cpu16::fault::{Fault, FaultKind};
use cpu16::operand::{amode, sreg, ModRegRm, Parameter, Parameters, RegisterSpace};
use cpu16::registers::{BP, BX, DI, SI};

fn cpu_with(program: &[u8], at: u16) -> CPU {
    let mut cpu = CPU::new();
    cpu.load_rom(&program.to_vec(), at);
    cpu
}

#[test]
fn modrm_byte_splits_into_three_fields() {
    assert_eq!(ModRegRm::from_byte(0x00), ModRegRm { md: 0, reg: 0, rm: 0 });
    assert_eq!(ModRegRm::from_byte(0xD8), ModRegRm { md: 3, reg: 3, rm: 0 });
    assert_eq!(ModRegRm::from_byte(0x46), ModRegRm { md: 1, reg: 0, rm: 6 });
    assert_eq!(ModRegRm::from_byte(0x9F), ModRegRm { md: 2, reg: 3, rm: 7 });
    assert_eq!(ModRegRm::from_byte(0xFF), ModRegRm { md: 3, reg: 7, rm: 7 });
    for b in 0..=255u8 {
        let x = ModRegRm::from_byte(b);
        assert_eq!((x.md << 6) | (x.reg << 3) | x.rm, b);
        assert!(x.md < 4 && x.reg < 8 && x.rm < 8);
    }
}

#[test]
fn decode_modrm_reads_one_byte() {
    let mut cpu = cpu_with(&[0x9F, 0xD8], 0x0100);
    assert_eq!(cpu.decode_modrm(), Ok(ModRegRm { md: 2, reg: 3, rm: 7 }));
    assert_eq!(cpu.pc, 0x0101);
    assert_eq!(cpu.decode_modrm(), Ok(ModRegRm { md: 3, reg: 3, rm: 0 }));
    assert_eq!(cpu.pc, 0x0102);
    cpu.pc = 0xFFFF;
    assert_eq!(cpu.decode_modrm(), Err(Fault::EndOfMemory { addr: 0xFFFF }));
}

#[test]
fn register_selector_follows_the_register_space() {
    for reg in 0..8u8 {
        let x = ModRegRm { md: 3, reg, rm: 0 };
        assert_eq!(x.register(RegisterSpace::General), Ok(reg as usize));
        if reg < 6 {
            assert_eq!(x.register(RegisterSpace::Segment), Ok(8 + reg as usize));
        } else {
            assert_eq!(
                x.register(RegisterSpace::Segment),
                Err(Fault::UnresolvedOperand { md: 3, reg, rm: 0 })
            );
        }
    }
    let x = ModRegRm { md: 0, reg: 8, rm: 1 };
    assert_eq!(
        x.register(RegisterSpace::General),
        Err(Fault::UnresolvedOperand { md: 0, reg: 8, rm: 1 })
    );
    assert_eq!(Fault::UnresolvedOperand { md: 0, reg: 8, rm: 1 }.kind(), FaultKind::Decode);
}

#[test]
fn class_3_is_a_register_and_reads_nothing() {
    for rm in 0..8u8 {
        for reg in 0..8u8 {
            let mut cpu = cpu_with(&[0xAA, 0xBB, 0xCC], 0x0100);
            let r = cpu.resolve_register_memory_operand(ModRegRm { md: 3, reg, rm });
            assert_eq!(r, Ok(Parameter::Reg(rm as usize)));
            assert_eq!(cpu.pc, 0x0100);
        }
    }
}

#[test]
fn class_0_selector_6_reads_an_absolute_address() {
    let mut cpu = cpu_with(&[0x00, 0x02], 0x0100);
    cpu.memory.write_u8(0x0200, 0xEF);
    cpu.memory.write_u8(0x0201, 0xBE);
    cpu.regs.write16(BP, 0x7777);
    let r = cpu.resolve_register_memory_operand(ModRegRm { md: 0, reg: 0, rm: 6 });
    assert_eq!(r, Ok(Parameter::Imm16(0xBEEF)));
    assert_eq!(cpu.pc, 0x0102);
}

#[test]
fn class_0_takes_base_and_index_without_a_displacement() {
    let mut cpu = cpu_with(&[0xFF, 0xFF], 0x0100);
    cpu.regs.write16(BX, 0x0300);
    cpu.regs.write16(SI, 0x0004);
    cpu.memory.write_u8(0x0304, 0x21);
    cpu.memory.write_u8(0x0305, 0x43);
    let r = cpu.resolve_register_memory_operand(ModRegRm { md: 0, reg: 0, rm: 0 });
    assert_eq!(r, Ok(Parameter::Imm16(0x4321)));
    assert_eq!(cpu.pc, 0x0100);
}

#[test]
fn effective_address_of_each_selector() {
    let mut cpu = CPU::new();
    cpu.regs.write16(BX, 0x1000);
    cpu.regs.write16(BP, 0x2000);
    cpu.regs.write16(SI, 0x0030);
    cpu.regs.write16(DI, 0x0004);
    assert_eq!(cpu.effective_address(0, 0), 0x1030);
    assert_eq!(cpu.effective_address(1, 0), 0x1004);
    assert_eq!(cpu.effective_address(2, 0), 0x2030);
    assert_eq!(cpu.effective_address(3, 0), 0x2004);
    assert_eq!(cpu.effective_address(4, 0), 0x0030);
    assert_eq!(cpu.effective_address(5, 0), 0x0004);
    assert_eq!(cpu.effective_address(6, 0), 0x2000);
    assert_eq!(cpu.effective_address(7, 0), 0x1000);
    assert_eq!(cpu.effective_address(0, 5), 0x1035);
    assert_eq!(cpu.effective_address(0, -1), 0x102F);
}

#[test]
fn effective_address_wraps_to_16_bits() {
    let mut cpu = CPU::new();
    cpu.regs.write16(BX, 0xFFFF);
    cpu.regs.write16(SI, 0x0003);
    cpu.regs.write16(DI, 0xFFFF);
    assert_eq!(cpu.effective_address(0, 0), 0x0002);
    assert_eq!(cpu.effective_address(1, 0), 0xFFFE);
    assert_eq!(cpu.effective_address(1, 32767), 0x7FFD);
    assert_eq!(cpu.effective_address(4, -4), 0xFFFF);
    assert_eq!(cpu.effective_address(4, -32768), 0x8003);
    assert_eq!(cpu.effective_address(7, 1), 0x0000);
}

#[test]
fn class_1_adds_a_sign_extended_byte() {
    let mut cpu = cpu_with(&[0xFE], 0x0100);
    cpu.regs.write16(BX, 0x0202);
    cpu.memory.write_u8(0x0200, 0x0D);
    cpu.memory.write_u8(0x0201, 0xF0);
    let r = cpu.resolve_register_memory_operand(ModRegRm { md: 1, reg: 0, rm: 7 });
    assert_eq!(r, Ok(Parameter::Imm16(0xF00D)));
    assert_eq!(cpu.pc, 0x0101);

    let mut cpu = cpu_with(&[0x7F], 0x0100);
    cpu.regs.write16(BP, 0x0001);
    cpu.memory.write_u8(0x0080, 0x01);
    let r = cpu.resolve_register_memory_operand(ModRegRm { md: 1, reg: 0, rm: 6 });
    assert_eq!(r, Ok(Parameter::Imm16(0x0001)));
}

#[test]
fn class_2_adds_a_sign_extended_word() {
    let mut cpu = cpu_with(&[0x00, 0x80], 0x0100);
    cpu.regs.write16(BP, 0x1000);
    cpu.memory.write_u8(0x9000, 0xAD);
    cpu.memory.write_u8(0x9001, 0xDE);
    let r = cpu.resolve_register_memory_operand(ModRegRm { md: 2, reg: 0, rm: 6 });
    assert_eq!(r, Ok(Parameter::Imm16(0xDEAD)));
    assert_eq!(cpu.pc, 0x0102);

    let mut cpu = cpu_with(&[0xFF, 0xFF], 0x0100);
    cpu.regs.write16(DI, 0x0301);
    cpu.memory.write_u8(0x0300, 0x42);
    let r = cpu.resolve_register_memory_operand(ModRegRm { md: 2, reg: 0, rm: 5 });
    assert_eq!(r, Ok(Parameter::Imm16(0x0042)));
}

#[test]
fn fields_outside_their_width_are_a_decode_fault() {
    let mut cpu = cpu_with(&[0x11, 0x22], 0x0100);
    for x in [
        ModRegRm { md: 4, reg: 0, rm: 0 },
        ModRegRm { md: 255, reg: 0, rm: 0 },
        ModRegRm { md: 0, reg: 0, rm: 8 },
        ModRegRm { md: 3, reg: 0, rm: 8 },
    ] {
        let fault = Fault::UnresolvedOperand { md: x.md, reg: x.reg, rm: x.rm };
        assert_eq!(cpu.resolve_register_memory_operand(x), Err(fault));
        assert_eq!(fault.kind(), FaultKind::Decode);
        assert_eq!(cpu.pc, 0x0100);
    }
}

#[test]
fn displacement_past_the_end_of_memory_is_a_fatal_fault() {
    let mut cpu = CPU::new();
    cpu.pc = 0xFFFF;
    assert_eq!(
        cpu.resolve_register_memory_operand(ModRegRm { md: 1, reg: 0, rm: 0 }),
        Err(Fault::EndOfMemory { addr: 0xFFFF })
    );
    cpu.pc = 0xFFFE;
    assert_eq!(
        cpu.resolve_register_memory_operand(ModRegRm { md: 2, reg: 0, rm: 0 }),
        Err(Fault::EndOfMemory { addr: 0xFFFE })
    );
    assert_eq!(
        cpu.resolve_register_memory_operand(ModRegRm { md: 0, reg: 0, rm: 6 }),
        Err(Fault::EndOfMemory { addr: 0xFFFE })
    );
    assert_eq!(cpu.pc, 0xFFFE);
}

#[test]
fn the_two_entry_points_exchange_the_operand_roles() {
    let mut cpu = cpu_with(&[0xD8], 0x0100);
    assert_eq!(
        cpu.rm16_reg(RegisterSpace::Segment),
        Ok(Parameters { dst: Parameter::Reg(0), src: Parameter::Reg(11) })
    );
    assert_eq!(cpu.pc, 0x0101);

    let mut cpu = cpu_with(&[0xD8], 0x0100);
    assert_eq!(
        cpu.reg_rm16(RegisterSpace::Segment),
        Ok(Parameters { dst: Parameter::Reg(11), src: Parameter::Reg(0) })
    );
    assert_eq!(cpu.pc, 0x0101);

    let mut cpu = cpu_with(&[0xD8], 0x0100);
    assert_eq!(
        cpu.rm16_reg(RegisterSpace::General),
        Ok(Parameters { dst: Parameter::Reg(0), src: Parameter::Reg(3) })
    );
    let mut cpu = cpu_with(&[0xD8], 0x0100);
    assert_eq!(
        cpu.reg_rm16(RegisterSpace::General),
        Ok(Parameters { dst: Parameter::Reg(3), src: Parameter::Reg(0) })
    );
}

#[test]
fn entry_points_resolve_memory_operands() {
    // 0x1E: class 0, selector 3, absolute address follows
    let mut cpu = cpu_with(&[0x1E, 0x00, 0x02], 0x0100);
    cpu.memory.write_u8(0x0200, 0x34);
    cpu.memory.write_u8(0x0201, 0x12);
    assert_eq!(
        cpu.reg_rm16(RegisterSpace::Segment),
        Ok(Parameters { dst: Parameter::Reg(11), src: Parameter::Imm16(0x1234) })
    );
    assert_eq!(cpu.pc, 0x0103);
}

#[test]
fn a_segment_selector_without_a_register_is_a_decode_fault() {
    // 0x76: class 1, selector 6, which names no segment register
    let mut cpu = cpu_with(&[0x76, 0x10], 0x0100);
    assert_eq!(
        cpu.rm16_reg(RegisterSpace::Segment),
        Err(Fault::UnresolvedOperand { md: 1, reg: 6, rm: 6 })
    );
    assert_eq!(cpu.pc, 0x0101);
    let mut cpu = cpu_with(&[0xF8], 0x0100);
    assert_eq!(
        cpu.reg_rm16(RegisterSpace::Segment),
        Err(Fault::UnresolvedOperand { md: 3, reg: 7, rm: 0 })
    );
    let mut cpu = cpu_with(&[0xF8], 0x0100);
    assert_eq!(
        cpu.reg_rm16(RegisterSpace::General),
        Ok(Parameters { dst: Parameter::Reg(7), src: Parameter::Reg(0) })
    );
}

#[test]
fn swapped_exchanges_source_and_destination() {
    let p = Parameters { src: Parameter::Imm8(1), dst: Parameter::Reg(2) };
    assert_eq!(p.swapped(), Parameters { src: Parameter::Reg(2), dst: Parameter::Imm8(1) });
    assert_eq!(p.swapped().swapped(), p);
}

#[test]
fn segment_register_names() {
    assert_eq!(sreg(0), "es");
    assert_eq!(sreg(1), "cs");
    assert_eq!(sreg(2), "ss");
    assert_eq!(sreg(3), "ds");
    assert_eq!(sreg(4), "fs");
    assert_eq!(sreg(5), "gs");
    assert_eq!(sreg(6), "?");
    assert_eq!(sreg(255), "?");
}

#[test]
fn addressing_mode_names() {
    assert_eq!(amode(0), "bx+si");
    assert_eq!(amode(1), "bx+di");
    assert_eq!(amode(2), "bp+si");
    assert_eq!(amode(3), "bp+di");
    assert_eq!(amode(4), "si");
    assert_eq!(amode(5), "di");
    assert_eq!(amode(6), "bp");
    assert_eq!(amode(7), "bx");
    assert_eq!(amode(8), "?");
}
