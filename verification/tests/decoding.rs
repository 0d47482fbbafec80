use gb_core::instr::{
    alu_op, decode, decode_cb, shift_op, slot, AluOp, CbInstr, Cond, Instr, Pair, Pointer,
    ShiftOp, Slot, StackPair,
};

#[test]
fn operand_fields() {
    let slots = [
        Slot::B,
        Slot::C,
        Slot::D,
        Slot::E,
        Slot::H,
        Slot::L,
        Slot::AtHl,
        Slot::A,
    ];
    for (i, s) in slots.iter().enumerate() {
        assert_eq!(slot(i as u8), *s);
    }
    assert_eq!(alu_op(0), AluOp::Add);
    assert_eq!(alu_op(3), AluOp::Sbc);
    assert_eq!(alu_op(7), AluOp::Cp);
    assert_eq!(shift_op(0), ShiftOp::Rlc);
    assert_eq!(shift_op(6), ShiftOp::Swap);
    assert_eq!(shift_op(7), ShiftOp::Srl);
}

#[test]
fn loads_between_registers() {
    assert_eq!(decode(0x40), Instr::Ld(Slot::B, Slot::B));
    assert_eq!(decode(0x41), Instr::Ld(Slot::B, Slot::C));
    assert_eq!(decode(0x4E), Instr::Ld(Slot::C, Slot::AtHl));
    assert_eq!(decode(0x70), Instr::Ld(Slot::AtHl, Slot::B));
    assert_eq!(decode(0x77), Instr::Ld(Slot::AtHl, Slot::A));
    assert_eq!(decode(0x76), Instr::Halt);
    assert_eq!(decode(0x7F), Instr::Ld(Slot::A, Slot::A));
    assert_eq!(decode(0x6C), Instr::Ld(Slot::L, Slot::H));
}

#[test]
fn accumulator_operations() {
    assert_eq!(decode(0x80), Instr::Alu(AluOp::Add, Slot::B));
    assert_eq!(decode(0x8E), Instr::Alu(AluOp::Adc, Slot::AtHl));
    assert_eq!(decode(0x97), Instr::Alu(AluOp::Sub, Slot::A));
    assert_eq!(decode(0x9B), Instr::Alu(AluOp::Sbc, Slot::E));
    assert_eq!(decode(0xA4), Instr::Alu(AluOp::And, Slot::H));
    assert_eq!(decode(0xAF), Instr::Alu(AluOp::Xor, Slot::A));
    assert_eq!(decode(0xB5), Instr::Alu(AluOp::Or, Slot::L));
    assert_eq!(decode(0xBE), Instr::Alu(AluOp::Cp, Slot::AtHl));
    assert_eq!(decode(0xC6), Instr::AluImm(AluOp::Add));
    assert_eq!(decode(0xDE), Instr::AluImm(AluOp::Sbc));
    assert_eq!(decode(0xFE), Instr::AluImm(AluOp::Cp));
}

#[test]
fn the_rest_of_the_main_page() {
    assert_eq!(decode(0x00), Instr::Nop);
    assert_eq!(decode(0x08), Instr::StoreSp);
    assert_eq!(decode(0x31), Instr::LdPairImm(Pair::SP));
    assert_eq!(decode(0x39), Instr::AddHl(Pair::SP));
    assert_eq!(decode(0x12), Instr::StoreAt(Pointer::DE));
    assert_eq!(decode(0x2A), Instr::LoadAt(Pointer::HlInc));
    assert_eq!(decode(0x32), Instr::StoreAt(Pointer::HlDec));
    assert_eq!(decode(0x13), Instr::IncPair(Pair::DE));
    assert_eq!(decode(0x2B), Instr::DecPair(Pair::HL));
    assert_eq!(decode(0x34), Instr::Inc(Slot::AtHl));
    assert_eq!(decode(0x3D), Instr::Dec(Slot::A));
    assert_eq!(decode(0x36), Instr::LdImm(Slot::AtHl));
    assert_eq!(decode(0x07), Instr::Rlca);
    assert_eq!(decode(0x0F), Instr::Rrca);
    assert_eq!(decode(0x17), Instr::Rla);
    assert_eq!(decode(0x1F), Instr::Rra);
    assert_eq!(decode(0x27), Instr::Daa);
    assert_eq!(decode(0x2F), Instr::Cpl);
    assert_eq!(decode(0x37), Instr::Scf);
    assert_eq!(decode(0x3F), Instr::Ccf);
    assert_eq!(decode(0x18), Instr::Jr);
    assert_eq!(decode(0x20), Instr::JrIf(Cond::NZ));
    assert_eq!(decode(0x38), Instr::JrIf(Cond::C));
    assert_eq!(decode(0xC0), Instr::RetIf(Cond::NZ));
    assert_eq!(decode(0xD8), Instr::RetIf(Cond::C));
    assert_eq!(decode(0xC9), Instr::Ret);
    assert_eq!(decode(0xD9), Instr::Reti);
    assert_eq!(decode(0xCA), Instr::JpIf(Cond::Z));
    assert_eq!(decode(0xC3), Instr::Jp);
    assert_eq!(decode(0xE9), Instr::JpHl);
    assert_eq!(decode(0xD4), Instr::CallIf(Cond::NC));
    assert_eq!(decode(0xCD), Instr::Call);
    assert_eq!(decode(0xCB), Instr::Prefix);
    assert_eq!(decode(0xF1), Instr::Pop(StackPair::AF));
    assert_eq!(decode(0xE5), Instr::Push(StackPair::HL));
    assert_eq!(decode(0xE0), Instr::StoreHigh);
    assert_eq!(decode(0xF0), Instr::LoadHigh);
    assert_eq!(decode(0xE2), Instr::StoreHighC);
    assert_eq!(decode(0xF2), Instr::LoadHighC);
    assert_eq!(decode(0xEA), Instr::StoreAbs);
    assert_eq!(decode(0xFA), Instr::LoadAbs);
    assert_eq!(decode(0xE8), Instr::AddSpOffset);
    assert_eq!(decode(0xF8), Instr::LdHlSpOffset);
    assert_eq!(decode(0xF9), Instr::LdSpHl);
    assert_eq!(decode(0xF3), Instr::Di);
    assert_eq!(decode(0xFB), Instr::Ei);
    assert_eq!(decode(0xC7), Instr::Rst(0x00));
    assert_eq!(decode(0xEF), Instr::Rst(0x28));
    assert_eq!(decode(0xFF), Instr::Rst(0x38));
    assert_eq!(decode(0x10), Instr::Unknown(0x10));
    assert_eq!(decode(0xED), Instr::Unknown(0xED));
}

#[test]
fn prefixed_page() {
    assert_eq!(decode_cb(0x00), CbInstr::Shift(ShiftOp::Rlc, Slot::B));
    assert_eq!(decode_cb(0x0E), CbInstr::Shift(ShiftOp::Rrc, Slot::AtHl));
    assert_eq!(decode_cb(0x17), CbInstr::Shift(ShiftOp::Rl, Slot::A));
    assert_eq!(decode_cb(0x19), CbInstr::Shift(ShiftOp::Rr, Slot::C));
    assert_eq!(decode_cb(0x22), CbInstr::Shift(ShiftOp::Sla, Slot::D));
    assert_eq!(decode_cb(0x2B), CbInstr::Shift(ShiftOp::Sra, Slot::E));
    assert_eq!(decode_cb(0x34), CbInstr::Shift(ShiftOp::Swap, Slot::H));
    assert_eq!(decode_cb(0x3D), CbInstr::Shift(ShiftOp::Srl, Slot::L));
    assert_eq!(decode_cb(0x40), CbInstr::TestBit(0, Slot::B));
    assert_eq!(decode_cb(0x7C), CbInstr::TestBit(7, Slot::H));
    assert_eq!(decode_cb(0x7E), CbInstr::TestBit(7, Slot::AtHl));
    assert_eq!(decode_cb(0x80), CbInstr::ResetBit(0, Slot::B));
    assert_eq!(decode_cb(0xBF), CbInstr::ResetBit(7, Slot::A));
    assert_eq!(decode_cb(0xC0), CbInstr::SetBit(0, Slot::B));
    assert_eq!(decode_cb(0xDE), CbInstr::SetBit(3, Slot::AtHl));
    assert_eq!(decode_cb(0xFF), CbInstr::SetBit(7, Slot::A));
}
