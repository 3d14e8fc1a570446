use chip_8::models::errors::ChipErrors;
use chip_8::models::opcode::Opcode;

#[test]
fn parse_clear_screen() {
    assert!(matches!(Opcode::parse(0x00E0), Ok(Opcode::ClearScreen)));
}

#[test]
fn parse_return() {
    assert!(matches!(Opcode::parse(0x00EE), Ok(Opcode::ReturnFromSubroutine)));
}

#[test]
fn parse_jump_family() {
    assert!(matches!(Opcode::parse(0x1234), Ok(Opcode::Jump(0x234))));
    assert!(matches!(Opcode::parse(0x2ABC), Ok(Opcode::CallSubroutine(0xABC))));
    assert!(matches!(Opcode::parse(0xB111), Ok(Opcode::JumpPlus(0x111))));
    assert!(matches!(Opcode::parse(0x1000), Ok(Opcode::Jump(0x000))));
    assert!(matches!(Opcode::parse(0x2FFF), Ok(Opcode::CallSubroutine(0xFFF))));
}

#[test]
fn parse_register_arithmetic() {
    assert!(matches!(Opcode::parse(0x8120), Ok(Opcode::SetV(1, 2))));
    assert!(matches!(Opcode::parse(0x8121), Ok(Opcode::Or(1, 2))));
    assert!(matches!(Opcode::parse(0x8122), Ok(Opcode::And(1, 2))));
    assert!(matches!(Opcode::parse(0x8123), Ok(Opcode::Xor(1, 2))));
    assert!(matches!(Opcode::parse(0x8124), Ok(Opcode::Add(1, 2))));
    assert!(matches!(Opcode::parse(0x8125), Ok(Opcode::Subtract(1, 2))));
    assert!(matches!(Opcode::parse(0x8126), Ok(Opcode::ShiftRight(1))));
    assert!(matches!(Opcode::parse(0x8127), Ok(Opcode::SubtractOpposite(1, 2))));
    assert!(matches!(Opcode::parse(0x812E), Ok(Opcode::ShiftLeft(1))));
}

#[test]
fn parse_immediate_forms() {
    assert!(matches!(Opcode::parse(0x6A42), Ok(Opcode::SetVConstant(0xA, 0x42))));
    assert!(matches!(Opcode::parse(0x7A42), Ok(Opcode::AddConstant(0xA, 0x42))));
    assert!(matches!(Opcode::parse(0x3A42), Ok(Opcode::SkipEqual(0xA, 0x42))));
    assert!(matches!(Opcode::parse(0x4A42), Ok(Opcode::SkipNonEqual(0xA, 0x42))));
    assert!(matches!(Opcode::parse(0x5AB0), Ok(Opcode::SkipRegistersEqual(0xA, 0xB))));
    assert!(matches!(Opcode::parse(0x9AB0), Ok(Opcode::SkipRegistersNonEqual(0xA, 0xB))));
    assert!(matches!(Opcode::parse(0xCA42), Ok(Opcode::RandAnd(0xA, 0x42))));
}

#[test]
fn parse_memory_and_timer_forms() {
    assert!(matches!(Opcode::parse(0xA123), Ok(Opcode::SetI(0x123))));
    assert!(matches!(Opcode::parse(0xD12F), Ok(Opcode::Draw(1, 2, 0xF))));
    assert!(matches!(Opcode::parse(0xF133), Ok(Opcode::BinaryCodedDecimal(1))));
    assert!(matches!(Opcode::parse(0xF155), Ok(Opcode::Dump(1))));
    assert!(matches!(Opcode::parse(0xF165), Ok(Opcode::Load(1))));
    assert!(matches!(Opcode::parse(0xF129), Ok(Opcode::SpriteAddress(1))));
    assert!(matches!(Opcode::parse(0xF11E), Ok(Opcode::AddMemory(1))));
    assert!(matches!(Opcode::parse(0xF107), Ok(Opcode::GetDelayTimer(1))));
    assert!(matches!(Opcode::parse(0xF115), Ok(Opcode::SetDelayTimer(1))));
    assert!(matches!(Opcode::parse(0xF10A), Ok(Opcode::GetKey(1))));
    assert!(matches!(Opcode::parse(0xE19E), Ok(Opcode::SkipKeyEqual(1))));
    assert!(matches!(Opcode::parse(0xE1A1), Ok(Opcode::SkipKeyNonEqual(1))));
}

#[test]
fn parse_unrecognized_word() {
    assert!(matches!(
        Opcode::parse(0xFFFF),
        Err(ChipErrors::UnknownOpcode(0xFFFF))
    ));
    assert!(matches!(
        Opcode::parse(0x0123),
        Err(ChipErrors::UnknownOpcode(0x0123))
    ));
    assert!(matches!(
        Opcode::parse(0xE000),
        Err(ChipErrors::UnknownOpcode(0xE000))
    ));
    // The register-register skips pin the bottom nibble: a nonzero one
    // matches nothing.
    assert!(matches!(
        Opcode::parse(0x5AB1),
        Err(ChipErrors::UnknownOpcode(0x5AB1))
    ));
}
