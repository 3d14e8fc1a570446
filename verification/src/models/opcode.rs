use vstd::prelude::*;

use crate::models::errors::ChipErrors;

verus! {

/// One decoded instruction of the target machine. Register operands are
/// 4-bit indices widened to `u8`, immediates are bytes, addresses are the
/// low 12 bits of the instruction word.
#[derive(Clone, Copy, Debug, PartialEq, Eq, Structural)]
pub enum Opcode {
    /// Sets the address register `I` to the 12-bit address.
    SetI(u16),
    /// Sets register x to the immediate byte.
    SetVConstant(u8, u8),
    /// Copies register y into register x.
    SetV(u8, u8),
    /// Zeroes every framebuffer cell.
    ClearScreen,
    /// Pops the stack into the program counter.
    ReturnFromSubroutine,
    /// Pushes the address of the next instruction and jumps.
    CallSubroutine(u16),
    /// Adds register y to register x; register 15 becomes the carry.
    Add(u8, u8),
    /// Subtracts register y from register x; register 15 becomes the
    /// borrow indicator (1 when a borrow occurred is the convention here).
    Subtract(u8, u8),
    /// Stores register y minus register x into register x; register 15
    /// becomes the borrow indicator, as for `Subtract`.
    SubtractOpposite(u8, u8),
    /// Shifts register x left by one bit in place; register 15 becomes the
    /// bit shifted out.
    ShiftLeft(u8),
    /// Shifts register x right by one bit in place; register 15 becomes
    /// the bit shifted out.
    ShiftRight(u8),
    /// Bitwise or of register y into register x.
    Or(u8, u8),
    /// Bitwise and of register y into register x.
    And(u8, u8),
    /// Bitwise xor of register y into register x.
    Xor(u8, u8),
    /// Adds the immediate byte to register x, wrapping, with no carry flag.
    AddConstant(u8, u8),
    /// Writes the decimal digits of register x to memory at `I`, `I+1`,
    /// `I+2` (hundreds, tens, ones).
    BinaryCodedDecimal(u8),
    /// Skips the next instruction when registers x and y are equal.
    SkipRegistersEqual(u8, u8),
    /// Skips the next instruction when registers x and y differ.
    SkipRegistersNonEqual(u8, u8),
    /// Skips the next instruction when register x equals the immediate.
    SkipEqual(u8, u8),
    /// Skips the next instruction when register x differs from the
    /// immediate.
    SkipNonEqual(u8, u8),
    /// Skips the next instruction when the key whose code is in register x
    /// is pressed.
    SkipKeyEqual(u8),
    /// Skips the next instruction when the key whose code is in register x
    /// is not pressed.
    SkipKeyNonEqual(u8),
    /// Draws the n-row sprite at `I` at the point held in registers x, y.
    Draw(u8, u8, u8),
    /// Sets the program counter to the 12-bit address.
    Jump(u16),
    /// Sets the program counter to the 12-bit address plus register 0.
    JumpPlus(u16),
    /// Sets the delay timer from register x.
    SetDelayTimer(u8),
    /// Reads the delay timer into register x.
    GetDelayTimer(u8),
    /// Copies registers 0 through x to memory starting at `I`.
    Dump(u8),
    /// Copies memory starting at `I` into registers 0 through x.
    Load(u8),
    /// Points `I` at the built-in glyph for the digit held in register x.
    SpriteAddress(u8),
    /// Sets register x to a random byte bitwise-anded with the immediate.
    RandAnd(u8, u8),
    /// Adds register x to the address register `I`.
    AddMemory(u8),
    /// Latches the machine to wait for a key press into register x.
    GetKey(u8),
}

/// The x operand: bits 8..12 of the instruction word.
pub open spec fn op_x(code: u16) -> u8 {
    ((code & 0x0F00) >> 8) as u8
}

/// The y operand: bits 4..8 of the instruction word.
pub open spec fn op_y(code: u16) -> u8 {
    ((code & 0x00F0) >> 4) as u8
}

/// The low nibble operand.
pub open spec fn op_n(code: u16) -> u8 {
    (code & 0x000F) as u8
}

/// The immediate byte operand: the low 8 bits.
pub open spec fn op_nn(code: u16) -> u8 {
    (code & 0x00FF) as u8
}

/// The address operand: the low 12 bits.
pub open spec fn op_nnn(code: u16) -> u16 {
    code & 0x0FFF
}

/// What a 16-bit instruction word means. The checks run from the most
/// specific mask to the least specific: a full-word match first, then the
/// masks that pin the top nibble and the bottom nibble or byte, and only
/// then the masks that pin the top nibble alone. This order is part of the
/// contract: coarser masks overlap the finer ones.
pub open spec fn decode(code: u16) -> Result<Opcode, ChipErrors> {
    if code & 0xF000 == 0xA000 {
        Ok(Opcode::SetI(op_nnn(code)))
    } else if code == 0x00E0 {
        Ok(Opcode::ClearScreen)
    } else if code == 0x00EE {
        Ok(Opcode::ReturnFromSubroutine)
    } else if code & 0xF000 == 0x2000 {
        Ok(Opcode::CallSubroutine(op_nnn(code)))
    } else if code & 0xF00F == 0x8004 {
        Ok(Opcode::Add(op_x(code), op_y(code)))
    } else if code & 0xF0FF == 0xF033 {
        Ok(Opcode::BinaryCodedDecimal(op_x(code)))
    } else if code & 0xF000 == 0xD000 {
        Ok(Opcode::Draw(op_x(code), op_y(code), op_n(code)))
    } else if code & 0xF000 == 0x6000 {
        Ok(Opcode::SetVConstant(op_x(code), op_nn(code)))
    } else if code & 0xF00F == 0x8000 {
        Ok(Opcode::SetV(op_x(code), op_y(code)))
    } else if code & 0xF000 == 0xC000 {
        Ok(Opcode::RandAnd(op_x(code), op_nn(code)))
    } else if code & 0xF00F == 0x8001 {
        Ok(Opcode::Or(op_x(code), op_y(code)))
    } else if code & 0xF00F == 0x8002 {
        Ok(Opcode::And(op_x(code), op_y(code)))
    } else if code & 0xF00F == 0x8003 {
        Ok(Opcode::Xor(op_x(code), op_y(code)))
    } else if code & 0xF00F == 0x800E {
        Ok(Opcode::ShiftLeft(op_x(code)))
    } else if code & 0xF00F == 0x8006 {
        Ok(Opcode::ShiftRight(op_x(code)))
    } else if code & 0xF00F == 0x8005 {
        Ok(Opcode::Subtract(op_x(code), op_y(code)))
    } else if code & 0xF00F == 0x8007 {
        Ok(Opcode::SubtractOpposite(op_x(code), op_y(code)))
    } else if code & 0xF000 == 0x7000 {
        Ok(Opcode::AddConstant(op_x(code), op_nn(code)))
    } else if code & 0xF000 == 0x1000 {
        Ok(Opcode::Jump(op_nnn(code)))
    } else if code & 0xF000 == 0xB000 {
        Ok(Opcode::JumpPlus(op_nnn(code)))
    } else if code & 0xF000 == 0x3000 {
        Ok(Opcode::SkipEqual(op_x(code), op_nn(code)))
    } else if code & 0xF000 == 0x4000 {
        Ok(Opcode::SkipNonEqual(op_x(code), op_nn(code)))
    } else if code & 0xF0FF == 0xF015 {
        Ok(Opcode::SetDelayTimer(op_x(code)))
    } else if code & 0xF0FF == 0xF055 {
        Ok(Opcode::Dump(op_x(code)))
    } else if code & 0xF0FF == 0xF065 {
        Ok(Opcode::Load(op_x(code)))
    } else if code & 0xF0FF == 0xF029 {
        Ok(Opcode::SpriteAddress(op_x(code)))
    } else if code & 0xF0FF == 0xF007 {
        Ok(Opcode::GetDelayTimer(op_x(code)))
    } else if code & 0xF0FF == 0xF01E {
        Ok(Opcode::AddMemory(op_x(code)))
    } else if code & 0xF0FF == 0xF00A {
        Ok(Opcode::GetKey(op_x(code)))
    } else if code & 0xF0FF == 0xE09E {
        Ok(Opcode::SkipKeyEqual(op_x(code)))
    } else if code & 0xF0FF == 0xE0A1 {
        Ok(Opcode::SkipKeyNonEqual(op_x(code)))
    } else if code & 0xF00F == 0x5000 {
        Ok(Opcode::SkipRegistersEqual(op_x(code), op_y(code)))
    } else if code & 0xF00F == 0x9000 {
        Ok(Opcode::SkipRegistersNonEqual(op_x(code), op_y(code)))
    } else {
        Err(ChipErrors::UnknownOpcode(code))
    }
}

impl Opcode {
    /// Decodes one instruction word, or fails with the raw word when no
    /// pattern matches.
    pub fn parse(code: u16) -> (r: Result<Self, ChipErrors>)
        ensures
            r == decode(code),
    {
        if code & 0xF000 == 0xA000 {
            Ok(Self::SetI(code & 0x0FFF))
        } else if code == 0x00E0 {
            Ok(Self::ClearScreen)
        } else if code == 0x00EE {
            Ok(Self::ReturnFromSubroutine)
        } else if code & 0xF000 == 0x2000 {
            Ok(Self::CallSubroutine(code & 0x0FFF))
        } else if code & 0xF00F == 0x8004 {
            Ok(Self::Add(((code & 0x0F00) >> 8) as u8, ((code & 0x00F0) >> 4) as u8))
        } else if code & 0xF0FF == 0xF033 {
            Ok(Self::BinaryCodedDecimal(((code & 0x0F00) >> 8) as u8))
        } else if code & 0xF000 == 0xD000 {
            Ok(Self::Draw(
                ((code & 0x0F00) >> 8) as u8,
                ((code & 0x00F0) >> 4) as u8,
                (code & 0x000F) as u8,
            ))
        } else if code & 0xF000 == 0x6000 {
            Ok(Self::SetVConstant(((code & 0x0F00) >> 8) as u8, (code & 0x00FF) as u8))
        } else if code & 0xF00F == 0x8000 {
            Ok(Self::SetV(((code & 0x0F00) >> 8) as u8, ((code & 0x00F0) >> 4) as u8))
        } else if code & 0xF000 == 0xC000 {
            Ok(Self::RandAnd(((code & 0x0F00) >> 8) as u8, (code & 0x00FF) as u8))
        } else if code & 0xF00F == 0x8001 {
            Ok(Self::Or(((code & 0x0F00) >> 8) as u8, ((code & 0x00F0) >> 4) as u8))
        } else if code & 0xF00F == 0x8002 {
            Ok(Self::And(((code & 0x0F00) >> 8) as u8, ((code & 0x00F0) >> 4) as u8))
        } else if code & 0xF00F == 0x8003 {
            Ok(Self::Xor(((code & 0x0F00) >> 8) as u8, ((code & 0x00F0) >> 4) as u8))
        } else if code & 0xF00F == 0x800E {
            Ok(Self::ShiftLeft(((code & 0x0F00) >> 8) as u8))
        } else if code & 0xF00F == 0x8006 {
            Ok(Self::ShiftRight(((code & 0x0F00) >> 8) as u8))
        } else if code & 0xF00F == 0x8005 {
            Ok(Self::Subtract(((code & 0x0F00) >> 8) as u8, ((code & 0x00F0) >> 4) as u8))
        } else if code & 0xF00F == 0x8007 {
            Ok(Self::SubtractOpposite(((code & 0x0F00) >> 8) as u8, ((code & 0x00F0) >> 4) as u8))
        } else if code & 0xF000 == 0x7000 {
            Ok(Self::AddConstant(((code & 0x0F00) >> 8) as u8, (code & 0x00FF) as u8))
        } else if code & 0xF000 == 0x1000 {
            Ok(Self::Jump(code & 0x0FFF))
        } else if code & 0xF000 == 0xB000 {
            Ok(Self::JumpPlus(code & 0x0FFF))
        } else if code & 0xF000 == 0x3000 {
            Ok(Self::SkipEqual(((code & 0x0F00) >> 8) as u8, (code & 0x00FF) as u8))
        } else if code & 0xF000 == 0x4000 {
            Ok(Self::SkipNonEqual(((code & 0x0F00) >> 8) as u8, (code & 0x00FF) as u8))
        } else if code & 0xF0FF == 0xF015 {
            Ok(Self::SetDelayTimer(((code & 0x0F00) >> 8) as u8))
        } else if code & 0xF0FF == 0xF055 {
            Ok(Self::Dump(((code & 0x0F00) >> 8) as u8))
        } else if code & 0xF0FF == 0xF065 {
            Ok(Self::Load(((code & 0x0F00) >> 8) as u8))
        } else if code & 0xF0FF == 0xF029 {
            Ok(Self::SpriteAddress(((code & 0x0F00) >> 8) as u8))
        } else if code & 0xF0FF == 0xF007 {
            Ok(Self::GetDelayTimer(((code & 0x0F00) >> 8) as u8))
        } else if code & 0xF0FF == 0xF01E {
            Ok(Self::AddMemory(((code & 0x0F00) >> 8) as u8))
        } else if code & 0xF0FF == 0xF00A {
            Ok(Self::GetKey(((code & 0x0F00) >> 8) as u8))
        } else if code & 0xF0FF == 0xE09E {
            Ok(Self::SkipKeyEqual(((code & 0x0F00) >> 8) as u8))
        } else if code & 0xF0FF == 0xE0A1 {
            Ok(Self::SkipKeyNonEqual(((code & 0x0F00) >> 8) as u8))
        } else if code & 0xF00F == 0x5000 {
            Ok(Self::SkipRegistersEqual(((code & 0x0F00) >> 8) as u8, ((code & 0x00F0) >> 4) as u8))
        } else if code & 0xF00F == 0x9000 {
            Ok(Self::SkipRegistersNonEqual(
                ((code & 0x0F00) >> 8) as u8,
                ((code & 0x00F0) >> 4) as u8,
            ))
        } else {
            Err(ChipErrors::UnknownOpcode(code))
        }
    }
}

/// Every register index a decoded instruction carries is below 16, and
/// every address fits in 12 bits.
pub open spec fn op_fields_bounded(op: Opcode) -> bool {
    match op {
        Opcode::SetI(a) => a <= 0x0FFF,
        Opcode::SetVConstant(x, _) => x < 16,
        Opcode::SetV(x, y) => x < 16 && y < 16,
        Opcode::ClearScreen => true,
        Opcode::ReturnFromSubroutine => true,
        Opcode::CallSubroutine(a) => a <= 0x0FFF,
        Opcode::Add(x, y) => x < 16 && y < 16,
        Opcode::Subtract(x, y) => x < 16 && y < 16,
        Opcode::SubtractOpposite(x, y) => x < 16 && y < 16,
        Opcode::ShiftLeft(x) => x < 16,
        Opcode::ShiftRight(x) => x < 16,
        Opcode::Or(x, y) => x < 16 && y < 16,
        Opcode::And(x, y) => x < 16 && y < 16,
        Opcode::Xor(x, y) => x < 16 && y < 16,
        Opcode::AddConstant(x, _) => x < 16,
        Opcode::BinaryCodedDecimal(x) => x < 16,
        Opcode::SkipRegistersEqual(x, y) => x < 16 && y < 16,
        Opcode::SkipRegistersNonEqual(x, y) => x < 16 && y < 16,
        Opcode::SkipEqual(x, _) => x < 16,
        Opcode::SkipNonEqual(x, _) => x < 16,
        Opcode::SkipKeyEqual(x) => x < 16,
        Opcode::SkipKeyNonEqual(x) => x < 16,
        Opcode::Draw(x, y, n) => x < 16 && y < 16 && n < 16,
        Opcode::Jump(a) => a <= 0x0FFF,
        Opcode::JumpPlus(a) => a <= 0x0FFF,
        Opcode::SetDelayTimer(x) => x < 16,
        Opcode::GetDelayTimer(x) => x < 16,
        Opcode::Dump(x) => x < 16,
        Opcode::Load(x) => x < 16,
        Opcode::SpriteAddress(x) => x < 16,
        Opcode::RandAnd(x, _) => x < 16,
        Opcode::AddMemory(x) => x < 16,
        Opcode::GetKey(x) => x < 16,
    }
}

/// Whatever the decoder returns carries only in-range operand fields.
pub proof fn lemma_decode_fields_bounded(code: u16)
    ensures
        decode(code) matches Ok(op) ==> op_fields_bounded(op),
{
    assert((((code & 0x0F00) >> 8) as u8) < 16) by (bit_vector);
    assert((((code & 0x00F0) >> 4) as u8) < 16) by (bit_vector);
    assert(((code & 0x000F) as u8) < 16) by (bit_vector);
    assert(code & 0x0FFF <= 0x0FFF) by (bit_vector);
}

/// Any word with top nibble 1 decodes to a jump carrying the low 12 bits
/// of the word as the address.
pub proof fn lemma_decode_jump(code: u16)
    requires
        code & 0xF000 == 0x1000,
    ensures
        decode(code) == Ok::<Opcode, ChipErrors>(Opcode::Jump(code & 0x0FFF)),
{
    assert(code & 0xF000 != 0xA000 && code != 0x00E0 && code != 0x00EE && code & 0xF000 != 0x2000
        && code & 0xF00F != 0x8004 && code & 0xF0FF != 0xF033 && code & 0xF000 != 0xD000
        && code & 0xF000 != 0x6000 && code & 0xF00F != 0x8000 && code & 0xF000 != 0xC000
        && code & 0xF00F != 0x8001 && code & 0xF00F != 0x8002 && code & 0xF00F != 0x8003
        && code & 0xF00F != 0x800E && code & 0xF00F != 0x8006 && code & 0xF00F != 0x8005
        && code & 0xF00F != 0x8007 && code & 0xF000 != 0x7000) by (bit_vector)
        requires
            code & 0xF000 == 0x1000,
    ;
}

/// Any word with top nibble 2 decodes to a subroutine call carrying the
/// low 12 bits of the word as the address.
pub proof fn lemma_decode_call(code: u16)
    requires
        code & 0xF000 == 0x2000,
    ensures
        decode(code) == Ok::<Opcode, ChipErrors>(Opcode::CallSubroutine(code & 0x0FFF)),
{
    assert(code & 0xF000 != 0xA000 && code != 0x00E0 && code != 0x00EE) by (bit_vector)
        requires
            code & 0xF000 == 0x2000,
    ;
}

/// Any word with top nibble B decodes to a jump-plus carrying the low 12
/// bits of the word as the address.
pub proof fn lemma_decode_jump_plus(code: u16)
    requires
        code & 0xF000 == 0xB000,
    ensures
        decode(code) == Ok::<Opcode, ChipErrors>(Opcode::JumpPlus(code & 0x0FFF)),
{
    assert(code & 0xF000 != 0xA000 && code != 0x00E0 && code != 0x00EE && code & 0xF000 != 0x2000
        && code & 0xF00F != 0x8004 && code & 0xF0FF != 0xF033 && code & 0xF000 != 0xD000
        && code & 0xF000 != 0x6000 && code & 0xF00F != 0x8000 && code & 0xF000 != 0xC000
        && code & 0xF00F != 0x8001 && code & 0xF00F != 0x8002 && code & 0xF00F != 0x8003
        && code & 0xF00F != 0x800E && code & 0xF00F != 0x8006 && code & 0xF00F != 0x8005
        && code & 0xF00F != 0x8007 && code & 0xF000 != 0x7000 && code & 0xF000 != 0x1000) by (bit_vector)
        requires
            code & 0xF000 == 0xB000,
    ;
}

} // verus!
