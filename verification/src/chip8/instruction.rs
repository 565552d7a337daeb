//! Opcodes and their decoding.
//!
//! An opcode is sixteen bits wide. Its top nibble names the class of the
//! instruction; the lower three nibbles hold, depending on the class, a
//! 12-bit address, a register number and a byte, or two register numbers
//! and a nibble that selects the operation within the class.

use vstd::prelude::*;

verus! {

/// The opcode formed by two consecutive bytes, the first being the high one.
pub open spec fn opcode_of(hi: u8, lo: u8) -> u16 {
    ((hi as u16) << 8) | (lo as u16)
}

/// The top nibble of an opcode: the instruction class.
pub open spec fn opcode_class(opcode: u16) -> int {
    opcode as int / 4096
}

/// The second nibble: the first register operand.
pub open spec fn opcode_x(opcode: u16) -> u8 {
    ((opcode as int / 256) % 16) as u8
}

/// The third nibble: the second register operand.
pub open spec fn opcode_y(opcode: u16) -> u8 {
    ((opcode as int / 16) % 16) as u8
}

/// The low nibble.
pub open spec fn opcode_n(opcode: u16) -> u8 {
    (opcode as int % 16) as u8
}

/// The low byte: the immediate operand.
pub open spec fn opcode_byte(opcode: u16) -> u8 {
    (opcode as int % 256) as u8
}

/// The low twelve bits: the address operand.
pub open spec fn opcode_addr(opcode: u16) -> u16 {
    (opcode as int % 4096) as u16
}

/// The operations of the register-to-register class.
#[derive(Clone, Copy, Debug, PartialEq, Eq, Structural)]
pub enum AluOp {
    /// `Vx = Vx | Vy`
    Or,
    /// `Vx = Vx & Vy`
    And,
    /// `Vx = Vx ^ Vy`
    Xor,
    /// `Vx = Vx + Vy`, the flag register gets the carry.
    Add,
    /// `Vx = Vx - Vy`, the flag register gets 1 unless there was a borrow.
    Sub,
    /// `Vx = Vx >> 1`, the flag register gets the bit shifted out.
    ShiftRight,
    /// `Vx = Vx << 1`, the flag register gets the bit shifted out.
    ShiftLeft,
}

/// A decoded instruction. `x` and `y` are register numbers.
#[derive(Clone, Copy, Debug, PartialEq, Eq, Structural)]
pub enum Instruction {
    /// `00E0`: darken the display.
    ClearScreen,
    /// `00EE`: return from a subroutine.
    Return,
    /// `1nnn`: continue at `addr`.
    Jump { addr: u16 },
    /// `2nnn`: call the subroutine at `addr`.
    Call { addr: u16 },
    /// `3xkk`: skip the next instruction if `Vx == byte`.
    SkipIfEqual { x: u8, byte: u8 },
    /// `4xkk`: skip the next instruction if `Vx != byte`.
    SkipIfNotEqual { x: u8, byte: u8 },
    /// `5xy0`: skip the next instruction if `Vx == Vy`.
    SkipIfRegistersEqual { x: u8, y: u8 },
    /// `6xkk`: `Vx = byte`.
    Load { x: u8, byte: u8 },
    /// `7xkk`: `Vx = Vx + byte`, wrapping, flag register untouched.
    AddByte { x: u8, byte: u8 },
    /// `8xy1` to `8xy6` and `8xyE`: register-to-register arithmetic.
    Alu { op: AluOp, x: u8, y: u8 },
    /// `9xy0`: skip the next instruction if `Vx != Vy`.
    SkipIfRegistersNotEqual { x: u8, y: u8 },
    /// `Annn`: set the index register to `addr`.
    LoadIndex { addr: u16 },
    /// `Cxkk`: `Vx = random byte & byte`.
    Random { x: u8, byte: u8 },
    /// `Dxyn`: draw the `n`-row sprite at the index register at `(Vx, Vy)`.
    Draw { x: u8, y: u8, n: u8 },
    /// `Ex9E`: skip the next instruction if key `Vx` is down.
    SkipIfKeyPressed { x: u8 },
    /// `ExA1`: skip the next instruction if key `Vx` is not down.
    SkipIfKeyNotPressed { x: u8 },
    /// `Fx07`: `Vx = delay timer`.
    ReadDelayTimer { x: u8 },
    /// `Fx15`: `delay timer = Vx`.
    SetDelayTimer { x: u8 },
    /// `Fx29`: point the index register at the glyph for the digit in `Vx`.
    LoadGlyphAddress { x: u8 },
    /// `Fx33`: store the three decimal digits of `Vx` at the index register.
    StoreBcd { x: u8 },
    /// `Fx55`: store `V0` to `Vx` at the index register.
    StoreRegisters { x: u8 },
    /// `Fx65`: load `V0` to `Vx` from the index register.
    LoadRegisters { x: u8 },
}

impl AluOp {
    /// The low nibble that selects this operation.
    pub open spec fn selector(self) -> int {
        match self {
            AluOp::Or => 0x1,
            AluOp::And => 0x2,
            AluOp::Xor => 0x3,
            AluOp::Add => 0x4,
            AluOp::Sub => 0x5,
            AluOp::ShiftRight => 0x6,
            AluOp::ShiftLeft => 0xE,
        }
    }
}

/// The operation that a low nibble selects, if any.
pub open spec fn alu_op_of(n: u8) -> Option<AluOp> {
    if n == 0x1 {
        Some(AluOp::Or)
    } else if n == 0x2 {
        Some(AluOp::And)
    } else if n == 0x3 {
        Some(AluOp::Xor)
    } else if n == 0x4 {
        Some(AluOp::Add)
    } else if n == 0x5 {
        Some(AluOp::Sub)
    } else if n == 0x6 {
        Some(AluOp::ShiftRight)
    } else if n == 0xE {
        Some(AluOp::ShiftLeft)
    } else {
        None
    }
}

impl Instruction {
    /// Register numbers are below 16, addresses below 4096, and a sprite
    /// has at most 15 rows.
    pub open spec fn wf(self) -> bool {
        match self {
            Instruction::ClearScreen | Instruction::Return => true,
            Instruction::Jump { addr } | Instruction::Call { addr } | Instruction::LoadIndex {
                addr,
            } => addr < 4096,
            Instruction::SkipIfEqual { x, .. }
            | Instruction::SkipIfNotEqual { x, .. }
            | Instruction::Load { x, .. }
            | Instruction::AddByte { x, .. }
            | Instruction::Random { x, .. }
            | Instruction::SkipIfKeyPressed { x }
            | Instruction::SkipIfKeyNotPressed { x }
            | Instruction::ReadDelayTimer { x }
            | Instruction::SetDelayTimer { x }
            | Instruction::LoadGlyphAddress { x }
            | Instruction::StoreBcd { x }
            | Instruction::StoreRegisters { x }
            | Instruction::LoadRegisters { x } => x < 16,
            Instruction::SkipIfRegistersEqual { x, y }
            | Instruction::SkipIfRegistersNotEqual { x, y }
            | Instruction::Alu { x, y, .. } => x < 16 && y < 16,
            Instruction::Draw { x, y, n } => x < 16 && y < 16 && n < 16,
        }
    }

    /// The opcode that stands for this instruction.
    pub open spec fn encoding(self) -> int {
        match self {
            Instruction::ClearScreen => 0x00E0,
            Instruction::Return => 0x00EE,
            Instruction::Jump { addr } => 0x1000 + addr,
            Instruction::Call { addr } => 0x2000 + addr,
            Instruction::SkipIfEqual { x, byte } => 0x3000 + x * 256 + byte,
            Instruction::SkipIfNotEqual { x, byte } => 0x4000 + x * 256 + byte,
            Instruction::SkipIfRegistersEqual { x, y } => 0x5000 + x * 256 + y * 16,
            Instruction::Load { x, byte } => 0x6000 + x * 256 + byte,
            Instruction::AddByte { x, byte } => 0x7000 + x * 256 + byte,
            Instruction::Alu { op, x, y } => 0x8000 + x * 256 + y * 16 + op.selector(),
            Instruction::SkipIfRegistersNotEqual { x, y } => 0x9000 + x * 256 + y * 16,
            Instruction::LoadIndex { addr } => 0xA000 + addr,
            Instruction::Random { x, byte } => 0xC000 + x * 256 + byte,
            Instruction::Draw { x, y, n } => 0xD000 + x * 256 + y * 16 + n,
            Instruction::SkipIfKeyPressed { x } => 0xE09E + x * 256,
            Instruction::SkipIfKeyNotPressed { x } => 0xE0A1 + x * 256,
            Instruction::ReadDelayTimer { x } => 0xF007 + x * 256,
            Instruction::SetDelayTimer { x } => 0xF015 + x * 256,
            Instruction::LoadGlyphAddress { x } => 0xF029 + x * 256,
            Instruction::StoreBcd { x } => 0xF033 + x * 256,
            Instruction::StoreRegisters { x } => 0xF055 + x * 256,
            Instruction::LoadRegisters { x } => 0xF065 + x * 256,
        }
    }
}

/// The instruction that an opcode stands for: classified by the top nibble,
/// then, where the class holds several instructions, by the low nibble or
/// the low byte. `None` for an opcode without a meaning.
pub open spec fn decoded(opcode: u16) -> Option<Instruction> {
    let class = opcode_class(opcode);
    let x = opcode_x(opcode);
    let y = opcode_y(opcode);
    let n = opcode_n(opcode);
    let byte = opcode_byte(opcode);
    let addr = opcode_addr(opcode);
    if class == 0x0 {
        if opcode == 0x00E0 {
            Some(Instruction::ClearScreen)
        } else if opcode == 0x00EE {
            Some(Instruction::Return)
        } else {
            None
        }
    } else if class == 0x1 {
        Some(Instruction::Jump { addr })
    } else if class == 0x2 {
        Some(Instruction::Call { addr })
    } else if class == 0x3 {
        Some(Instruction::SkipIfEqual { x, byte })
    } else if class == 0x4 {
        Some(Instruction::SkipIfNotEqual { x, byte })
    } else if class == 0x5 {
        if n == 0 {
            Some(Instruction::SkipIfRegistersEqual { x, y })
        } else {
            None
        }
    } else if class == 0x6 {
        Some(Instruction::Load { x, byte })
    } else if class == 0x7 {
        Some(Instruction::AddByte { x, byte })
    } else if class == 0x8 {
        match alu_op_of(n) {
            Some(op) => Some(Instruction::Alu { op, x, y }),
            None => None,
        }
    } else if class == 0x9 {
        if n == 0 {
            Some(Instruction::SkipIfRegistersNotEqual { x, y })
        } else {
            None
        }
    } else if class == 0xA {
        Some(Instruction::LoadIndex { addr })
    } else if class == 0xC {
        Some(Instruction::Random { x, byte })
    } else if class == 0xD {
        Some(Instruction::Draw { x, y, n })
    } else if class == 0xE {
        if byte == 0x9E {
            Some(Instruction::SkipIfKeyPressed { x })
        } else if byte == 0xA1 {
            Some(Instruction::SkipIfKeyNotPressed { x })
        } else {
            None
        }
    } else if class == 0xF {
        if byte == 0x07 {
            Some(Instruction::ReadDelayTimer { x })
        } else if byte == 0x15 {
            Some(Instruction::SetDelayTimer { x })
        } else if byte == 0x29 {
            Some(Instruction::LoadGlyphAddress { x })
        } else if byte == 0x33 {
            Some(Instruction::StoreBcd { x })
        } else if byte == 0x55 {
            Some(Instruction::StoreRegisters { x })
        } else if byte == 0x65 {
            Some(Instruction::LoadRegisters { x })
        } else {
            None
        }
    } else {
        None
    }
}

/// The big-endian opcode is the high byte times 256 plus the low byte.
pub proof fn lemma_opcode_of(hi: u8, lo: u8)
    ensures
        opcode_of(hi, lo) == hi * 256 + lo,
{
    assert((((hi as u16) << 8) | (lo as u16)) == hi * 256 + lo) by (bit_vector);
}

/// The nibbles, the low byte and the low twelve bits of an opcode, as the
/// masks and shifts that extract them.
proof fn lemma_opcode_fields(opcode: u16)
    ensures
        opcode >> 12 == opcode_class(opcode),
        (opcode & 0x0F00) >> 8 == opcode_x(opcode),
        (opcode & 0x00F0) >> 4 == opcode_y(opcode),
        opcode & 0x000F == opcode_n(opcode),
        opcode & 0x00FF == opcode_byte(opcode),
        opcode & 0x0FFF == opcode_addr(opcode),
{
    assert(opcode >> 12 == opcode / 4096) by (bit_vector);
    assert((opcode & 0x0F00) >> 8 == (opcode / 256) % 16) by (bit_vector);
    assert((opcode & 0x00F0) >> 4 == (opcode / 16) % 16) by (bit_vector);
    assert(opcode & 0x000F == opcode % 16) by (bit_vector);
    assert(opcode & 0x00FF == opcode % 256) by (bit_vector);
    assert(opcode & 0x0FFF == opcode % 4096) by (bit_vector);
}

/// Joins two consecutive bytes of a program into an opcode.
pub fn opcode_from_bytes(hi: u8, lo: u8) -> (opcode: u16)
    ensures
        opcode == opcode_of(hi, lo),
{
    ((hi as u16) << 8) | (lo as u16)
}

/// Decodes the register-to-register operation that a low nibble selects.
pub fn decode_alu_op(n: u8) -> (res: Option<AluOp>)
    ensures
        res == alu_op_of(n),
{
    match n {
        0x1 => Some(AluOp::Or),
        0x2 => Some(AluOp::And),
        0x3 => Some(AluOp::Xor),
        0x4 => Some(AluOp::Add),
        0x5 => Some(AluOp::Sub),
        0x6 => Some(AluOp::ShiftRight),
        0xE => Some(AluOp::ShiftLeft),
        _ => None,
    }
}

/// An opcode is the sum of its four nibbles, each weighted by its place.
proof fn lemma_opcode_split(opcode: u16)
    ensures
        0 <= opcode_class(opcode) < 16,
        opcode_x(opcode) < 16,
        opcode_y(opcode) < 16,
        opcode_n(opcode) < 16,
        opcode_addr(opcode) < 4096,
        opcode_byte(opcode) == opcode_y(opcode) * 16 + opcode_n(opcode),
        opcode_addr(opcode) == opcode_x(opcode) * 256 + opcode_byte(opcode),
        opcode == opcode_class(opcode) * 4096 + opcode_addr(opcode),
{
}

/// Four nibbles weighted by their places form an opcode that splits into
/// the same four nibbles.
proof fn lemma_opcode_join(class: int, x: int, y: int, n: int)
    requires
        0 <= class < 16,
        0 <= x < 16,
        0 <= y < 16,
        0 <= n < 16,
    ensures
        ({
            let opcode = class * 4096 + x * 256 + y * 16 + n;
            &&& 0 <= opcode <= u16::MAX
            &&& opcode_class(opcode as u16) == class
            &&& opcode_x(opcode as u16) == x
            &&& opcode_y(opcode as u16) == y
            &&& opcode_n(opcode as u16) == n
            &&& opcode_byte(opcode as u16) == y * 16 + n
            &&& opcode_addr(opcode as u16) == x * 256 + y * 16 + n
        }),
{
    let c = class as u16;
    let x = x as u16;
    let y = y as u16;
    let n = n as u16;
    let opcode = (c * 4096 + x * 256 + y * 16 + n) as u16;
    assert(opcode / 4096 == c && (opcode / 256) % 16 == x && (opcode / 16) % 16 == y && opcode % 16
        == n && opcode % 256 == y * 16 + n && opcode % 4096 == x * 256 + y * 16 + n)
        by (bit_vector)
        requires
            c < 16,
            x < 16,
            y < 16,
            n < 16,
            opcode == c * 4096 + x * 256 + y * 16 + n,
    ;
}

/// Every instruction that an opcode decodes to is well formed and encodes
/// back to that opcode.
pub proof fn lemma_encoding_inverts_decode(opcode: u16)
    ensures
        decoded(opcode) matches Some(ins) ==> ins.wf() && ins.encoding() == opcode,
{
    lemma_opcode_split(opcode);
}

/// Decoding inverts encoding: a well-formed instruction is what its own
/// opcode decodes to, so no two instructions share an opcode.
pub proof fn lemma_decode_inverts_encoding(ins: Instruction)
    requires
        ins.wf(),
    ensures
        0 <= ins.encoding() <= u16::MAX,
        decoded(ins.encoding() as u16) == Some(ins),
{
    match ins {
        Instruction::ClearScreen => {
            lemma_opcode_join(0x0, 0x0, 0xE, 0x0);
        },
        Instruction::Return => {
            lemma_opcode_join(0x0, 0x0, 0xE, 0xE);
        },
        Instruction::Jump { addr } => {
            lemma_opcode_join(0x1, addr as int / 256, (addr as int / 16) % 16, addr as int % 16);
        },
        Instruction::Call { addr } => {
            lemma_opcode_join(0x2, addr as int / 256, (addr as int / 16) % 16, addr as int % 16);
        },
        Instruction::SkipIfEqual { x, byte } => {
            lemma_opcode_join(0x3, x as int, byte as int / 16, byte as int % 16);
        },
        Instruction::SkipIfNotEqual { x, byte } => {
            lemma_opcode_join(0x4, x as int, byte as int / 16, byte as int % 16);
        },
        Instruction::SkipIfRegistersEqual { x, y } => {
            lemma_opcode_join(0x5, x as int, y as int, 0);
        },
        Instruction::Load { x, byte } => {
            lemma_opcode_join(0x6, x as int, byte as int / 16, byte as int % 16);
        },
        Instruction::AddByte { x, byte } => {
            lemma_opcode_join(0x7, x as int, byte as int / 16, byte as int % 16);
        },
        Instruction::Alu { op, x, y } => {
            lemma_opcode_join(0x8, x as int, y as int, op.selector());
        },
        Instruction::SkipIfRegistersNotEqual { x, y } => {
            lemma_opcode_join(0x9, x as int, y as int, 0);
        },
        Instruction::LoadIndex { addr } => {
            lemma_opcode_join(0xA, addr as int / 256, (addr as int / 16) % 16, addr as int % 16);
        },
        Instruction::Random { x, byte } => {
            lemma_opcode_join(0xC, x as int, byte as int / 16, byte as int % 16);
        },
        Instruction::Draw { x, y, n } => {
            lemma_opcode_join(0xD, x as int, y as int, n as int);
        },
        Instruction::SkipIfKeyPressed { x } => {
            lemma_opcode_join(0xE, x as int, 0x9, 0xE);
        },
        Instruction::SkipIfKeyNotPressed { x } => {
            lemma_opcode_join(0xE, x as int, 0xA, 0x1);
        },
        Instruction::ReadDelayTimer { x } => {
            lemma_opcode_join(0xF, x as int, 0x0, 0x7);
        },
        Instruction::SetDelayTimer { x } => {
            lemma_opcode_join(0xF, x as int, 0x1, 0x5);
        },
        Instruction::LoadGlyphAddress { x } => {
            lemma_opcode_join(0xF, x as int, 0x2, 0x9);
        },
        Instruction::StoreBcd { x } => {
            lemma_opcode_join(0xF, x as int, 0x3, 0x3);
        },
        Instruction::StoreRegisters { x } => {
            lemma_opcode_join(0xF, x as int, 0x5, 0x5);
        },
        Instruction::LoadRegisters { x } => {
            lemma_opcode_join(0xF, x as int, 0x6, 0x5);
        },
    }
}

/// Decodes an opcode. An opcode without a meaning decodes to `None`;
/// every instruction that comes out is well formed and encodes back to
/// the opcode it came from.
pub fn decode(opcode: u16) -> (res: Option<Instruction>)
    ensures
        res == decoded(opcode),
        res matches Some(ins) ==> ins.wf() && ins.encoding() == opcode,
{
    proof {
        lemma_opcode_fields(opcode);
        lemma_encoding_inverts_decode(opcode);
    }
    let x: u8 = ((opcode & 0x0F00) >> 8) as u8;
    let y: u8 = ((opcode & 0x00F0) >> 4) as u8;
    let n: u8 = (opcode & 0x000F) as u8;
    let byte: u8 = (opcode & 0x00FF) as u8;
    let addr: u16 = opcode & 0x0FFF;
    match opcode >> 12 {
        0x0 => match opcode {
            0x00E0 => Some(Instruction::ClearScreen),
            0x00EE => Some(Instruction::Return),
            _ => None,
        },
        0x1 => Some(Instruction::Jump { addr }),
        0x2 => Some(Instruction::Call { addr }),
        0x3 => Some(Instruction::SkipIfEqual { x, byte }),
        0x4 => Some(Instruction::SkipIfNotEqual { x, byte }),
        0x5 => match n {
            0x0 => Some(Instruction::SkipIfRegistersEqual { x, y }),
            _ => None,
        },
        0x6 => Some(Instruction::Load { x, byte }),
        0x7 => Some(Instruction::AddByte { x, byte }),
        0x8 => match decode_alu_op(n) {
            Some(op) => Some(Instruction::Alu { op, x, y }),
            None => None,
        },
        0x9 => match n {
            0x0 => Some(Instruction::SkipIfRegistersNotEqual { x, y }),
            _ => None,
        },
        0xA => Some(Instruction::LoadIndex { addr }),
        0xC => Some(Instruction::Random { x, byte }),
        0xD => Some(Instruction::Draw { x, y, n }),
        0xE => match byte {
            0x9E => Some(Instruction::SkipIfKeyPressed { x }),
            0xA1 => Some(Instruction::SkipIfKeyNotPressed { x }),
            _ => None,
        },
        0xF => match byte {
            0x07 => Some(Instruction::ReadDelayTimer { x }),
            0x15 => Some(Instruction::SetDelayTimer { x }),
            0x29 => Some(Instruction::LoadGlyphAddress { x }),
            0x33 => Some(Instruction::StoreBcd { x }),
            0x55 => Some(Instruction::StoreRegisters { x }),
            0x65 => Some(Instruction::LoadRegisters { x }),
            _ => None,
        },
        _ => None,
    }
}

} // verus!
