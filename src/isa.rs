//! The instruction set: opcode bytes, operand counts, mnemonics and the
//! decoded form of an instruction.

use vstd::prelude::*;

verus! {

pub const OP_NOP: u8 = 0x00;

pub const OP_HALT: u8 = 0x10;

pub const OP_LDI: u8 = 0x14;

pub const OP_MV: u8 = 0x18;

pub const OP_ADD: u8 = 0x20;

pub const OP_SUB: u8 = 0x30;

pub const OP_MUL: u8 = 0x40;

pub const OP_DIV: u8 = 0x50;

pub const OP_AND: u8 = 0x60;

pub const OP_OR: u8 = 0x70;

pub const OP_XOR: u8 = 0x80;

pub const OP_SHL: u8 = 0x90;

pub const OP_SHR: u8 = 0xA0;

pub const OP_PUSH: u8 = 0xB0;

pub const OP_POP: u8 = 0xC0;

pub const OP_JMP: u8 = 0xD0;

pub const OP_JZ: u8 = 0xE0;

pub const OP_JNZ: u8 = 0xF0;

/// One instruction with its operand bytes.
///
/// Register operands are raw bytes: a value of 8 or more names no register,
/// and executing such an instruction faults instead of touching the state.
#[derive(Clone, Copy, Debug, PartialEq, Eq, Structural)]
pub enum Instruction {
    Nop,
    Halt,
    Ldi { reg: u8, value: u8 },
    Mv { dst: u8, src: u8 },
    Add { ra: u8, rb: u8 },
    Sub { ra: u8, rb: u8 },
    Mul { ra: u8, rb: u8 },
    Div { ra: u8, rb: u8 },
    And { ra: u8, rb: u8 },
    Or { ra: u8, rb: u8 },
    Xor { ra: u8, rb: u8 },
    Shl { reg: u8 },
    Shr { reg: u8 },
    Push { reg: u8 },
    Pop { reg: u8 },
    Jmp { addr: u8 },
    Jz { addr: u8 },
    Jnz { addr: u8 },
    Unknown { opcode: u8 },
}

/// What the machine does after an instruction.
#[derive(Clone, Copy, Debug, PartialEq, Eq, Structural)]
pub enum Control {
    /// Go on with the next instruction.
    Continue,
    /// The program executed HALT.
    Halt,
    /// The fetched byte is no opcode; the machine stops as on HALT.
    UnknownOpcode { opcode: u8 },
    /// An operand named a register that does not exist; the machine stops.
    InvalidRegister { index: u8 },
}

/// Whether `op` is one of the eighteen opcodes of the instruction set.
pub open spec fn is_opcode(op: u8) -> bool {
    op == OP_NOP || op == OP_HALT || op == OP_LDI || op == OP_MV || op == OP_ADD || op == OP_SUB
        || op == OP_MUL || op == OP_DIV || op == OP_AND || op == OP_OR || op == OP_XOR || op
        == OP_SHL || op == OP_SHR || op == OP_PUSH || op == OP_POP || op == OP_JMP || op == OP_JZ
        || op == OP_JNZ
}

/// How many operand bytes follow the opcode `op` in memory.
pub open spec fn arity(op: u8) -> nat {
    if op == OP_LDI || op == OP_MV || op == OP_ADD || op == OP_SUB || op == OP_MUL || op == OP_DIV
        || op == OP_AND || op == OP_OR || op == OP_XOR {
        2
    } else if op == OP_SHL || op == OP_SHR || op == OP_PUSH || op == OP_POP || op == OP_JMP || op
        == OP_JZ || op == OP_JNZ {
        1
    } else {
        0
    }
}

/// The instruction that opcode `op` forms with the operand bytes that follow
/// it; operands beyond the opcode's arity are ignored.
pub open spec fn decode_spec(op: u8, first: u8, second: u8) -> Instruction {
    if op == OP_NOP {
        Instruction::Nop
    } else if op == OP_HALT {
        Instruction::Halt
    } else if op == OP_LDI {
        Instruction::Ldi { reg: first, value: second }
    } else if op == OP_MV {
        Instruction::Mv { dst: first, src: second }
    } else if op == OP_ADD {
        Instruction::Add { ra: first, rb: second }
    } else if op == OP_SUB {
        Instruction::Sub { ra: first, rb: second }
    } else if op == OP_MUL {
        Instruction::Mul { ra: first, rb: second }
    } else if op == OP_DIV {
        Instruction::Div { ra: first, rb: second }
    } else if op == OP_AND {
        Instruction::And { ra: first, rb: second }
    } else if op == OP_OR {
        Instruction::Or { ra: first, rb: second }
    } else if op == OP_XOR {
        Instruction::Xor { ra: first, rb: second }
    } else if op == OP_SHL {
        Instruction::Shl { reg: first }
    } else if op == OP_SHR {
        Instruction::Shr { reg: first }
    } else if op == OP_PUSH {
        Instruction::Push { reg: first }
    } else if op == OP_POP {
        Instruction::Pop { reg: first }
    } else if op == OP_JMP {
        Instruction::Jmp { addr: first }
    } else if op == OP_JZ {
        Instruction::Jz { addr: first }
    } else if op == OP_JNZ {
        Instruction::Jnz { addr: first }
    } else {
        Instruction::Unknown { opcode: op }
    }
}

/// The mnemonic of opcode `op`, `UNKNOWN` for a byte that is no opcode.
pub open spec fn mnemonic(op: u8) -> Seq<char> {
    if op == OP_NOP {
        "NOP"@
    } else if op == OP_HALT {
        "HALT"@
    } else if op == OP_LDI {
        "LDI"@
    } else if op == OP_MV {
        "MV"@
    } else if op == OP_ADD {
        "ADD"@
    } else if op == OP_SUB {
        "SUB"@
    } else if op == OP_MUL {
        "MUL"@
    } else if op == OP_DIV {
        "DIV"@
    } else if op == OP_AND {
        "AND"@
    } else if op == OP_OR {
        "OR"@
    } else if op == OP_XOR {
        "XOR"@
    } else if op == OP_SHL {
        "SHL"@
    } else if op == OP_SHR {
        "SHR"@
    } else if op == OP_PUSH {
        "PUSH"@
    } else if op == OP_POP {
        "POP"@
    } else if op == OP_JMP {
        "JMP"@
    } else if op == OP_JZ {
        "JZ"@
    } else if op == OP_JNZ {
        "JNZ"@
    } else {
        "UNKNOWN"@
    }
}

/// The number of operand bytes that follow the opcode `op`.
pub fn operand_count(op: u8) -> (r: u8)
    ensures
        r as nat == arity(op),
{
    if op == OP_LDI || op == OP_MV || op == OP_ADD || op == OP_SUB || op == OP_MUL || op == OP_DIV
        || op == OP_AND || op == OP_OR || op == OP_XOR {
        2
    } else if op == OP_SHL || op == OP_SHR || op == OP_PUSH || op == OP_POP || op == OP_JMP || op
        == OP_JZ || op == OP_JNZ {
        1
    } else {
        0
    }
}

/// Builds the instruction that opcode `op` forms with its operand bytes.
pub fn decode_instruction(op: u8, first: u8, second: u8) -> (r: Instruction)
    ensures
        r == decode_spec(op, first, second),
{
    if op == OP_NOP {
        Instruction::Nop
    } else if op == OP_HALT {
        Instruction::Halt
    } else if op == OP_LDI {
        Instruction::Ldi { reg: first, value: second }
    } else if op == OP_MV {
        Instruction::Mv { dst: first, src: second }
    } else if op == OP_ADD {
        Instruction::Add { ra: first, rb: second }
    } else if op == OP_SUB {
        Instruction::Sub { ra: first, rb: second }
    } else if op == OP_MUL {
        Instruction::Mul { ra: first, rb: second }
    } else if op == OP_DIV {
        Instruction::Div { ra: first, rb: second }
    } else if op == OP_AND {
        Instruction::And { ra: first, rb: second }
    } else if op == OP_OR {
        Instruction::Or { ra: first, rb: second }
    } else if op == OP_XOR {
        Instruction::Xor { ra: first, rb: second }
    } else if op == OP_SHL {
        Instruction::Shl { reg: first }
    } else if op == OP_SHR {
        Instruction::Shr { reg: first }
    } else if op == OP_PUSH {
        Instruction::Push { reg: first }
    } else if op == OP_POP {
        Instruction::Pop { reg: first }
    } else if op == OP_JMP {
        Instruction::Jmp { addr: first }
    } else if op == OP_JZ {
        Instruction::Jz { addr: first }
    } else if op == OP_JNZ {
        Instruction::Jnz { addr: first }
    } else {
        Instruction::Unknown { opcode: op }
    }
}

/// An opcode decodes to `Instruction::Unknown` exactly when it is not in the
/// instruction set, and such a byte takes no operands.
pub proof fn lemma_unknown_decoding(op: u8, first: u8, second: u8)
    ensures
        !is_opcode(op) <==> decode_spec(op, first, second) == (Instruction::Unknown { opcode: op }),
        !is_opcode(op) ==> arity(op) == 0,
{
}

} // verus!
