//! Properties of the instruction semantics that hold for every state.

use vstd::prelude::*;
use crate::flags::{
    FLAG_CARRY, FLAG_NEGATIVE, FLAG_OVERFLOW, FLAG_ZERO, flag_is_set, lemma_update_zn,
    lemma_with_flag, unnamed_bits, update_zn,
};
use crate::isa::{Control, Instruction, arity, is_opcode, lemma_unknown_decoding};
use crate::machine::{
    MachineModel, bad_register, read_operands, run_spec, step_spec, transition, wrap,
};

verus! {

/// The address a control-transfer instruction jumps to under `flags`, or
/// `None` when `ins` does not jump.
pub open spec fn taken_jump(flags: u8, ins: Instruction) -> Option<u8> {
    match ins {
        Instruction::Jmp { addr } => Some(addr),
        Instruction::Jz { addr } => if flag_is_set(flags, FLAG_ZERO) {
            Some(addr)
        } else {
            None
        },
        Instruction::Jnz { addr } => if !flag_is_set(flags, FLAG_ZERO) {
            Some(addr)
        } else {
            None
        },
        _ => None,
    }
}

/// How far `ins` moves the stack pointer: down one for PUSH, up one for POP,
/// and not at all for anything else or for a faulting register operand.
pub open spec fn stack_delta(ins: Instruction) -> int {
    match ins {
        Instruction::Push { reg } => if reg < 8 {
            -1
        } else {
            0
        },
        Instruction::Pop { reg } => if reg < 8 {
            1
        } else {
            0
        },
        _ => 0,
    }
}

/// One cycle moves the program counter past the opcode and its operands,
/// modulo 256, unless the instruction jumps, and moves the stack pointer by
/// the instruction's stack delta, modulo 256.
pub proof fn lemma_step_wraps(m: MachineModel)
    requires
        m.wf(),
    ensures
        ({
            let op = m.mem(m.pc);
            let ins = read_operands(m.set_pc(wrap(m.pc + 1)), op).1;
            let next = step_spec(m).0;
            &&& next.pc == match taken_jump(m.flags, ins) {
                Some(addr) => addr,
                None => wrap(m.pc + 1 + arity(op)),
            }
            &&& next.sp == wrap(m.sp + stack_delta(ins))
        }),
{
    let op = m.mem(m.pc);
    let pc1 = wrap(m.pc + 1);
    assert(wrap(pc1 + arity(op)) == wrap(m.pc + 1 + arity(op)));
    assert(wrap(m.sp + 0) == m.sp);
}

/// The value ZERO and NEGATIVE are taken from by `ins` on `m`, or `None` for
/// an instruction that leaves them alone.
pub open spec fn zn_source(m: MachineModel, ins: Instruction) -> Option<u8> {
    match ins {
        Instruction::Ldi { value, .. } => Some(value),
        Instruction::Mv { src, .. } => Some(src),
        Instruction::Add { ra, rb } => Some(wrap(m.reg(ra) + m.reg(rb))),
        Instruction::Sub { ra, rb } => Some(wrap(m.reg(ra) - m.reg(rb))),
        Instruction::Mul { ra, rb } => if ra == 0 {
            Some(wrap(m.reg(ra) * m.reg(rb)))
        } else {
            Some(m.reg(ra))
        },
        Instruction::Div { ra, rb } => if m.reg(rb) == 0 {
            None
        } else {
            Some((m.reg(ra) / m.reg(rb)) as u8)
        },
        Instruction::And { ra, rb } => if ra == 0 {
            Some(m.reg(ra) & m.reg(rb))
        } else {
            Some(m.reg(ra))
        },
        Instruction::Or { ra, rb } => if ra == 0 {
            Some(m.reg(ra) | m.reg(rb))
        } else {
            Some(m.reg(ra))
        },
        Instruction::Xor { ra, rb } => if ra == 0 {
            Some(m.reg(ra) ^ m.reg(rb))
        } else {
            Some(m.reg(ra))
        },
        Instruction::Shl { reg } => Some(wrap(2 * m.reg(reg))),
        Instruction::Shr { reg } => Some((m.reg(reg) / 2) as u8),
        Instruction::Pop { .. } => Some(m.mem(m.sp)),
        _ => None,
    }
}

/// Whether `ins` is one of the instructions that manage CARRY or OVERFLOW.
pub open spec fn manages_carry_or_overflow(ins: Instruction) -> bool {
    match ins {
        Instruction::Add { .. } | Instruction::Sub { .. } | Instruction::Mul { .. }
        | Instruction::Div { .. } => true,
        _ => false,
    }
}

/// After an instruction that updates ZERO and NEGATIVE from a value, ZERO is
/// set exactly when that value is zero and NEGATIVE exactly when its top bit
/// is set; other instructions leave both alone. CARRY and OVERFLOW change
/// only under ADD, SUB, MUL and DIV, and the four unnamed bits never change.
pub proof fn lemma_flag_derivation(m: MachineModel, ins: Instruction)
    requires
        m.wf(),
        bad_register(ins) is None,
    ensures
        ({
            let after = transition(m, ins).0.flags;
            &&& zn_source(m, ins) matches Some(x) ==> {
                &&& flag_is_set(after, FLAG_ZERO) == (x == 0)
                &&& flag_is_set(after, FLAG_NEGATIVE) == (x & 0x80 != 0)
            }
            &&& zn_source(m, ins) is None ==> {
                &&& flag_is_set(after, FLAG_ZERO) == flag_is_set(m.flags, FLAG_ZERO)
                &&& flag_is_set(after, FLAG_NEGATIVE) == flag_is_set(m.flags, FLAG_NEGATIVE)
            }
            &&& !manages_carry_or_overflow(ins) ==> {
                &&& flag_is_set(after, FLAG_CARRY) == flag_is_set(m.flags, FLAG_CARRY)
                &&& flag_is_set(after, FLAG_OVERFLOW) == flag_is_set(m.flags, FLAG_OVERFLOW)
            }
            &&& unnamed_bits(after) == unnamed_bits(m.flags)
        }),
{
    let f = m.flags;
    match ins {
        Instruction::Add { ra, rb } => {
            let r = wrap(m.reg(ra) + m.reg(rb));
            lemma_update_zn(f, r);
            lemma_with_flag(update_zn(f, r), FLAG_CARRY, m.reg(ra) + m.reg(rb) > 255);
        },
        Instruction::Sub { ra, rb } => {
            let r = wrap(m.reg(ra) - m.reg(rb));
            lemma_update_zn(f, r);
            lemma_with_flag(update_zn(f, r), FLAG_CARRY, m.reg(ra) < m.reg(rb));
        },
        Instruction::Mul { ra, rb } => {
            let x = zn_source(m, ins).unwrap();
            lemma_update_zn(f, x);
            lemma_with_flag(update_zn(f, x), FLAG_OVERFLOW, m.reg(ra) * m.reg(rb) > 255);
        },
        Instruction::Div { ra, rb } => {
            if m.reg(rb) == 0 {
                lemma_with_flag(f, FLAG_OVERFLOW, true);
            } else {
                lemma_update_zn(f, (m.reg(ra) / m.reg(rb)) as u8);
            }
        },
        _ => {
            if let Some(x) = zn_source(m, ins) {
                lemma_update_zn(f, x);
            }
        },
    }
}

/// PUSH of a register followed at once by POP of the same register gives
/// back every register and the stack pointer as they were before the PUSH,
/// whatever the flags.
#[verifier::rlimit(40)]
pub proof fn lemma_push_pop(m: MachineModel, r: u8)
    requires
        m.wf(),
        r < 8,
    ensures
        ({
            let pushed = transition(m, Instruction::Push { reg: r }).0;
            let popped = transition(pushed, Instruction::Pop { reg: r }).0;
            &&& popped.reg(r) == m.reg(r)
            &&& popped.registers == m.registers
            &&& popped.sp == m.sp
        }),
{
    let pushed = transition(m, Instruction::Push { reg: r }).0;
    let sp1 = wrap(m.sp - 1);
    assert(pushed == MachineModel { sp: sp1, memory: m.memory.update(sp1 as int, m.reg(r)), ..m });
    let popped = transition(pushed, Instruction::Pop { reg: r }).0;
    assert(popped.registers == pushed.registers.update(r as int, pushed.mem(sp1)));
    assert(popped.sp == wrap(sp1 + 1));
    if m.sp == 0 {
        assert(sp1 == 255);
    } else {
        assert(sp1 == m.sp - 1);
    }
    assert(popped.registers =~= m.registers);
}

/// DIV by a register holding zero leaves every register as it was, sets
/// OVERFLOW, and leaves ZERO, NEGATIVE and CARRY as they were.
pub proof fn lemma_div_by_zero(m: MachineModel, ra: u8, rb: u8)
    requires
        m.wf(),
        ra < 8,
        rb < 8,
        m.reg(rb) == 0,
    ensures
        ({
            let (after, c) = transition(m, Instruction::Div { ra, rb });
            &&& c == Control::Continue
            &&& after.registers == m.registers
            &&& after.reg(0) == m.reg(0)
            &&& flag_is_set(after.flags, FLAG_OVERFLOW)
            &&& flag_is_set(after.flags, FLAG_ZERO) == flag_is_set(m.flags, FLAG_ZERO)
            &&& flag_is_set(after.flags, FLAG_NEGATIVE) == flag_is_set(m.flags, FLAG_NEGATIVE)
            &&& flag_is_set(after.flags, FLAG_CARRY) == flag_is_set(m.flags, FLAG_CARRY)
        }),
{
    lemma_with_flag(m.flags, FLAG_OVERFLOW, true);
}

/// A run whose next fetched byte is no opcode stops at once: only the
/// program counter moves, past that byte, and the run reports it.
pub proof fn lemma_unknown_opcode_stops(m: MachineModel, fuel: nat)
    requires
        m.wf(),
        fuel > 0,
        !is_opcode(m.mem(m.pc)),
    ensures
        run_spec(m, fuel) == (
            m.set_pc(wrap(m.pc + 1)),
            Some(Control::UnknownOpcode { opcode: m.mem(m.pc) }),
        ),
{
    let op = m.mem(m.pc);
    let m1 = m.set_pc(wrap(m.pc + 1));
    lemma_unknown_decoding(op, m1.mem(m1.pc), m1.mem(wrap(m1.pc + 1)));
    assert(wrap(m1.pc + 0) == m1.pc);
}

} // verus!
