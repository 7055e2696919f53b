//! The machine state and its fetch-decode-execute cycle.

use vstd::prelude::*;
use crate::flags::{
    FLAG_CARRY, FLAG_NEGATIVE, FLAG_OVERFLOW, FLAG_ZERO, flag_is_set, update_zn, with_flag,
};
use crate::isa::{
    Control, Instruction, arity, decode_instruction, decode_spec, mnemonic, operand_count,
    OP_ADD, OP_AND, OP_DIV, OP_HALT, OP_JMP, OP_JNZ, OP_JZ, OP_LDI, OP_MUL, OP_MV, OP_NOP, OP_OR,
    OP_POP, OP_PUSH, OP_SHL, OP_SHR, OP_SUB, OP_XOR,
};

verus! {

/// Where the stack pointer starts: the stack grows downward from here.
pub const STACK_TOP: u8 = 0xF0;

/// The state of the machine, as plain mathematical values.
pub struct MachineModel {
    pub registers: Seq<u8>,
    pub pc: u8,
    pub sp: u8,
    pub flags: u8,
    pub memory: Seq<u8>,
}

/// `x` reduced modulo 256 into a byte.
pub open spec fn wrap(x: int) -> u8 {
    (x % 256) as u8
}

impl MachineModel {
    /// Eight registers and 256 bytes of memory.
    pub open spec fn wf(self) -> bool {
        self.registers.len() == 8 && self.memory.len() == 256
    }

    pub open spec fn reg(self, r: u8) -> u8 {
        self.registers[r as int]
    }

    pub open spec fn mem(self, addr: u8) -> u8 {
        self.memory[addr as int]
    }

    pub open spec fn set_reg(self, r: u8, v: u8) -> MachineModel {
        MachineModel { registers: self.registers.update(r as int, v), ..self }
    }

    pub open spec fn set_flags(self, flags: u8) -> MachineModel {
        MachineModel { flags, ..self }
    }

    pub open spec fn set_pc(self, pc: u8) -> MachineModel {
        MachineModel { pc, ..self }
    }

    /// ZERO and NEGATIVE recomputed from `v`.
    pub open spec fn zn(self, v: u8) -> MachineModel {
        self.set_flags(update_zn(self.flags, v))
    }
}

/// The register operand of `ins` that names no register, if any; the first
/// operand is checked before the second.
pub open spec fn bad_register(ins: Instruction) -> Option<u8> {
    match ins {
        Instruction::Ldi { reg, .. } | Instruction::Shl { reg } | Instruction::Shr { reg }
        | Instruction::Push { reg } | Instruction::Pop { reg } => if reg >= 8 {
            Some(reg)
        } else {
            None
        },
        Instruction::Mv { dst: ra, src: rb } | Instruction::Add { ra, rb } | Instruction::Sub {
            ra,
            rb,
        } | Instruction::Mul { ra, rb } | Instruction::Div { ra, rb } | Instruction::And { ra, rb }
        | Instruction::Or { ra, rb } | Instruction::Xor { ra, rb } => if ra >= 8 {
            Some(ra)
        } else if rb >= 8 {
            Some(rb)
        } else {
            None
        },
        _ => None,
    }
}

/// What executing `ins` does to `m`, whose program counter already points
/// past the instruction's operands.
///
/// MV takes ZERO and NEGATIVE from the index of its source register, and MUL,
/// AND, OR and XOR from their first source register as it reads once the
/// result is in register 0: the first operand's value, or the result itself
/// when that operand is register 0. Only ADD, SUB, DIV, SHL, SHR, LDI and POP
/// take them from the value they store in every case.
pub open spec fn transition(m: MachineModel, ins: Instruction) -> (MachineModel, Control) {
    if let Some(index) = bad_register(ins) {
        (m, Control::InvalidRegister { index })
    } else {
        match ins {
            Instruction::Nop => (m, Control::Continue),
            Instruction::Halt => (m, Control::Halt),
            Instruction::Ldi { reg, value } => (m.set_reg(reg, value).zn(value), Control::Continue),
            Instruction::Mv { dst, src } => (m.set_reg(dst, m.reg(src)).zn(src), Control::Continue),
            Instruction::Add { ra, rb } => {
                let sum = m.reg(ra) as int + m.reg(rb) as int;
                let r = wrap(sum);
                (
                    m.set_reg(0, r).set_flags(with_flag(update_zn(m.flags, r), FLAG_CARRY, sum > 255)),
                    Control::Continue,
                )
            },
            Instruction::Sub { ra, rb } => {
                let r = wrap(m.reg(ra) as int - m.reg(rb) as int);
                (
                    m.set_reg(0, r).set_flags(
                        with_flag(update_zn(m.flags, r), FLAG_CARRY, m.reg(ra) < m.reg(rb)),
                    ),
                    Control::Continue,
                )
            },
            Instruction::Mul { ra, rb } => {
                let product = m.reg(ra) as int * m.reg(rb) as int;
                let m1 = m.set_reg(0, wrap(product));
                (
                    m1.set_flags(
                        with_flag(update_zn(m.flags, m1.reg(ra)), FLAG_OVERFLOW, product > 255),
                    ),
                    Control::Continue,
                )
            },
            Instruction::Div { ra, rb } => if m.reg(rb) == 0 {
                (m.set_flags(with_flag(m.flags, FLAG_OVERFLOW, true)), Control::Continue)
            } else {
                let r = (m.reg(ra) / m.reg(rb)) as u8;
                (m.set_reg(0, r).zn(r), Control::Continue)
            },
            Instruction::And { ra, rb } => {
                let m1 = m.set_reg(0, m.reg(ra) & m.reg(rb));
                (m1.zn(m1.reg(ra)), Control::Continue)
            },
            Instruction::Or { ra, rb } => {
                let m1 = m.set_reg(0, m.reg(ra) | m.reg(rb));
                (m1.zn(m1.reg(ra)), Control::Continue)
            },
            Instruction::Xor { ra, rb } => {
                let m1 = m.set_reg(0, m.reg(ra) ^ m.reg(rb));
                (m1.zn(m1.reg(ra)), Control::Continue)
            },
            Instruction::Shl { reg } => {
                let r = wrap(2 * m.reg(reg));
                (m.set_reg(reg, r).zn(r), Control::Continue)
            },
            Instruction::Shr { reg } => {
                let r = (m.reg(reg) / 2) as u8;
                (m.set_reg(reg, r).zn(r), Control::Continue)
            },
            Instruction::Push { reg } => {
                let sp = wrap(m.sp - 1);
                (
                    MachineModel { sp, memory: m.memory.update(sp as int, m.reg(reg)), ..m },
                    Control::Continue,
                )
            },
            Instruction::Pop { reg } => {
                let v = m.mem(m.sp);
                (MachineModel { sp: wrap(m.sp + 1), ..m.set_reg(reg, v).zn(v) }, Control::Continue)
            },
            Instruction::Jmp { addr } => (m.set_pc(addr), Control::Continue),
            Instruction::Jz { addr } => if flag_is_set(m.flags, FLAG_ZERO) {
                (m.set_pc(addr), Control::Continue)
            } else {
                (m, Control::Continue)
            },
            Instruction::Jnz { addr } => if !flag_is_set(m.flags, FLAG_ZERO) {
                (m.set_pc(addr), Control::Continue)
            } else {
                (m, Control::Continue)
            },
            Instruction::Unknown { opcode } => (m, Control::UnknownOpcode { opcode }),
        }
    }
}


/// The operands of opcode `op` read from memory at the program counter: the
/// decoded instruction, and `m` with the program counter moved past them.
pub open spec fn read_operands(m: MachineModel, op: u8) -> (MachineModel, Instruction) {
    (
        m.set_pc(wrap(m.pc + arity(op))),
        decode_spec(op, m.mem(m.pc), m.mem(wrap(m.pc + 1))),
    )
}

/// Executing opcode `op`, fetched already, on `m`: its operands are read and
/// the instruction they form is applied.
pub open spec fn execute_spec(m: MachineModel, op: u8) -> (MachineModel, Control) {
    let (m1, ins) = read_operands(m, op);
    transition(m1, ins)
}

/// One fetch-decode-execute cycle from `m`.
pub open spec fn step_spec(m: MachineModel) -> (MachineModel, Control) {
    execute_spec(m.set_pc(wrap(m.pc + 1)), m.mem(m.pc))
}

/// Running from `m` for at most `fuel` instructions: the final state, and how
/// the program stopped, or `None` when it was still running after `fuel`
/// instructions.
pub open spec fn run_spec(m: MachineModel, fuel: nat) -> (MachineModel, Option<Control>)
    decreases fuel,
{
    if fuel == 0 {
        (m, None)
    } else {
        let (m1, c) = step_spec(m);
        if c == Control::Continue {
            run_spec(m1, (fuel - 1) as nat)
        } else {
            (m1, Some(c))
        }
    }
}

/// What one cycle did: the opcode fetched, the instruction it formed with
/// its operands, and what the machine does next.
#[derive(Clone, Copy, Debug, PartialEq, Eq, Structural)]
pub struct Step {
    pub opcode: u8,
    pub instruction: Instruction,
    pub control: Control,
}

/// The machine: eight registers, program counter, stack pointer, flag byte
/// and a 256-byte memory that holds both code and stack.
///
/// Every field is a fixed-size value, so every value of the struct is a valid
/// machine state.
pub struct CC8R {
    pub registers: [u8; 8],
    pub pc: u8,
    pub sp: u8,
    pub flags: u8,
    pub memory: [u8; 256],
}

impl View for CC8R {
    type V = MachineModel;

    open spec fn view(&self) -> MachineModel {
        MachineModel {
            registers: self.registers@,
            pc: self.pc,
            sp: self.sp,
            flags: self.flags,
            memory: self.memory@,
        }
    }
}

/// The state of a machine just built: every register, flag and memory byte
/// zero, the program counter at 0 and the stack pointer at the stack top.
pub open spec fn initial_model() -> MachineModel {
    MachineModel {
        registers: Seq::new(8, |_i: int| 0u8),
        pc: 0,
        sp: STACK_TOP,
        flags: 0,
        memory: Seq::new(256, |_i: int| 0u8),
    }
}

/// The state after `program` is copied into memory from address 0.
pub open spec fn loaded(m: MachineModel, program: Seq<u8>) -> MachineModel {
    MachineModel { memory: program + m.memory.subrange(program.len() as int, 256), ..m }
}

impl CC8R {
    pub fn new() -> (r: CC8R)
        ensures
            r@ == initial_model(),
    {
        let r = CC8R { registers: [0u8; 8], pc: 0, sp: STACK_TOP, flags: 0, memory: [0u8; 256] };
        assert(r.registers@ =~= initial_model().registers);
        assert(r.memory@ =~= initial_model().memory);
        r
    }

    /// Reads the byte at the program counter and moves the counter past it.
    pub fn fetch(&mut self) -> (r: u8)
        ensures
            r == old(self)@.mem(old(self).pc),
            final(self)@ == old(self)@.set_pc(wrap(old(self).pc + 1)),
    {
        let instruction = self.memory[self.pc as usize];
        self.pc = self.pc.wrapping_add(1);
        instruction
    }

    /// The mnemonic of the opcode `instruction`, `UNKNOWN` for a byte that is
    /// no opcode.
    pub fn decode(&self, instruction: u8) -> (r: String)
        ensures
            r@ == mnemonic(instruction),
    {
        let name = if instruction == OP_NOP {
            "NOP"
        } else if instruction == OP_HALT {
            "HALT"
        } else if instruction == OP_LDI {
            "LDI"
        } else if instruction == OP_MV {
            "MV"
        } else if instruction == OP_ADD {
            "ADD"
        } else if instruction == OP_SUB {
            "SUB"
        } else if instruction == OP_MUL {
            "MUL"
        } else if instruction == OP_DIV {
            "DIV"
        } else if instruction == OP_AND {
            "AND"
        } else if instruction == OP_OR {
            "OR"
        } else if instruction == OP_XOR {
            "XOR"
        } else if instruction == OP_SHL {
            "SHL"
        } else if instruction == OP_SHR {
            "SHR"
        } else if instruction == OP_PUSH {
            "PUSH"
        } else if instruction == OP_POP {
            "POP"
        } else if instruction == OP_JMP {
            "JMP"
        } else if instruction == OP_JZ {
            "JZ"
        } else if instruction == OP_JNZ {
            "JNZ"
        } else {
            "UNKNOWN"
        };
        name.to_owned()
    }

    /// Recomputes ZERO and NEGATIVE from `result`.
    pub fn update_flags(&mut self, result: u8)
        ensures
            final(self)@ == old(self)@.zn(result),
    {
        if result == 0 {
            self.flags = self.flags | FLAG_ZERO;
        } else {
            self.flags = self.flags & !FLAG_ZERO;
        }
        if result & 0x80 != 0 {
            self.flags = self.flags | FLAG_NEGATIVE;
        } else {
            self.flags = self.flags & !FLAG_NEGATIVE;
        }
    }

    /// Sets one named flag when `on` holds and clears it otherwise.
    fn set_flag(&mut self, bit: u8, on: bool)
        ensures
            final(self)@ == old(self)@.set_flags(with_flag(old(self).flags, bit, on)),
    {
        if on {
            self.flags = self.flags | bit;
        } else {
            self.flags = self.flags & !bit;
        }
    }

    /// Copies `program` into memory from address 0; the rest of memory and
    /// the registers, counters and flags are left as they are.
    pub fn load_program(&mut self, program: &[u8])
        requires
            program@.len() <= 256,
        ensures
            final(self)@ == loaded(old(self)@, program@),
    {
        let mut i: usize = 0;
        assert(program@.subrange(0, 0) + old(self).memory@.subrange(0, 256) =~= self.memory@);
        while i < program.len()
            invariant
                i <= program@.len() <= 256,
                self@ == loaded(old(self)@, program@.subrange(0, i as int)),
            decreases program@.len() - i,
        {
            self.memory[i] = program[i];
            i = i + 1;
            assert(self.memory@ =~= program@.subrange(0, i as int) + old(self).memory@.subrange(
                i as int,
                256,
            ));
        }
        assert(program@.subrange(0, i as int) =~= program@);
    }
    /// Applies `ins`, whose operands have been read already.
    ///
    /// An instruction whose register operand is 8 or more changes nothing
    /// and returns `Control::InvalidRegister`; an unknown opcode changes
    /// nothing and returns `Control::UnknownOpcode`.
    pub fn apply(&mut self, ins: Instruction) -> (r: Control)
        ensures
            (final(self)@, r) == transition(old(self)@, ins),
    {
        match ins {
            Instruction::Nop => Control::Continue,
            Instruction::Halt => Control::Halt,
            Instruction::Ldi { reg, value } => {
                if reg >= 8 {
                    return Control::InvalidRegister { index: reg };
                }
                self.registers[reg as usize] = value;
                self.update_flags(value);
                Control::Continue
            },
            Instruction::Mv { dst, src } => {
                if dst >= 8 {
                    return Control::InvalidRegister { index: dst };
                }
                if src >= 8 {
                    return Control::InvalidRegister { index: src };
                }
                self.registers[dst as usize] = self.registers[src as usize];
                self.update_flags(src);
                Control::Continue
            },
            Instruction::Add { ra, rb }
            | Instruction::Sub { ra, rb }
            | Instruction::Mul { ra, rb }
            | Instruction::Div { ra, rb }
            | Instruction::And { ra, rb }
            | Instruction::Or { ra, rb }
            | Instruction::Xor { ra, rb } => {
                if ra >= 8 {
                    return Control::InvalidRegister { index: ra };
                }
                if rb >= 8 {
                    return Control::InvalidRegister { index: rb };
                }
                self.apply_binary(ins, ra, rb);
                Control::Continue
            },
            Instruction::Shl { reg } => {
                if reg >= 8 {
                    return Control::InvalidRegister { index: reg };
                }
                let v = self.registers[reg as usize];
                let result = ((v as u16 * 2) % 256) as u8;
                self.registers[reg as usize] = result;
                self.update_flags(result);
                Control::Continue
            },
            Instruction::Shr { reg } => {
                if reg >= 8 {
                    return Control::InvalidRegister { index: reg };
                }
                let result = self.registers[reg as usize] / 2;
                self.registers[reg as usize] = result;
                self.update_flags(result);
                Control::Continue
            },
            Instruction::Push { reg } => {
                if reg >= 8 {
                    return Control::InvalidRegister { index: reg };
                }
                self.sp = self.sp.wrapping_sub(1);
                self.memory[self.sp as usize] = self.registers[reg as usize];
                Control::Continue
            },
            Instruction::Pop { reg } => {
                if reg >= 8 {
                    return Control::InvalidRegister { index: reg };
                }
                let v = self.memory[self.sp as usize];
                self.registers[reg as usize] = v;
                self.update_flags(v);
                self.sp = self.sp.wrapping_add(1);
                Control::Continue
            },
            Instruction::Jmp { addr } => {
                self.pc = addr;
                Control::Continue
            },
            Instruction::Jz { addr } => {
                if self.flags & FLAG_ZERO != 0 {
                    self.pc = addr;
                }
                Control::Continue
            },
            Instruction::Jnz { addr } => {
                if self.flags & FLAG_ZERO == 0 {
                    self.pc = addr;
                }
                Control::Continue
            },
            Instruction::Unknown { opcode } => Control::UnknownOpcode { opcode },
        }
    }

    /// The two-register arithmetic and logic instructions, which write their
    /// result to register 0; `ra` and `rb` are the instruction's operands.
    fn apply_binary(&mut self, ins: Instruction, ra: u8, rb: u8)
        requires
            ra < 8,
            rb < 8,
            ins == (Instruction::Add { ra, rb }) || ins == (Instruction::Sub { ra, rb }) || ins
                == (Instruction::Mul { ra, rb }) || ins == (Instruction::Div { ra, rb }) || ins
                == (Instruction::And { ra, rb }) || ins == (Instruction::Or { ra, rb }) || ins
                == (Instruction::Xor { ra, rb }),
        ensures
            (final(self)@, Control::Continue) == transition(old(self)@, ins),
    {
        let a = self.registers[ra as usize];
        let b = self.registers[rb as usize];
        match ins {
            Instruction::Add { .. } => self.add(a, b),
            Instruction::Sub { .. } => self.sub(a, b),
            Instruction::Mul { .. } => self.mul(a, b, ra),
            Instruction::Div { .. } => self.div(a, b),
            Instruction::And { .. } => {
                self.registers[0] = a & b;
                self.update_flags(self.registers[ra as usize]);
            },
            Instruction::Or { .. } => {
                self.registers[0] = a | b;
                self.update_flags(self.registers[ra as usize]);
            },
            _ => {
                self.registers[0] = a ^ b;
                self.update_flags(self.registers[ra as usize]);
            },
        }
    }

    /// Register 0 becomes `a + b` modulo 256; CARRY records the wrap.
    fn add(&mut self, a: u8, b: u8)
        ensures
            final(self)@ == old(self)@.set_reg(0, wrap(a + b)).set_flags(
                with_flag(update_zn(old(self).flags, wrap(a + b)), FLAG_CARRY, a + b > 255),
            ),
    {
        let sum = a as u16 + b as u16;
        let result = (sum % 256) as u8;
        self.registers[0] = result;
        self.update_flags(result);
        self.set_flag(FLAG_CARRY, sum > 255);
    }

    /// Register 0 becomes `a - b` modulo 256; CARRY records the borrow.
    fn sub(&mut self, a: u8, b: u8)
        ensures
            final(self)@ == old(self)@.set_reg(0, wrap(a - b)).set_flags(
                with_flag(update_zn(old(self).flags, wrap(a - b)), FLAG_CARRY, a < b),
            ),
    {
        let result = if a >= b {
            a - b
        } else {
            (a as u16 + 256 - b as u16) as u8
        };
        assert(result == wrap(a - b));
        self.registers[0] = result;
        self.update_flags(result);
        self.set_flag(FLAG_CARRY, a < b);
    }

    /// Register 0 becomes the low byte of `a * b`; ZERO and NEGATIVE come
    /// from register `ra` once that is written, and OVERFLOW records whether
    /// the product exceeds a byte.
    fn mul(&mut self, a: u8, b: u8, ra: u8)
        requires
            ra < 8,
        ensures
            ({
                let m1 = old(self)@.set_reg(0, wrap(a * b));
                final(self)@ == m1.set_flags(
                    with_flag(update_zn(old(self).flags, m1.reg(ra)), FLAG_OVERFLOW, a * b > 255),
                )
            }),
    {
        assert(a as u16 * b as u16 <= 65025) by (nonlinear_arith);
        let product = a as u16 * b as u16;
        self.registers[0] = (product % 256) as u8;
        self.update_flags(self.registers[ra as usize]);
        self.set_flag(FLAG_OVERFLOW, product > 255);
    }

    /// Register 0 becomes `a / b`; a zero `b` sets OVERFLOW and changes
    /// nothing else.
    fn div(&mut self, a: u8, b: u8)
        ensures
            b == 0 ==> final(self)@ == old(self)@.set_flags(
                with_flag(old(self).flags, FLAG_OVERFLOW, true),
            ),
            b != 0 ==> final(self)@ == old(self)@.set_reg(0, (a / b) as u8).zn((a / b) as u8),
    {
        if b == 0 {
            self.set_flag(FLAG_OVERFLOW, true);
        } else {
            let result = a / b;
            self.registers[0] = result;
            self.update_flags(result);
        }
    }

    /// Reads the operands of opcode `op` at the program counter, moving the
    /// counter past them, and returns the instruction they form.
    pub fn read_instruction(&mut self, op: u8) -> (ins: Instruction)
        ensures
            (final(self)@, ins) == read_operands(old(self)@, op),
    {
        let n = operand_count(op);
        let first = if n >= 1 {
            self.fetch()
        } else {
            0
        };
        let second = if n >= 2 {
            self.fetch()
        } else {
            0
        };
        let ins = decode_instruction(op, first, second);
        proof {
            let m = old(self)@;
            if n == 1 {
                assert(wrap(wrap(m.pc + 1) + 0) == wrap(m.pc + 1));
            } else if n == 2 {
                assert(wrap(wrap(m.pc + 1) + 1) == wrap(m.pc + 2));
            } else {
                assert(wrap(m.pc + 0) == m.pc);
            }
        }
        ins
    }

    /// Executes the already fetched opcode `instruction`: reads its operands
    /// and applies it. Returns whether and how the machine stops.
    pub fn execute(&mut self, instruction: u8) -> (r: Control)
        ensures
            (final(self)@, r) == execute_spec(old(self)@, instruction),
    {
        let ins = self.read_instruction(instruction);
        self.apply(ins)
    }

    /// One fetch-decode-execute cycle: the instruction executed and what the
    /// machine does next.
    pub fn step(&mut self) -> (r: Step)
        ensures
            (final(self)@, r.control) == step_spec(old(self)@),
            r.opcode == old(self)@.mem(old(self).pc),
            r.instruction == read_operands(
                old(self)@.set_pc(wrap(old(self).pc + 1)),
                old(self)@.mem(old(self).pc),
            ).1,
    {
        let opcode = self.fetch();
        let instruction = self.read_instruction(opcode);
        let control = self.apply(instruction);
        Step { opcode, instruction, control }
    }

    /// Runs at most `max_steps` instructions. Returns how the program
    /// stopped, or `None` when it was still running after `max_steps`.
    pub fn run_steps(&mut self, max_steps: u64) -> (r: Option<Control>)
        ensures
            (final(self)@, r) == run_spec(old(self)@, max_steps as nat),
    {
        let mut fuel = max_steps;
        while fuel > 0
            invariant
                run_spec(self@, fuel as nat) == run_spec(old(self)@, max_steps as nat),
            decreases fuel,
        {
            let s = self.step();
            match s.control {
                Control::Continue => {},
                _ => {
                    return Some(s.control);
                },
            }
            fuel = fuel - 1;
        }
        None
    }

    /// Runs until the program halts, meets an unknown opcode or faults on a
    /// register operand, or has executed `u64::MAX` instructions.
    pub fn run(&mut self) -> (r: Option<Control>)
        ensures
            (final(self)@, r) == run_spec(old(self)@, u64::MAX as nat),
    {
        self.run_steps(u64::MAX)
    }

    /// The eight registers.
    pub fn registers(&self) -> (r: [u8; 8])
        ensures
            r@ == self@.registers,
    {
        self.registers
    }

    /// The address of the next byte to fetch.
    pub fn program_counter(&self) -> (r: u8)
        ensures
            r == self.pc,
    {
        self.pc
    }

    /// The stack pointer: the last byte pushed, or the stack top.
    pub fn stack_pointer(&self) -> (r: u8)
        ensures
            r == self.sp,
    {
        self.sp
    }

    /// The flag byte.
    pub fn flags(&self) -> (r: u8)
        ensures
            r == self.flags,
    {
        self.flags
    }

    /// Whether the named flag `bit` is set.
    pub fn flag(&self, bit: u8) -> (r: bool)
        ensures
            r == flag_is_set(self.flags, bit),
    {
        self.flags & bit != 0
    }
}

} // verus!
