//! The instruction set: operand selectors, the decoded instruction form, and
//! the total decode function from opcode byte to instruction.
//!
//! The 8080 opcode space is highly regular: register and register-pair
//! operands sit in fixed bit fields of the opcode byte.  The decoder exploits
//! that regularity instead of enumerating all 256 opcodes one by one.

use vstd::prelude::*;

verus! {

/// An 8-bit operand location: one of the seven registers, or the memory cell
/// addressed by the H/L pair (`Mem`).
#[derive(Clone, Copy, PartialEq, Eq, Structural, Debug)]
pub enum Reg {
    B,
    C,
    D,
    E,
    H,
    L,
    Mem,
    A,
}

/// A 16-bit operand location: one of the three register pairs or the stack
/// pointer.
#[derive(Clone, Copy, PartialEq, Eq, Structural, Debug)]
pub enum RegPair {
    BC,
    DE,
    HL,
    SP,
}

/// A pushable 16-bit location: a register pair or the program status word
/// (accumulator plus packed flags).
#[derive(Clone, Copy, PartialEq, Eq, Structural, Debug)]
pub enum StackPair {
    BC,
    DE,
    HL,
    PSW,
}

/// A condition code tested by conditional jumps, calls and returns.
#[derive(Clone, Copy, PartialEq, Eq, Structural, Debug)]
pub enum Cond {
    NotZero,
    Zero,
    NotCarry,
    Carry,
    ParityOdd,
    ParityEven,
    Plus,
    Minus,
}

/// An arithmetic/logic operation routed through the accumulator.
#[derive(Clone, Copy, PartialEq, Eq, Structural, Debug)]
pub enum AluOp {
    AddOp,
    AdcOp,
    SubOp,
    SbbOp,
    AndOp,
    XorOp,
    OrOp,
    CmpOp,
}

/// A rotate of the accumulator by one bit position.
#[derive(Clone, Copy, PartialEq, Eq, Structural, Debug)]
pub enum RotOp {
    /// Rotate left; carry receives the bit shifted out of bit 7.
    Rlc,
    /// Rotate right; carry receives the bit shifted out of bit 0.
    Rrc,
    /// Rotate left through carry.
    Ral,
    /// Rotate right through carry.
    Rar,
}

/// A decoded instruction: the behavior an opcode selects, with its operand
/// selectors resolved from the opcode's bit fields.
#[derive(Clone, Copy, PartialEq, Eq, Structural, Debug)]
pub enum Instr {
    Nop,
    /// MOV dst, src; MOV M,M does not exist (that encoding is HLT).
    Mov(Reg, Reg),
    /// MVI dst, immediate byte.
    Mvi(Reg),
    /// LXI pair, immediate word.
    Lxi(RegPair),
    /// LDA: accumulator from absolute address.
    Lda,
    /// STA: accumulator to absolute address.
    Sta,
    /// LHLD: H/L from the word at an absolute address.
    Lhld,
    /// SHLD: H/L to the word at an absolute address.
    Shld,
    /// LDAX: accumulator from the cell addressed by B/C or D/E.
    Ldax(RegPair),
    /// STAX: accumulator to the cell addressed by B/C or D/E.
    Stax(RegPair),
    /// XCHG: swap D/E with H/L.
    Xchg,
    /// Arithmetic/logic with a register or memory operand.
    Alu(AluOp, Reg),
    /// Arithmetic/logic with an immediate byte operand.
    AluImm(AluOp),
    /// INR: 8-bit increment of a register or memory cell.
    Inr(Reg),
    /// DCR: 8-bit decrement of a register or memory cell.
    Dcr(Reg),
    /// INX: 16-bit increment of a pair, no flags.
    Inx(RegPair),
    /// DCX: 16-bit decrement of a pair, no flags.
    Dcx(RegPair),
    /// DAD: 16-bit add of a pair into H/L, carry only.
    Dad(RegPair),
    /// Rotate the accumulator.
    Rot(RotOp),
    /// CMA: complement the accumulator, no flags.
    Cma,
    /// STC: set carry.
    Stc,
    /// CMC: complement carry.
    Cmc,
    /// JMP: unconditional jump to an absolute address.
    Jmp,
    /// Conditional jump.
    JmpIf(Cond),
    /// CALL: push the return address, then jump.
    Call,
    /// Conditional call.
    CallIf(Cond),
    /// RET: pop the return address and jump to it.
    Ret,
    /// Conditional return.
    RetIf(Cond),
    /// RST n: call the fixed address `8 * n`; the operand is in 0..8.
    Rst(u8),
    /// PUSH: decrement the stack pointer by two, then store the word.
    Push(StackPair),
    /// POP: load the word, then increment the stack pointer by two.
    Pop(StackPair),
    /// XTHL: swap H/L with the word at the top of the stack.
    Xthl,
    /// PCHL: program counter from H/L.
    Pchl,
    /// SPHL: stack pointer from H/L.
    Sphl,
    /// IN port: read a byte from the port hook into the accumulator.
    InPort,
    /// OUT port: hand the accumulator to the port hook.
    OutPort,
    /// EI: set the interrupt-enable bit.
    Ei,
    /// DI: clear the interrupt-enable bit.
    Di,
    /// HLT: terminal halt.
    Hlt,
    /// An opcode this instruction set leaves unmapped: a fault.
    Undefined,
}

/// The register selected by a three-bit opcode field.
pub open spec fn spec_reg_sel(n: u8) -> Reg {
    if n == 0 {
        Reg::B
    } else if n == 1 {
        Reg::C
    } else if n == 2 {
        Reg::D
    } else if n == 3 {
        Reg::E
    } else if n == 4 {
        Reg::H
    } else if n == 5 {
        Reg::L
    } else if n == 6 {
        Reg::Mem
    } else {
        Reg::A
    }
}

/// The register pair selected by a two-bit opcode field.
pub open spec fn spec_pair_sel(n: u8) -> RegPair {
    if n == 0 {
        RegPair::BC
    } else if n == 1 {
        RegPair::DE
    } else if n == 2 {
        RegPair::HL
    } else {
        RegPair::SP
    }
}

/// The pushable pair selected by a two-bit opcode field.
pub open spec fn spec_stack_sel(n: u8) -> StackPair {
    if n == 0 {
        StackPair::BC
    } else if n == 1 {
        StackPair::DE
    } else if n == 2 {
        StackPair::HL
    } else {
        StackPair::PSW
    }
}

/// The condition selected by a three-bit opcode field.
pub open spec fn spec_cond_sel(n: u8) -> Cond {
    if n == 0 {
        Cond::NotZero
    } else if n == 1 {
        Cond::Zero
    } else if n == 2 {
        Cond::NotCarry
    } else if n == 3 {
        Cond::Carry
    } else if n == 4 {
        Cond::ParityOdd
    } else if n == 5 {
        Cond::ParityEven
    } else if n == 6 {
        Cond::Plus
    } else {
        Cond::Minus
    }
}

/// The arithmetic/logic operation selected by a three-bit opcode field.
pub open spec fn spec_alu_sel(n: u8) -> AluOp {
    if n == 0 {
        AluOp::AddOp
    } else if n == 1 {
        AluOp::AdcOp
    } else if n == 2 {
        AluOp::SubOp
    } else if n == 3 {
        AluOp::SbbOp
    } else if n == 4 {
        AluOp::AndOp
    } else if n == 5 {
        AluOp::XorOp
    } else if n == 6 {
        AluOp::OrOp
    } else {
        AluOp::CmpOp
    }
}

/// The total decode function: the behavior of each of the 256 opcode bytes.
/// The opcodes this instruction set leaves unmapped — the gaps of the 8080
/// map (0x08, 0x10, 0x18, 0x28, 0x38, 0xCB, 0xD9, 0xDD, 0xED, 0xFD), the
/// 8085-only RIM and SIM slots (0x20, 0x30), and the decimal adjust DAA
/// (0x27), whose semantics this machine does not define — decode to
/// `Undefined` and fault.
pub open spec fn spec_decode(op: u8) -> Instr {
    if op == 0x00 {
        Instr::Nop
    } else if op == 0x76 {
        Instr::Hlt
    } else if 0x40 <= op && op < 0x80 {
        Instr::Mov(spec_reg_sel((op >> 3) & 7), spec_reg_sel(op & 7))
    } else if 0x80 <= op && op < 0xC0 {
        Instr::Alu(spec_alu_sel((op >> 3) & 7), spec_reg_sel(op & 7))
    } else if op == 0x07 {
        Instr::Rot(RotOp::Rlc)
    } else if op == 0x0F {
        Instr::Rot(RotOp::Rrc)
    } else if op == 0x17 {
        Instr::Rot(RotOp::Ral)
    } else if op == 0x1F {
        Instr::Rot(RotOp::Rar)
    } else if op == 0x02 || op == 0x12 {
        Instr::Stax(spec_pair_sel((op >> 4) & 3))
    } else if op == 0x0A || op == 0x1A {
        Instr::Ldax(spec_pair_sel((op >> 4) & 3))
    } else if op == 0x22 {
        Instr::Shld
    } else if op == 0x2A {
        Instr::Lhld
    } else if op == 0x32 {
        Instr::Sta
    } else if op == 0x3A {
        Instr::Lda
    } else if op == 0x2F {
        Instr::Cma
    } else if op == 0x37 {
        Instr::Stc
    } else if op == 0x3F {
        Instr::Cmc
    } else if op < 0x40 && (op & 0xC7) == 0x04 {
        Instr::Inr(spec_reg_sel((op >> 3) & 7))
    } else if op < 0x40 && (op & 0xC7) == 0x05 {
        Instr::Dcr(spec_reg_sel((op >> 3) & 7))
    } else if op < 0x40 && (op & 0xC7) == 0x06 {
        Instr::Mvi(spec_reg_sel((op >> 3) & 7))
    } else if op < 0x40 && (op & 0xCF) == 0x01 {
        Instr::Lxi(spec_pair_sel((op >> 4) & 3))
    } else if op < 0x40 && (op & 0xCF) == 0x03 {
        Instr::Inx(spec_pair_sel((op >> 4) & 3))
    } else if op < 0x40 && (op & 0xCF) == 0x09 {
        Instr::Dad(spec_pair_sel((op >> 4) & 3))
    } else if op < 0x40 && (op & 0xCF) == 0x0B {
        Instr::Dcx(spec_pair_sel((op >> 4) & 3))
    } else if op == 0xC3 {
        Instr::Jmp
    } else if op == 0xC9 {
        Instr::Ret
    } else if op == 0xCD {
        Instr::Call
    } else if op == 0xE3 {
        Instr::Xthl
    } else if op == 0xE9 {
        Instr::Pchl
    } else if op == 0xEB {
        Instr::Xchg
    } else if op == 0xF9 {
        Instr::Sphl
    } else if op == 0xD3 {
        Instr::OutPort
    } else if op == 0xDB {
        Instr::InPort
    } else if op == 0xF3 {
        Instr::Di
    } else if op == 0xFB {
        Instr::Ei
    } else if op >= 0xC0 && (op & 0xC7) == 0xC0 {
        Instr::RetIf(spec_cond_sel((op >> 3) & 7))
    } else if op >= 0xC0 && (op & 0xC7) == 0xC2 {
        Instr::JmpIf(spec_cond_sel((op >> 3) & 7))
    } else if op >= 0xC0 && (op & 0xC7) == 0xC4 {
        Instr::CallIf(spec_cond_sel((op >> 3) & 7))
    } else if op >= 0xC0 && (op & 0xC7) == 0xC6 {
        Instr::AluImm(spec_alu_sel((op >> 3) & 7))
    } else if op >= 0xC0 && (op & 0xC7) == 0xC7 {
        Instr::Rst((op >> 3) & 7)
    } else if op >= 0xC0 && (op & 0xCF) == 0xC1 {
        Instr::Pop(spec_stack_sel((op >> 4) & 3))
    } else if op >= 0xC0 && (op & 0xCF) == 0xC5 {
        Instr::Push(spec_stack_sel((op >> 4) & 3))
    } else {
        Instr::Undefined
    }
}

/// The register selected by a three-bit opcode field.
pub fn reg_sel(n: u8) -> (r: Reg)
    ensures
        r == spec_reg_sel(n),
{
    if n == 0 {
        Reg::B
    } else if n == 1 {
        Reg::C
    } else if n == 2 {
        Reg::D
    } else if n == 3 {
        Reg::E
    } else if n == 4 {
        Reg::H
    } else if n == 5 {
        Reg::L
    } else if n == 6 {
        Reg::Mem
    } else {
        Reg::A
    }
}

/// The register pair selected by a two-bit opcode field.
pub fn pair_sel(n: u8) -> (r: RegPair)
    ensures
        r == spec_pair_sel(n),
{
    if n == 0 {
        RegPair::BC
    } else if n == 1 {
        RegPair::DE
    } else if n == 2 {
        RegPair::HL
    } else {
        RegPair::SP
    }
}

/// The pushable pair selected by a two-bit opcode field.
pub fn stack_sel(n: u8) -> (r: StackPair)
    ensures
        r == spec_stack_sel(n),
{
    if n == 0 {
        StackPair::BC
    } else if n == 1 {
        StackPair::DE
    } else if n == 2 {
        StackPair::HL
    } else {
        StackPair::PSW
    }
}

/// The condition selected by a three-bit opcode field.
pub fn cond_sel(n: u8) -> (r: Cond)
    ensures
        r == spec_cond_sel(n),
{
    if n == 0 {
        Cond::NotZero
    } else if n == 1 {
        Cond::Zero
    } else if n == 2 {
        Cond::NotCarry
    } else if n == 3 {
        Cond::Carry
    } else if n == 4 {
        Cond::ParityOdd
    } else if n == 5 {
        Cond::ParityEven
    } else if n == 6 {
        Cond::Plus
    } else {
        Cond::Minus
    }
}

/// The arithmetic/logic operation selected by a three-bit opcode field.
pub fn alu_sel(n: u8) -> (r: AluOp)
    ensures
        r == spec_alu_sel(n),
{
    if n == 0 {
        AluOp::AddOp
    } else if n == 1 {
        AluOp::AdcOp
    } else if n == 2 {
        AluOp::SubOp
    } else if n == 3 {
        AluOp::SbbOp
    } else if n == 4 {
        AluOp::AndOp
    } else if n == 5 {
        AluOp::XorOp
    } else if n == 6 {
        AluOp::OrOp
    } else {
        AluOp::CmpOp
    }
}

/// Decodes one opcode byte; total over all 256 values.
pub fn decode(op: u8) -> (i: Instr)
    ensures
        i == spec_decode(op),
{
    if op == 0x00 {
        Instr::Nop
    } else if op == 0x76 {
        Instr::Hlt
    } else if 0x40 <= op && op < 0x80 {
        Instr::Mov(reg_sel((op >> 3) & 7), reg_sel(op & 7))
    } else if 0x80 <= op && op < 0xC0 {
        Instr::Alu(alu_sel((op >> 3) & 7), reg_sel(op & 7))
    } else if op == 0x07 {
        Instr::Rot(RotOp::Rlc)
    } else if op == 0x0F {
        Instr::Rot(RotOp::Rrc)
    } else if op == 0x17 {
        Instr::Rot(RotOp::Ral)
    } else if op == 0x1F {
        Instr::Rot(RotOp::Rar)
    } else if op == 0x02 || op == 0x12 {
        Instr::Stax(pair_sel((op >> 4) & 3))
    } else if op == 0x0A || op == 0x1A {
        Instr::Ldax(pair_sel((op >> 4) & 3))
    } else if op == 0x22 {
        Instr::Shld
    } else if op == 0x2A {
        Instr::Lhld
    } else if op == 0x32 {
        Instr::Sta
    } else if op == 0x3A {
        Instr::Lda
    } else if op == 0x2F {
        Instr::Cma
    } else if op == 0x37 {
        Instr::Stc
    } else if op == 0x3F {
        Instr::Cmc
    } else if op < 0x40 && (op & 0xC7) == 0x04 {
        Instr::Inr(reg_sel((op >> 3) & 7))
    } else if op < 0x40 && (op & 0xC7) == 0x05 {
        Instr::Dcr(reg_sel((op >> 3) & 7))
    } else if op < 0x40 && (op & 0xC7) == 0x06 {
        Instr::Mvi(reg_sel((op >> 3) & 7))
    } else if op < 0x40 && (op & 0xCF) == 0x01 {
        Instr::Lxi(pair_sel((op >> 4) & 3))
    } else if op < 0x40 && (op & 0xCF) == 0x03 {
        Instr::Inx(pair_sel((op >> 4) & 3))
    } else if op < 0x40 && (op & 0xCF) == 0x09 {
        Instr::Dad(pair_sel((op >> 4) & 3))
    } else if op < 0x40 && (op & 0xCF) == 0x0B {
        Instr::Dcx(pair_sel((op >> 4) & 3))
    } else if op == 0xC3 {
        Instr::Jmp
    } else if op == 0xC9 {
        Instr::Ret
    } else if op == 0xCD {
        Instr::Call
    } else if op == 0xE3 {
        Instr::Xthl
    } else if op == 0xE9 {
        Instr::Pchl
    } else if op == 0xEB {
        Instr::Xchg
    } else if op == 0xF9 {
        Instr::Sphl
    } else if op == 0xD3 {
        Instr::OutPort
    } else if op == 0xDB {
        Instr::InPort
    } else if op == 0xF3 {
        Instr::Di
    } else if op == 0xFB {
        Instr::Ei
    } else if op >= 0xC0 && (op & 0xC7) == 0xC0 {
        Instr::RetIf(cond_sel((op >> 3) & 7))
    } else if op >= 0xC0 && (op & 0xC7) == 0xC2 {
        Instr::JmpIf(cond_sel((op >> 3) & 7))
    } else if op >= 0xC0 && (op & 0xC7) == 0xC4 {
        Instr::CallIf(cond_sel((op >> 3) & 7))
    } else if op >= 0xC0 && (op & 0xC7) == 0xC6 {
        Instr::AluImm(alu_sel((op >> 3) & 7))
    } else if op >= 0xC0 && (op & 0xC7) == 0xC7 {
        Instr::Rst((op >> 3) & 7)
    } else if op >= 0xC0 && (op & 0xCF) == 0xC1 {
        Instr::Pop(stack_sel((op >> 4) & 3))
    } else if op >= 0xC0 && (op & 0xCF) == 0xC5 {
        Instr::Push(stack_sel((op >> 4) & 3))
    } else {
        Instr::Undefined
    }
}

} // verus!

