//! The mathematical model of the machine: the processor-state view, the
//! status state machine, and the semantics of every instruction as pure
//! functions over the view.  The executable emulator is proved to follow
//! `step_view` exactly.

use vstd::prelude::*;

use crate::flags::ConditionCodes;
use crate::flags::pack_cc;
use crate::flags::spec_parity;
use crate::flags::unpack_cc;
use crate::isa::AluOp;
use crate::isa::Cond;
use crate::isa::Instr;
use crate::isa::Reg;
use crate::isa::RegPair;
use crate::isa::RotOp;
use crate::isa::StackPair;
use crate::memory::succ_addr;
use crate::memory::word_at;
use crate::memory::word_from;
use crate::memory::word_write;

verus! {

/// The execution status: `Standby` before the first step, `Running` during
/// normal execution, and the two terminal states.  No transition leaves
/// `Halted` or `Faulted`.
#[derive(Clone, Copy, PartialEq, Eq, Structural, Debug)]
pub enum Status {
    /// Before the first step.
    Standby,
    /// Normal execution.
    Running,
    /// HLT was executed; terminal.
    Halted,
    /// Execution cannot proceed; terminal.  Records the unknown opcode and
    /// the address it was fetched from.
    Faulted { opcode: u8, addr: u16 },
}

/// True of the two statuses that no transition leaves.
pub open spec fn is_terminal(s: Status) -> bool {
    s is Halted || s is Faulted
}

/// The complete machine state, as mathematics: the seven 8-bit registers,
/// the two 16-bit registers, the memory contents, the flags, the
/// interrupt-enable bit and the status.
#[verifier::ext_equal]
pub ghost struct EmuView {
    pub a: u8,
    pub b: u8,
    pub c: u8,
    pub d: u8,
    pub e: u8,
    pub h: u8,
    pub l: u8,
    pub sp: u16,
    pub pc: u16,
    pub mem: Seq<u8>,
    pub cc: ConditionCodes,
    pub int_enable: bool,
    pub status: Status,
}

/// A well-formed state covers the whole 16-bit address space.
pub open spec fn wf_view(v: EmuView) -> bool {
    v.mem.len() == 65536
}

/// `x` reduced to a 16-bit address, wrapping modulo 65536.
pub open spec fn wrap16(x: int) -> u16 {
    (x % 65536) as u16
}

/// The value of an 8-bit operand location; `Mem` reads the cell addressed by
/// the H/L pair.
pub open spec fn reg_val(v: EmuView, r: Reg) -> u8 {
    match r {
        Reg::B => v.b,
        Reg::C => v.c,
        Reg::D => v.d,
        Reg::E => v.e,
        Reg::H => v.h,
        Reg::L => v.l,
        Reg::Mem => v.mem[word_from(v.l, v.h) as int],
        Reg::A => v.a,
    }
}

/// The state with an 8-bit operand location set; `Mem` writes the cell
/// addressed by the H/L pair.
pub open spec fn set_reg(v: EmuView, r: Reg, x: u8) -> EmuView {
    match r {
        Reg::B => EmuView { b: x, ..v },
        Reg::C => EmuView { c: x, ..v },
        Reg::D => EmuView { d: x, ..v },
        Reg::E => EmuView { e: x, ..v },
        Reg::H => EmuView { h: x, ..v },
        Reg::L => EmuView { l: x, ..v },
        Reg::Mem => EmuView { mem: v.mem.update(word_from(v.l, v.h) as int, x), ..v },
        Reg::A => EmuView { a: x, ..v },
    }
}

/// The 16-bit value of a register pair: the high register forms bits 15-8.
pub open spec fn pair_val(v: EmuView, p: RegPair) -> u16 {
    match p {
        RegPair::BC => word_from(v.c, v.b),
        RegPair::DE => word_from(v.e, v.d),
        RegPair::HL => word_from(v.l, v.h),
        RegPair::SP => v.sp,
    }
}

/// The state with a register pair set from a 16-bit value.
pub open spec fn set_pair(v: EmuView, p: RegPair, w: u16) -> EmuView {
    match p {
        RegPair::BC => EmuView { b: (w / 256) as u8, c: (w % 256) as u8, ..v },
        RegPair::DE => EmuView { d: (w / 256) as u8, e: (w % 256) as u8, ..v },
        RegPair::HL => EmuView { h: (w / 256) as u8, l: (w % 256) as u8, ..v },
        RegPair::SP => EmuView { sp: w, ..v },
    }
}

/// The 16-bit value pushed for a stack selector: a register pair, or the
/// program status word (accumulator high, packed flags low).
pub open spec fn stack_val(v: EmuView, s: StackPair) -> u16 {
    match s {
        StackPair::BC => word_from(v.c, v.b),
        StackPair::DE => word_from(v.e, v.d),
        StackPair::HL => word_from(v.l, v.h),
        StackPair::PSW => word_from(pack_cc(v.cc), v.a),
    }
}

/// The state with a stack selector restored from a popped 16-bit value.
pub open spec fn set_stack(v: EmuView, s: StackPair, w: u16) -> EmuView {
    match s {
        StackPair::BC => EmuView { b: (w / 256) as u8, c: (w % 256) as u8, ..v },
        StackPair::DE => EmuView { d: (w / 256) as u8, e: (w % 256) as u8, ..v },
        StackPair::HL => EmuView { h: (w / 256) as u8, l: (w % 256) as u8, ..v },
        StackPair::PSW => EmuView {
            a: (w / 256) as u8,
            cc: unpack_cc((w % 256) as u8),
            ..v
        },
    }
}

/// Whether a condition code holds of the flags.
pub open spec fn cond_val(cc: ConditionCodes, c: Cond) -> bool {
    match c {
        Cond::NotZero => !cc.zero,
        Cond::Zero => cc.zero,
        Cond::NotCarry => !cc.carry,
        Cond::Carry => cc.carry,
        Cond::ParityOdd => !cc.parity,
        Cond::ParityEven => cc.parity,
        Cond::Plus => !cc.sign,
        Cond::Minus => cc.sign,
    }
}

/// The flags recomputed from a result byte: zero iff the result is 0, sign
/// iff bit 7 is set, parity iff the result has an even number of set bits;
/// carry and auxiliary carry as the operation determined them.
pub open spec fn zsp_cc(r: u8, carry: bool, aux: bool) -> ConditionCodes {
    ConditionCodes {
        zero: r == 0,
        sign: r >= 128,
        parity: spec_parity(r),
        carry,
        aux_carry: aux,
    }
}

/// The result byte, carry and auxiliary carry of one arithmetic/logic
/// operation on the accumulator value `a` and operand `b`, with carry-in
/// taken from `carry_in` for the with-carry forms.
pub open spec fn alu8(op: AluOp, a: u8, b: u8, carry_in: bool) -> (u8, bool, bool) {
    let cin: int = if carry_in {
        1
    } else {
        0
    };
    match op {
        AluOp::AddOp => (((a + b) % 256) as u8, a + b >= 256, (a & 0xF) + (b & 0xF) >= 16),
        AluOp::AdcOp => (
            ((a + b + cin) % 256) as u8,
            a + b + cin >= 256,
            (a & 0xF) + (b & 0xF) + cin >= 16,
        ),
        AluOp::SubOp => (((a + 256 - b) % 256) as u8, (a as int) < b, ((a & 0xF) as int) < (b
            & 0xF)),
        AluOp::SbbOp => (
            ((a + 256 - b - cin) % 256) as u8,
            (a as int) < b + cin,
            ((a & 0xF) as int) < (b & 0xF) + cin,
        ),
        AluOp::AndOp => (a & b, false, false),
        AluOp::XorOp => (a ^ b, false, false),
        AluOp::OrOp => (a | b, false, false),
        AluOp::CmpOp => (((a + 256 - b) % 256) as u8, (a as int) < b, ((a & 0xF) as int) < (b
            & 0xF)),
    }
}

/// The state after one arithmetic/logic operation: the accumulator receives
/// the result (except for compare, which only sets flags), and all five
/// flags are recomputed.
pub open spec fn alu_state(v: EmuView, op: AluOp, b: u8) -> EmuView {
    let out = alu8(op, v.a, b, v.cc.carry);
    EmuView {
        a: if op is CmpOp {
            v.a
        } else {
            out.0
        },
        cc: zsp_cc(out.0, out.1, out.2),
        ..v
    }
}

/// The immediate byte following the opcode.
pub open spec fn imm8(v: EmuView) -> u8 {
    v.mem[succ_addr(v.pc) as int]
}

/// The immediate little-endian word following the opcode.
pub open spec fn imm16(v: EmuView) -> u16 {
    word_at(v.mem, succ_addr(v.pc))
}

/// The state with the program counter advanced by the instruction length,
/// wrapping modulo 65536.
pub open spec fn adv(v: EmuView, n: int) -> EmuView {
    EmuView { pc: wrap16(v.pc + n), ..v }
}

/// The state with `w` pushed: the stack pointer moves down by two, then the
/// word is stored at the new top of stack.
pub open spec fn push_state(v: EmuView, w: u16) -> EmuView {
    EmuView {
        sp: wrap16(v.sp + 65534),
        mem: word_write(v.mem, wrap16(v.sp + 65534), w),
        ..v
    }
}

/// The state after an unconditional call of `target`: the address of the
/// following instruction is pushed, then execution jumps.
pub open spec fn call_state(v: EmuView) -> EmuView {
    let target = imm16(v);
    EmuView { pc: target, ..push_state(v, wrap16(v.pc + 3)) }
}

/// The state after an unconditional return: the word at the top of the
/// stack becomes the program counter and the stack pointer moves up by two.
pub open spec fn ret_state(v: EmuView) -> EmuView {
    EmuView { pc: word_at(v.mem, v.sp), sp: wrap16(v.sp + 2), ..v }
}

/// The state after a PUSH: the stack pointer moves down by two, the pair's
/// word (or the program status word) is stored there, and the program
/// counter advances.
pub open spec fn push_sem(v: EmuView, s: StackPair) -> EmuView {
    adv(push_state(v, stack_val(v, s)), 1)
}

/// The state after a POP: the word at the top of the stack is loaded into
/// the pair (or into the accumulator and flags, for the program status
/// word), the stack pointer moves up by two, and the program counter
/// advances.
pub open spec fn pop_sem(v: EmuView, s: StackPair) -> EmuView {
    adv(set_stack(EmuView { sp: wrap16(v.sp + 2), ..v }, s, word_at(v.mem, v.sp)), 1)
}

/// The state after an 8-bit increment of a location: wraps modulo 256,
/// recomputes zero, sign, parity and auxiliary carry, and never touches the
/// carry flag.
pub open spec fn inr_state(v: EmuView, r: Reg) -> EmuView {
    let x = reg_val(v, r);
    let nv = ((x + 1) % 256) as u8;
    let flagged = EmuView {
        cc: ConditionCodes {
            zero: nv == 0,
            sign: nv >= 128,
            parity: spec_parity(nv),
            carry: v.cc.carry,
            aux_carry: (x & 0xF) + 1 >= 16,
        },
        ..v
    };
    adv(set_reg(flagged, r, nv), 1)
}

/// The state after an 8-bit decrement of a location: wraps modulo 256,
/// recomputes zero, sign, parity and auxiliary carry (a borrow out of bit
/// 3, i.e. the low nibble was zero), and never touches the carry flag.
pub open spec fn dcr_state(v: EmuView, r: Reg) -> EmuView {
    let x = reg_val(v, r);
    let nv = ((x + 255) % 256) as u8;
    let flagged = EmuView {
        cc: ConditionCodes {
            zero: nv == 0,
            sign: nv >= 128,
            parity: spec_parity(nv),
            carry: v.cc.carry,
            aux_carry: (x & 0xF) == 0,
        },
        ..v
    };
    adv(set_reg(flagged, r, nv), 1)
}

/// The state after a rotate of the accumulator by one bit position.
pub open spec fn rot_state(v: EmuView, r: RotOp) -> EmuView {
    let a = v.a;
    let cin: int = if v.cc.carry {
        1
    } else {
        0
    };
    let out: (u8, bool) = match r {
        RotOp::Rlc => (((a % 128) * 2 + a / 128) as u8, a >= 128),
        RotOp::Rrc => ((a / 2 + (a % 2) * 128) as u8, a % 2 == 1),
        RotOp::Ral => (((a % 128) * 2 + cin) as u8, a >= 128),
        RotOp::Rar => ((a / 2 + cin * 128) as u8, a % 2 == 1),
    };
    adv(
        EmuView { a: out.0, cc: ConditionCodes { carry: out.1, ..v.cc }, ..v },
        1,
    )
}

/// The meaning of one decoded instruction as a state transformer.  The
/// status is already `Running` here; only HLT and undefined opcodes change
/// it further.
#[verifier::opaque]
pub open spec fn instr_sem(v: EmuView, i: Instr) -> EmuView {
    match i {
        Instr::Nop => adv(v, 1),
        Instr::Mov(d, s) => adv(set_reg(v, d, reg_val(v, s)), 1),
        Instr::Mvi(d) => adv(set_reg(v, d, imm8(v)), 2),
        Instr::Lxi(p) => adv(set_pair(v, p, imm16(v)), 3),
        Instr::Lda => adv(EmuView { a: v.mem[imm16(v) as int], ..v }, 3),
        Instr::Sta => adv(EmuView { mem: v.mem.update(imm16(v) as int, v.a), ..v }, 3),
        Instr::Lhld => adv(set_pair(v, RegPair::HL, word_at(v.mem, imm16(v))), 3),
        Instr::Shld => adv(
            EmuView { mem: word_write(v.mem, imm16(v), word_from(v.l, v.h)), ..v },
            3,
        ),
        Instr::Ldax(p) => adv(EmuView { a: v.mem[pair_val(v, p) as int], ..v }, 1),
        Instr::Stax(p) => adv(EmuView { mem: v.mem.update(pair_val(v, p) as int, v.a), ..v }, 1),
        Instr::Xchg => adv(EmuView { d: v.h, e: v.l, h: v.d, l: v.e, ..v }, 1),
        Instr::Alu(op, s) => adv(alu_state(v, op, reg_val(v, s)), 1),
        Instr::AluImm(op) => adv(alu_state(v, op, imm8(v)), 2),
        Instr::Inr(r) => inr_state(v, r),
        Instr::Dcr(r) => dcr_state(v, r),
        Instr::Inx(p) => adv(set_pair(v, p, wrap16(pair_val(v, p) + 1)), 1),
        Instr::Dcx(p) => adv(set_pair(v, p, wrap16(pair_val(v, p) + 65535)), 1),
        Instr::Dad(p) => {
            let s: int = word_from(v.l, v.h) + pair_val(v, p);
            adv(
                set_pair(
                    EmuView { cc: ConditionCodes { carry: s >= 65536, ..v.cc }, ..v },
                    RegPair::HL,
                    wrap16(s),
                ),
                1,
            )
        },
        Instr::Rot(r) => rot_state(v, r),
        Instr::Cma => adv(EmuView { a: (255 - v.a) as u8, ..v }, 1),
        Instr::Stc => adv(EmuView { cc: ConditionCodes { carry: true, ..v.cc }, ..v }, 1),
        Instr::Cmc => adv(EmuView { cc: ConditionCodes { carry: !v.cc.carry, ..v.cc }, ..v }, 1),
        Instr::Jmp => EmuView { pc: imm16(v), ..v },
        Instr::JmpIf(c) => if cond_val(v.cc, c) {
            EmuView { pc: imm16(v), ..v }
        } else {
            adv(v, 3)
        },
        Instr::Call => call_state(v),
        Instr::CallIf(c) => if cond_val(v.cc, c) {
            call_state(v)
        } else {
            adv(v, 3)
        },
        Instr::Ret => ret_state(v),
        Instr::RetIf(c) => if cond_val(v.cc, c) {
            ret_state(v)
        } else {
            adv(v, 1)
        },
        Instr::Rst(n) => EmuView { pc: wrap16(8 * n), ..push_state(v, wrap16(v.pc + 1)) },
        Instr::Push(s) => push_sem(v, s),
        Instr::Pop(s) => pop_sem(v, s),
        Instr::Xthl => {
            let w = word_at(v.mem, v.sp);
            adv(
                EmuView {
                    mem: word_write(v.mem, v.sp, word_from(v.l, v.h)),
                    h: (w / 256) as u8,
                    l: (w % 256) as u8,
                    ..v
                },
                1,
            )
        },
        Instr::Pchl => EmuView { pc: word_from(v.l, v.h), ..v },
        Instr::Sphl => adv(EmuView { sp: word_from(v.l, v.h), ..v }, 1),
        Instr::InPort => adv(EmuView { a: 0, ..v }, 2),
        Instr::OutPort => adv(v, 2),
        Instr::Ei => adv(EmuView { int_enable: true, ..v }, 1),
        Instr::Di => adv(EmuView { int_enable: false, ..v }, 1),
        Instr::Hlt => EmuView { status: Status::Halted, ..v },
        Instr::Undefined => EmuView {
            status: Status::Faulted { opcode: v.mem[v.pc as int], addr: v.pc },
            ..v
        },
    }
}

/// One step of the machine: a terminal state is left unchanged; otherwise
/// the status becomes `Running`, the opcode at the program counter is
/// fetched, decoded and executed.
pub open spec fn step_view(v: EmuView) -> EmuView {
    if is_terminal(v.status) {
        v
    } else {
        let running = EmuView { status: Status::Running, ..v };
        instr_sem(running, crate::isa::spec_decode(v.mem[v.pc as int]))
    }
}

/// Up to `fuel` steps of the machine, stopping early at a terminal status.
pub open spec fn run_view(v: EmuView, fuel: nat) -> EmuView
    decreases fuel,
{
    if fuel == 0 || is_terminal(v.status) {
        v
    } else {
        run_view(step_view(v), (fuel - 1) as nat)
    }
}

/// No transition leaves `Halted` or `Faulted`: a terminal state is a fixed
/// point of the step function.
pub proof fn lemma_terminal_is_fixed(v: EmuView)
    requires
        is_terminal(v.status),
    ensures
        step_view(v) == v,
{
}

/// Stepping preserves well-formedness: memory never changes size.
pub proof fn lemma_step_wf(v: EmuView)
    requires
        wf_view(v),
    ensures
        wf_view(step_view(v)),
{
    reveal(instr_sem);
}

/// Increment and decrement never modify the carry flag, for every operand
/// location, every input value and every preceding carry state.
pub proof fn lemma_inr_dcr_preserve_carry(v: EmuView, r: Reg)
    ensures
        instr_sem(v, Instr::Inr(r)).cc.carry == v.cc.carry,
        instr_sem(v, Instr::Dcr(r)).cc.carry == v.cc.carry,
{
    reveal(instr_sem);
}

/// PUSH then POP of the same register pair (or of the program status word)
/// restores that pair's value and the stack pointer, for every starting
/// state with stack pointer at least 2.
/// PUSH then POP of the same selector restores its value and the stack
/// pointer, stated over the named push and pop semantics.
pub proof fn lemma_push_pop_sem(v: EmuView, s: StackPair)
    requires
        wf_view(v),
        v.sp >= 2,
    ensures
        stack_val(pop_sem(push_sem(v, s), s), s) == stack_val(v, s),
        pop_sem(push_sem(v, s), s).sp == v.sp,
{
    let w = stack_val(v, s);
    let v1 = push_sem(v, s);
    let v2 = pop_sem(v1, s);
    let sp2: u16 = (v.sp - 2) as u16;
    assert(wrap16(v.sp + 65534) == sp2);
    assert(v1.sp == sp2);
    assert(v1.mem == word_write(v.mem, sp2, w));
    crate::memory::lemma_word_write_read(v.mem, sp2, w);
    assert(word_at(v1.mem, v1.sp) == w);
    assert(v2.sp == wrap16(sp2 + 2));
    assert(wrap16(sp2 + 2) == v.sp);
    match s {
        StackPair::BC => {
            assert(v2.b == (w / 256) as u8 && v2.c == (w % 256) as u8);
            assert(stack_val(v2, s) == w);
        },
        StackPair::DE => {
            assert(v2.d == (w / 256) as u8 && v2.e == (w % 256) as u8);
            assert(stack_val(v2, s) == w);
        },
        StackPair::HL => {
            assert(v2.h == (w / 256) as u8 && v2.l == (w % 256) as u8);
            assert(stack_val(v2, s) == w);
        },
        StackPair::PSW => {
            crate::flags::lemma_pack_unpack(v.cc);
            assert((w % 256) as u8 == pack_cc(v.cc));
            assert((w / 256) as u8 == v.a);
            assert(v2.cc == unpack_cc(pack_cc(v.cc)));
            assert(stack_val(v2, s) == word_from(pack_cc(v.cc), v.a));
        },
    }
}

/// PUSH then POP of the same register pair (or of the program status word)
/// restores that pair's value and the stack pointer, for every starting
/// state with stack pointer at least 2 — stated over the instruction
/// dispatcher itself.
pub proof fn lemma_push_pop_round_trip(v: EmuView, s: StackPair)
    requires
        wf_view(v),
        v.sp >= 2,
    ensures
        stack_val(instr_sem(instr_sem(v, Instr::Push(s)), Instr::Pop(s)), s) == stack_val(v, s),
        instr_sem(instr_sem(v, Instr::Push(s)), Instr::Pop(s)).sp == v.sp,
{
    reveal(instr_sem);
    assert(instr_sem(v, Instr::Push(s)) == push_sem(v, s));
    assert(instr_sem(push_sem(v, s), Instr::Pop(s)) == pop_sem(push_sem(v, s), s));
    lemma_push_pop_sem(v, s);
}

} // verus!
