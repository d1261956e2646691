//! The executable emulator: the register file, flags, memory and status as
//! one owned aggregate, with the fetch-decode-execute step proved to follow
//! the mathematical step function of the model exactly.

use vstd::prelude::*;
use vstd::string::StringExecFns;

use crate::flags::ConditionCodes;
use crate::isa::AluOp;
use crate::isa::Cond;
use crate::isa::Instr;
use crate::isa::Reg;
use crate::isa::RegPair;
use crate::isa::RotOp;
use crate::isa::StackPair;
use crate::isa::decode;
use crate::memory::LoadError;
use crate::memory::Memory;
use crate::memory::overlay;
use crate::memory::word_at;
use crate::sem::EmuView;
use crate::sem::Status;
use crate::sem::adv;
use crate::sem::alu_state;
use crate::sem::alu8;
use crate::sem::cond_val;
use crate::sem::imm16;
use crate::sem::imm8;
use crate::sem::instr_sem;
use crate::sem::is_terminal;
use crate::sem::pair_val;
use crate::sem::push_state;
use crate::sem::reg_val;
use crate::sem::run_view;
use crate::sem::set_pair;
use crate::sem::set_reg;
use crate::sem::set_stack;
use crate::sem::stack_val;
use crate::sem::step_view;
use crate::sem::wrap16;
use crate::sem::zsp_cc;

verus! {

/// One emulator instance: six general-purpose registers plus the
/// accumulator, the stack pointer and program counter, 64KB of memory, the
/// condition flags, the interrupt-enable bit and the execution status.
pub struct Emulator {
    pub a: u8,
    pub b: u8,
    pub c: u8,
    pub d: u8,
    pub e: u8,
    pub h: u8,
    pub l: u8,
    pub sp: u16,
    pub pc: u16,
    pub memory: Memory,
    pub condition_codes: ConditionCodes,
    pub int_enable: bool,
    pub status: Status,
}

impl View for Emulator {
    type V = EmuView;

    open spec fn view(&self) -> EmuView {
        EmuView {
            a: self.a,
            b: self.b,
            c: self.c,
            d: self.d,
            e: self.e,
            h: self.h,
            l: self.l,
            sp: self.sp,
            pc: self.pc,
            mem: self.memory@,
            cc: self.condition_codes,
            int_enable: self.int_enable,
            status: self.status,
        }
    }
}

impl Emulator {
    /// The memory always covers the whole 16-bit address space.
    pub open spec fn wf(&self) -> bool {
        self.memory.wf()
    }

    /// A fresh machine: all registers and flags zero, memory zeroed, the
    /// interrupt-enable bit clear, status `Standby`.
    pub fn new() -> (emu: Emulator)
        ensures
            emu.wf(),
            emu@ == (EmuView {
                a: 0,
                b: 0,
                c: 0,
                d: 0,
                e: 0,
                h: 0,
                l: 0,
                sp: 0,
                pc: 0,
                mem: Seq::new(65536, |i: int| 0u8),
                cc: (ConditionCodes {
                    zero: false,
                    sign: false,
                    parity: false,
                    carry: false,
                    aux_carry: false,
                }),
                int_enable: false,
                status: Status::Standby,
            }),
    {
        Emulator {
            a: 0,
            b: 0,
            c: 0,
            d: 0,
            e: 0,
            h: 0,
            l: 0,
            sp: 0,
            pc: 0,
            memory: Memory::new(),
            condition_codes: ConditionCodes::new(),
            int_enable: false,
            status: Status::Standby,
        }
    }

    /// Copies a program image into memory starting at `origin`.  Succeeds
    /// exactly when the image fits in the remaining address space; on
    /// failure nothing changes.  Registers, flags and status are never
    /// touched.
    pub fn load(&mut self, origin: u16, image: &[u8]) -> (r: Result<(), LoadError>)
        requires
            old(self).wf(),
        ensures
            final(self).wf(),
            r is Ok <==> origin + image@.len() <= 65536,
            r is Ok ==> final(self)@ == (EmuView {
                mem: overlay(old(self)@.mem, origin, image@),
                ..old(self)@
            }),
            r is Err ==> final(self)@ == old(self)@ && r == Err::<(), LoadError>(
                LoadError::LoadOverflow,
            ),
    {
        self.memory.load_image(origin, image)
    }

    /// The 16-bit address formed by the H/L pair, as a memory offset.
    pub fn get_hl_offset(&self) -> (r: usize)
        ensures
            r == crate::memory::word_from(self.l, self.h),
    {
        self.h as usize * 256 + self.l as usize
    }

    /// The value of an 8-bit operand location; `Mem` reads the cell
    /// addressed by the H/L pair.
    pub fn reg_read(&self, r: Reg) -> (x: u8)
        requires
            self.wf(),
        ensures
            x == reg_val(self@, r),
    {
        match r {
            Reg::B => self.b,
            Reg::C => self.c,
            Reg::D => self.d,
            Reg::E => self.e,
            Reg::H => self.h,
            Reg::L => self.l,
            Reg::Mem => self.memory.read_byte((self.h as u16 * 256) + self.l as u16),
            Reg::A => self.a,
        }
    }

    /// Stores into an 8-bit operand location; `Mem` writes the cell
    /// addressed by the H/L pair.
    pub fn reg_write(&mut self, r: Reg, x: u8)
        requires
            old(self).wf(),
        ensures
            final(self).wf(),
            final(self)@ == set_reg(old(self)@, r, x),
    {
        match r {
            Reg::B => self.b = x,
            Reg::C => self.c = x,
            Reg::D => self.d = x,
            Reg::E => self.e = x,
            Reg::H => self.h = x,
            Reg::L => self.l = x,
            Reg::Mem => self.memory.write_byte((self.h as u16 * 256) + self.l as u16, x),
            Reg::A => self.a = x,
        }
    }

    /// The 16-bit value of a register pair.
    pub fn pair_read(&self, p: RegPair) -> (w: u16)
        ensures
            w == pair_val(self@, p),
    {
        match p {
            RegPair::BC => self.b as u16 * 256 + self.c as u16,
            RegPair::DE => self.d as u16 * 256 + self.e as u16,
            RegPair::HL => self.h as u16 * 256 + self.l as u16,
            RegPair::SP => self.sp,
        }
    }

    /// Stores a 16-bit value into a register pair.
    pub fn pair_write(&mut self, p: RegPair, w: u16)
        ensures
            final(self)@ == set_pair(old(self)@, p, w),
    {
        match p {
            RegPair::BC => {
                self.b = (w / 256) as u8;
                self.c = (w % 256) as u8;
            },
            RegPair::DE => {
                self.d = (w / 256) as u8;
                self.e = (w % 256) as u8;
            },
            RegPair::HL => {
                self.h = (w / 256) as u8;
                self.l = (w % 256) as u8;
            },
            RegPair::SP => {
                self.sp = w;
            },
        }
    }

    /// The immediate byte following the opcode.
    fn imm_byte(&self) -> (x: u8)
        requires
            self.wf(),
        ensures
            x == imm8(self@),
    {
        self.memory.read_byte(((self.pc as u32 + 1) % 65536) as u16)
    }

    /// The immediate little-endian word following the opcode.
    fn imm_word(&self) -> (w: u16)
        requires
            self.wf(),
        ensures
            w == imm16(self@),
    {
        self.memory.read_word(((self.pc as u32 + 1) % 65536) as u16)
    }

    /// Advances the program counter by the instruction length, wrapping
    /// modulo 65536.
    fn advance(&mut self, n: u16)
        ensures
            final(self)@ == adv(old(self)@, n as int),
    {
        self.pc = ((self.pc as u32 + n as u32) % 65536) as u16;
    }

    /// Whether a condition code holds of the current flags.
    pub fn test_cond(&self, c: Cond) -> (r: bool)
        ensures
            r == cond_val(self@.cc, c),
    {
        match c {
            Cond::NotZero => !self.condition_codes.zero,
            Cond::Zero => self.condition_codes.zero,
            Cond::NotCarry => !self.condition_codes.carry,
            Cond::Carry => self.condition_codes.carry,
            Cond::ParityOdd => !self.condition_codes.parity,
            Cond::ParityEven => self.condition_codes.parity,
            Cond::Plus => !self.condition_codes.sign,
            Cond::Minus => self.condition_codes.sign,
        }
    }

    /// True in the two terminal statuses, from which no step moves on.
    pub fn terminated(&self) -> (r: bool)
        ensures
            r == is_terminal(self@.status),
    {
        match self.status {
            Status::Halted => true,
            Status::Faulted { .. } => true,
            _ => false,
        }
    }
}

impl Emulator {
    /// Recomputes zero, sign and parity from the accumulator, leaving carry
    /// and auxiliary carry as they are.  Sign is bit 7 of the result.
    pub fn update_condition(&mut self)
        ensures
            final(self)@ == (EmuView {
                cc: (ConditionCodes {
                    zero: old(self).a == 0,
                    sign: old(self).a >= 128,
                    parity: crate::flags::spec_parity(old(self).a),
                    carry: old(self).condition_codes.carry,
                    aux_carry: old(self).condition_codes.aux_carry,
                }),
                ..old(self)@
            }),
    {
        self.condition_codes.zero = self.a == 0;
        self.condition_codes.sign = self.a >= 128;
        self.condition_codes.parity = crate::flags::parity(self.a);
    }

    /// 8-bit addition into the accumulator: the result is `(fst + snd) mod
    /// 256`, carry is set iff `fst + snd >= 256`, auxiliary carry iff the
    /// low nibbles sum to 16 or more; zero, sign and parity follow the
    /// result.
    pub fn add(&mut self, fst: u8, snd: u8)
        ensures
            final(self)@.a == ((fst + snd) % 256) as u8,
            final(self)@.cc.carry == (fst + snd >= 256),
            final(self)@.cc.aux_carry == ((fst & 0xF) + (snd & 0xF) >= 16),
            final(self)@ == (EmuView {
                a: ((fst + snd) % 256) as u8,
                cc: zsp_cc(
                    ((fst + snd) % 256) as u8,
                    fst + snd >= 256,
                    (fst & 0xF) + (snd & 0xF) >= 16,
                ),
                ..old(self)@
            }),
    {
        let sum: u16 = fst as u16 + snd as u16;
        self.a = (sum % 256) as u8;
        self.condition_codes.carry = sum >= 256;
        self.condition_codes.aux_carry = (fst & 0xF) as u16 + (snd & 0xF) as u16 >= 16;
        self.update_condition();
    }

    /// 8-bit addition with carry-in from the carry flag.
    pub fn adc(&mut self, fst: u8, snd: u8)
        ensures
            ({
                let out = alu8(AluOp::AdcOp, fst, snd, old(self).condition_codes.carry);
                final(self)@ == (EmuView { a: out.0, cc: zsp_cc(out.0, out.1, out.2), ..old(
                    self,
                )@ })
            }),
    {
        let cin: u16 = if self.condition_codes.carry {
            1
        } else {
            0
        };
        let sum: u16 = fst as u16 + snd as u16 + cin;
        self.a = (sum % 256) as u8;
        self.condition_codes.carry = sum >= 256;
        self.condition_codes.aux_carry = (fst & 0xF) as u16 + (snd & 0xF) as u16 + cin >= 16;
        self.update_condition();
    }

    /// 8-bit subtraction from the accumulator: the result wraps modulo 256,
    /// carry is the borrow (`fst < snd`), auxiliary carry the borrow out of
    /// bit 3; zero, sign and parity follow the result.
    pub fn sub(&mut self, fst: u8, snd: u8)
        ensures
            final(self)@.a == ((fst + 256 - snd) % 256) as u8,
            final(self)@.cc.carry == ((fst as int) < snd),
            final(self)@ == (EmuView {
                a: ((fst + 256 - snd) % 256) as u8,
                cc: zsp_cc(
                    ((fst + 256 - snd) % 256) as u8,
                    (fst as int) < snd,
                    ((fst & 0xF) as int) < (snd & 0xF),
                ),
                ..old(self)@
            }),
    {
        let diff: u16 = (fst as u16 + 256) - snd as u16;
        self.a = (diff % 256) as u8;
        self.condition_codes.carry = fst < snd;
        self.condition_codes.aux_carry = (fst & 0xF) < (snd & 0xF);
        self.update_condition();
    }

    /// 8-bit subtraction with the carry flag as borrow-in.
    pub fn sbb(&mut self, fst: u8, snd: u8)
        ensures
            ({
                let out = alu8(AluOp::SbbOp, fst, snd, old(self).condition_codes.carry);
                final(self)@ == (EmuView { a: out.0, cc: zsp_cc(out.0, out.1, out.2), ..old(
                    self,
                )@ })
            }),
    {
        let cin: u16 = if self.condition_codes.carry {
            1
        } else {
            0
        };
        let diff: u16 = (fst as u16 + 256) - snd as u16 - cin;
        self.a = (diff % 256) as u8;
        self.condition_codes.carry = (fst as u16) < snd as u16 + cin;
        self.condition_codes.aux_carry = ((fst & 0xF) as u16) < ((snd & 0xF) as u16) + cin;
        self.update_condition();
    }

    /// Bitwise AND into the accumulator; carry and auxiliary carry are
    /// cleared, the other flags follow the result.
    pub fn ana(&mut self, snd: u8)
        ensures
            final(self)@ == (EmuView {
                a: old(self).a & snd,
                cc: zsp_cc(old(self).a & snd, false, false),
                ..old(self)@
            }),
    {
        self.a = self.a & snd;
        self.condition_codes.carry = false;
        self.condition_codes.aux_carry = false;
        self.update_condition();
    }

    /// Bitwise exclusive OR into the accumulator; carry and auxiliary carry
    /// are cleared, the other flags follow the result.
    pub fn xra(&mut self, snd: u8)
        ensures
            final(self)@ == (EmuView {
                a: old(self).a ^ snd,
                cc: zsp_cc(old(self).a ^ snd, false, false),
                ..old(self)@
            }),
    {
        self.a = self.a ^ snd;
        self.condition_codes.carry = false;
        self.condition_codes.aux_carry = false;
        self.update_condition();
    }

    /// Bitwise OR into the accumulator; carry and auxiliary carry are
    /// cleared, the other flags follow the result.
    pub fn ora(&mut self, snd: u8)
        ensures
            final(self)@ == (EmuView {
                a: old(self).a | snd,
                cc: zsp_cc(old(self).a | snd, false, false),
                ..old(self)@
            }),
    {
        self.a = self.a | snd;
        self.condition_codes.carry = false;
        self.condition_codes.aux_carry = false;
        self.update_condition();
    }

    /// Compare: computes the subtraction flags but discards the result; the
    /// accumulator is unchanged.
    pub fn compare(&mut self, snd: u8)
        ensures
            ({
                let out = alu8(AluOp::CmpOp, old(self).a, snd, old(self).condition_codes.carry);
                final(self)@ == (EmuView { cc: zsp_cc(out.0, out.1, out.2), ..old(self)@ })
            }),
    {
        let fst = self.a;
        let diff: u16 = (fst as u16 + 256) - snd as u16;
        let result: u8 = (diff % 256) as u8;
        self.condition_codes.carry = fst < snd;
        self.condition_codes.aux_carry = (fst & 0xF) < (snd & 0xF);
        self.condition_codes.zero = result == 0;
        self.condition_codes.sign = result >= 128;
        self.condition_codes.parity = crate::flags::parity(result);
    }

    /// Routes one arithmetic/logic operation with operand `b` through the
    /// accumulator and flags.
    pub fn alu_apply(&mut self, op: AluOp, b: u8)
        ensures
            final(self)@ == alu_state(old(self)@, op, b),
    {
        match op {
            AluOp::AddOp => self.add(self.a, b),
            AluOp::AdcOp => self.adc(self.a, b),
            AluOp::SubOp => self.sub(self.a, b),
            AluOp::SbbOp => self.sbb(self.a, b),
            AluOp::AndOp => self.ana(b),
            AluOp::XorOp => self.xra(b),
            AluOp::OrOp => self.ora(b),
            AluOp::CmpOp => self.compare(b),
        }
    }
}

impl Emulator {
    /// Pushes a word: the stack pointer moves down by two, then the word is
    /// stored at the new top of stack.
    fn push16(&mut self, w: u16)
        requires
            old(self).wf(),
        ensures
            final(self).wf(),
            final(self)@ == push_state(old(self)@, w),
    {
        self.sp = ((self.sp as u32 + 65534) % 65536) as u16;
        self.memory.write_word(self.sp, w);
    }

    /// Pops a word: returns the word at the top of the stack and moves the
    /// stack pointer up by two.
    fn pop16(&mut self) -> (w: u16)
        requires
            old(self).wf(),
        ensures
            final(self).wf(),
            w == word_at(old(self)@.mem, old(self).sp),
            final(self)@ == (EmuView { sp: wrap16(old(self).sp + 2), ..old(self)@ }),
    {
        let w = self.memory.read_word(self.sp);
        self.sp = ((self.sp as u32 + 2) % 65536) as u16;
        w
    }

    /// The word a stack selector pushes: a register pair, or accumulator
    /// and packed flags for the program status word.
    fn stack_read(&self, s: StackPair) -> (w: u16)
        ensures
            w == stack_val(self@, s),
    {
        match s {
            StackPair::BC => self.b as u16 * 256 + self.c as u16,
            StackPair::DE => self.d as u16 * 256 + self.e as u16,
            StackPair::HL => self.h as u16 * 256 + self.l as u16,
            StackPair::PSW => self.a as u16 * 256 + self.condition_codes.pack() as u16,
        }
    }

    /// Restores a stack selector from a popped word.
    fn stack_write(&mut self, s: StackPair, w: u16)
        ensures
            final(self)@ == set_stack(old(self)@, s, w),
    {
        match s {
            StackPair::BC => {
                self.b = (w / 256) as u8;
                self.c = (w % 256) as u8;
            },
            StackPair::DE => {
                self.d = (w / 256) as u8;
                self.e = (w % 256) as u8;
            },
            StackPair::HL => {
                self.h = (w / 256) as u8;
                self.l = (w % 256) as u8;
            },
            StackPair::PSW => {
                self.a = (w / 256) as u8;
                self.condition_codes = ConditionCodes::unpack((w % 256) as u8);
            },
        }
    }

    /// MOV: copies a byte between operand locations; never affects flags.
    fn op_mov(&mut self, d: Reg, s: Reg)
        requires
            old(self).wf(),
        ensures
            final(self).wf(),
            final(self)@ == instr_sem(old(self)@, Instr::Mov(d, s)),
    {
        proof {
            reveal(instr_sem);
        }
        let x = self.reg_read(s);
        self.reg_write(d, x);
        self.advance(1);
    }

    /// MVI: stores the immediate byte into an operand location.
    fn op_mvi(&mut self, d: Reg)
        requires
            old(self).wf(),
        ensures
            final(self).wf(),
            final(self)@ == instr_sem(old(self)@, Instr::Mvi(d)),
    {
        proof {
            reveal(instr_sem);
        }
        let x = self.imm_byte();
        self.reg_write(d, x);
        self.advance(2);
    }

    /// LXI: loads the immediate word into a register pair.
    fn op_lxi(&mut self, p: RegPair)
        requires
            old(self).wf(),
        ensures
            final(self).wf(),
            final(self)@ == instr_sem(old(self)@, Instr::Lxi(p)),
    {
        proof {
            reveal(instr_sem);
        }
        let w = self.imm_word();
        self.pair_write(p, w);
        self.advance(3);
    }

    /// LDA: loads the accumulator from an absolute address.
    fn op_lda(&mut self)
        requires
            old(self).wf(),
        ensures
            final(self).wf(),
            final(self)@ == instr_sem(old(self)@, Instr::Lda),
    {
        proof {
            reveal(instr_sem);
        }
        let addr = self.imm_word();
        self.a = self.memory.read_byte(addr);
        self.advance(3);
    }

    /// STA: stores the accumulator at an absolute address.
    fn op_sta(&mut self)
        requires
            old(self).wf(),
        ensures
            final(self).wf(),
            final(self)@ == instr_sem(old(self)@, Instr::Sta),
    {
        proof {
            reveal(instr_sem);
        }
        let addr = self.imm_word();
        self.memory.write_byte(addr, self.a);
        self.advance(3);
    }

    /// LHLD: loads H/L from the word at an absolute address.
    fn op_lhld(&mut self)
        requires
            old(self).wf(),
        ensures
            final(self).wf(),
            final(self)@ == instr_sem(old(self)@, Instr::Lhld),
    {
        proof {
            reveal(instr_sem);
        }
        let addr = self.imm_word();
        let w = self.memory.read_word(addr);
        self.pair_write(RegPair::HL, w);
        self.advance(3);
    }

    /// SHLD: stores H/L as the word at an absolute address.
    fn op_shld(&mut self)
        requires
            old(self).wf(),
        ensures
            final(self).wf(),
            final(self)@ == instr_sem(old(self)@, Instr::Shld),
    {
        proof {
            reveal(instr_sem);
        }
        let addr = self.imm_word();
        let w = self.pair_read(RegPair::HL);
        self.memory.write_word(addr, w);
        self.advance(3);
    }

    /// LDAX: loads the accumulator from the cell a register pair addresses.
    fn op_ldax(&mut self, p: RegPair)
        requires
            old(self).wf(),
        ensures
            final(self).wf(),
            final(self)@ == instr_sem(old(self)@, Instr::Ldax(p)),
    {
        proof {
            reveal(instr_sem);
        }
        let addr = self.pair_read(p);
        self.a = self.memory.read_byte(addr);
        self.advance(1);
    }

    /// STAX: stores the accumulator at the cell a register pair addresses.
    fn op_stax(&mut self, p: RegPair)
        requires
            old(self).wf(),
        ensures
            final(self).wf(),
            final(self)@ == instr_sem(old(self)@, Instr::Stax(p)),
    {
        proof {
            reveal(instr_sem);
        }
        let addr = self.pair_read(p);
        self.memory.write_byte(addr, self.a);
        self.advance(1);
    }

    /// XCHG: swaps D/E with H/L.
    fn op_xchg(&mut self)
        requires
            old(self).wf(),
        ensures
            final(self).wf(),
            final(self)@ == instr_sem(old(self)@, Instr::Xchg),
    {
        proof {
            reveal(instr_sem);
        }
        let d = self.d;
        let e = self.e;
        self.d = self.h;
        self.e = self.l;
        self.h = d;
        self.l = e;
        self.advance(1);
    }

    /// An arithmetic/logic instruction with a register or memory operand.
    fn op_alu(&mut self, op: AluOp, s: Reg)
        requires
            old(self).wf(),
        ensures
            final(self).wf(),
            final(self)@ == instr_sem(old(self)@, Instr::Alu(op, s)),
    {
        proof {
            reveal(instr_sem);
        }
        let b = self.reg_read(s);
        self.alu_apply(op, b);
        self.advance(1);
    }

    /// An arithmetic/logic instruction with an immediate operand.
    fn op_alu_imm(&mut self, op: AluOp)
        requires
            old(self).wf(),
        ensures
            final(self).wf(),
            final(self)@ == instr_sem(old(self)@, Instr::AluImm(op)),
    {
        proof {
            reveal(instr_sem);
        }
        let b = self.imm_byte();
        self.alu_apply(op, b);
        self.advance(2);
    }

    /// INR: 8-bit increment of an operand location; every flag but carry
    /// follows the result, carry is never touched.
    fn op_inr(&mut self, r: Reg)
        requires
            old(self).wf(),
        ensures
            final(self).wf(),
            final(self)@ == instr_sem(old(self)@, Instr::Inr(r)),
    {
        proof {
            reveal(instr_sem);
        }
        let x = self.reg_read(r);
        let nv = ((x as u16 + 1) % 256) as u8;
        self.condition_codes.zero = nv == 0;
        self.condition_codes.sign = nv >= 128;
        self.condition_codes.parity = crate::flags::parity(nv);
        self.condition_codes.aux_carry = (x & 0xF) as u16 + 1 >= 16;
        self.reg_write(r, nv);
        self.advance(1);
    }

    /// DCR: 8-bit decrement of an operand location; every flag but carry
    /// follows the result, carry is never touched.
    fn op_dcr(&mut self, r: Reg)
        requires
            old(self).wf(),
        ensures
            final(self).wf(),
            final(self)@ == instr_sem(old(self)@, Instr::Dcr(r)),
    {
        proof {
            reveal(instr_sem);
        }
        let x = self.reg_read(r);
        let nv = ((x as u16 + 255) % 256) as u8;
        self.condition_codes.zero = nv == 0;
        self.condition_codes.sign = nv >= 128;
        self.condition_codes.parity = crate::flags::parity(nv);
        self.condition_codes.aux_carry = (x & 0xF) == 0;
        self.reg_write(r, nv);
        self.advance(1);
    }

    /// INX: 16-bit increment of a register pair, wrapping, no flags.
    fn op_inx(&mut self, p: RegPair)
        requires
            old(self).wf(),
        ensures
            final(self).wf(),
            final(self)@ == instr_sem(old(self)@, Instr::Inx(p)),
    {
        proof {
            reveal(instr_sem);
        }
        let w = self.pair_read(p);
        self.pair_write(p, ((w as u32 + 1) % 65536) as u16);
        self.advance(1);
    }

    /// DCX: 16-bit decrement of a register pair, wrapping, no flags.
    fn op_dcx(&mut self, p: RegPair)
        requires
            old(self).wf(),
        ensures
            final(self).wf(),
            final(self)@ == instr_sem(old(self)@, Instr::Dcx(p)),
    {
        proof {
            reveal(instr_sem);
        }
        let w = self.pair_read(p);
        self.pair_write(p, ((w as u32 + 65535) % 65536) as u16);
        self.advance(1);
    }

    /// DAD: adds a register pair into H/L; only the carry flag is touched,
    /// set from the 16-bit overflow.
    fn op_dad(&mut self, p: RegPair)
        requires
            old(self).wf(),
        ensures
            final(self).wf(),
            final(self)@ == instr_sem(old(self)@, Instr::Dad(p)),
    {
        proof {
            reveal(instr_sem);
        }
        let hl = self.pair_read(RegPair::HL);
        let pv = self.pair_read(p);
        let sum: u32 = hl as u32 + pv as u32;
        self.condition_codes.carry = sum >= 65536;
        self.pair_write(RegPair::HL, (sum % 65536) as u16);
        self.advance(1);
    }

    /// A rotate of the accumulator by one bit; only the carry flag is
    /// touched besides the accumulator.
    fn op_rot(&mut self, r: RotOp)
        requires
            old(self).wf(),
        ensures
            final(self).wf(),
            final(self)@ == instr_sem(old(self)@, Instr::Rot(r)),
    {
        proof {
            reveal(instr_sem);
        }
        let a = self.a;
        match r {
            RotOp::Rlc => {
                self.a = (a % 128) * 2 + a / 128;
                self.condition_codes.carry = a >= 128;
            },
            RotOp::Rrc => {
                self.a = a / 2 + (a % 2) * 128;
                self.condition_codes.carry = a % 2 == 1;
            },
            RotOp::Ral => {
                let cin: u8 = if self.condition_codes.carry {
                    1
                } else {
                    0
                };
                self.a = (a % 128) * 2 + cin;
                self.condition_codes.carry = a >= 128;
            },
            RotOp::Rar => {
                let cin: u8 = if self.condition_codes.carry {
                    1
                } else {
                    0
                };
                self.a = a / 2 + cin * 128;
                self.condition_codes.carry = a % 2 == 1;
            },
        }
        self.advance(1);
    }

    /// JMP, or a conditional jump: on a met condition the program counter
    /// becomes the immediate address, else it falls through; no flags.
    fn op_jmp(&mut self, c: Option<Cond>)
        requires
            old(self).wf(),
        ensures
            final(self).wf(),
            c is None ==> final(self)@ == instr_sem(old(self)@, Instr::Jmp),
            c matches Some(cc) ==> final(self)@ == instr_sem(old(self)@, Instr::JmpIf(cc)),
    {
        proof {
            reveal(instr_sem);
        }
        let target = self.imm_word();
        let go = match c {
            Option::None => true,
            Option::Some(cc) => self.test_cond(cc),
        };
        if go {
            self.pc = target;
        } else {
            self.advance(3);
        }
    }

    /// CALL, or a conditional call: on a met condition the address of the
    /// following instruction is pushed and execution jumps; else it falls
    /// through.
    fn op_call(&mut self, c: Option<Cond>)
        requires
            old(self).wf(),
        ensures
            final(self).wf(),
            c is None ==> final(self)@ == instr_sem(old(self)@, Instr::Call),
            c matches Some(cc) ==> final(self)@ == instr_sem(old(self)@, Instr::CallIf(cc)),
    {
        proof {
            reveal(instr_sem);
        }
        let go = match c {
            Option::None => true,
            Option::Some(cc) => self.test_cond(cc),
        };
        if go {
            let target = self.imm_word();
            let ret = ((self.pc as u32 + 3) % 65536) as u16;
            self.push16(ret);
            self.pc = target;
        } else {
            self.advance(3);
        }
    }

    /// RET, or a conditional return: on a met condition the word at the top
    /// of the stack becomes the program counter; else it falls through.
    fn op_ret(&mut self, c: Option<Cond>)
        requires
            old(self).wf(),
        ensures
            final(self).wf(),
            c is None ==> final(self)@ == instr_sem(old(self)@, Instr::Ret),
            c matches Some(cc) ==> final(self)@ == instr_sem(old(self)@, Instr::RetIf(cc)),
    {
        proof {
            reveal(instr_sem);
        }
        let go = match c {
            Option::None => true,
            Option::Some(cc) => self.test_cond(cc),
        };
        if go {
            let w = self.pop16();
            self.pc = w;
        } else {
            self.advance(1);
        }
    }

    /// RST: calls the fixed low-memory address `8 * n`.
    #[verifier::rlimit(100)]
    #[verifier::spinoff_prover]
    fn op_rst(&mut self, n: u8)
        requires
            old(self).wf(),
        ensures
            final(self).wf(),
            final(self)@ == instr_sem(old(self)@, Instr::Rst(n)),
    {
        proof {
            reveal(instr_sem);
        }
        let ret = ((self.pc as u32 + 1) % 65536) as u16;
        self.push16(ret);
        self.pc = 8 * n as u16;
        proof {
            assert(8 * n < 65536);
            assert(wrap16(8 * n) == 8 * n as u16);
        }
    }

    /// PUSH: stores a pair (or the program status word) on the stack.
    fn op_push(&mut self, s: StackPair)
        requires
            old(self).wf(),
        ensures
            final(self).wf(),
            final(self)@ == instr_sem(old(self)@, Instr::Push(s)),
    {
        proof {
            reveal(instr_sem);
        }
        let w = self.stack_read(s);
        self.push16(w);
        self.advance(1);
    }

    /// POP: restores a pair (or the accumulator and flags) from the stack.
    fn op_pop(&mut self, s: StackPair)
        requires
            old(self).wf(),
        ensures
            final(self).wf(),
            final(self)@ == instr_sem(old(self)@, Instr::Pop(s)),
    {
        proof {
            reveal(instr_sem);
        }
        let w = self.pop16();
        self.stack_write(s, w);
        self.advance(1);
    }

    /// XTHL: swaps H/L with the word at the top of the stack.
    fn op_xthl(&mut self)
        requires
            old(self).wf(),
        ensures
            final(self).wf(),
            final(self)@ == instr_sem(old(self)@, Instr::Xthl),
    {
        proof {
            reveal(instr_sem);
        }
        let w = self.memory.read_word(self.sp);
        let hl = self.pair_read(RegPair::HL);
        self.memory.write_word(self.sp, hl);
        self.h = (w / 256) as u8;
        self.l = (w % 256) as u8;
        self.advance(1);
    }
}

impl Emulator {
    /// NOP: advances past the opcode and does nothing else.
    fn op_nop(&mut self)
        requires
            old(self).wf(),
        ensures
            final(self).wf(),
            final(self)@ == instr_sem(old(self)@, Instr::Nop),
    {
        proof {
            reveal(instr_sem);
        }
        self.advance(1);
    }

    /// CMA: complements the accumulator; no flags.
    fn op_cma(&mut self)
        requires
            old(self).wf(),
        ensures
            final(self).wf(),
            final(self)@ == instr_sem(old(self)@, Instr::Cma),
    {
        proof {
            reveal(instr_sem);
        }
        self.a = 255 - self.a;
        self.advance(1);
    }

    /// STC: sets the carry flag; nothing else.
    fn op_stc(&mut self)
        requires
            old(self).wf(),
        ensures
            final(self).wf(),
            final(self)@ == instr_sem(old(self)@, Instr::Stc),
    {
        proof {
            reveal(instr_sem);
        }
        self.condition_codes.carry = true;
        self.advance(1);
    }

    /// CMC: complements the carry flag; nothing else.
    fn op_cmc(&mut self)
        requires
            old(self).wf(),
        ensures
            final(self).wf(),
            final(self)@ == instr_sem(old(self)@, Instr::Cmc),
    {
        proof {
            reveal(instr_sem);
        }
        self.condition_codes.carry = !self.condition_codes.carry;
        self.advance(1);
    }

    /// PCHL: the program counter becomes the H/L pair value.
    fn op_pchl(&mut self)
        requires
            old(self).wf(),
        ensures
            final(self).wf(),
            final(self)@ == instr_sem(old(self)@, Instr::Pchl),
    {
        proof {
            reveal(instr_sem);
        }
        self.pc = self.h as u16 * 256 + self.l as u16;
    }

    /// SPHL: the stack pointer becomes the H/L pair value.
    fn op_sphl(&mut self)
        requires
            old(self).wf(),
        ensures
            final(self).wf(),
            final(self)@ == instr_sem(old(self)@, Instr::Sphl),
    {
        proof {
            reveal(instr_sem);
        }
        self.sp = self.h as u16 * 256 + self.l as u16;
        self.advance(1);
    }

    /// IN: reads a byte from the port hook into the accumulator.  No device
    /// is attached in the core, so the hook's default answer is zero.
    fn op_in(&mut self)
        requires
            old(self).wf(),
        ensures
            final(self).wf(),
            final(self)@ == instr_sem(old(self)@, Instr::InPort),
    {
        proof {
            reveal(instr_sem);
        }
        self.a = 0;
        self.advance(2);
    }

    /// OUT: hands the accumulator to the port hook.  No device is attached
    /// in the core, so the byte is discarded.
    fn op_out(&mut self)
        requires
            old(self).wf(),
        ensures
            final(self).wf(),
            final(self)@ == instr_sem(old(self)@, Instr::OutPort),
    {
        proof {
            reveal(instr_sem);
        }
        self.advance(2);
    }

    /// EI: sets the interrupt-enable bit; nothing else.
    fn op_ei(&mut self)
        requires
            old(self).wf(),
        ensures
            final(self).wf(),
            final(self)@ == instr_sem(old(self)@, Instr::Ei),
    {
        proof {
            reveal(instr_sem);
        }
        self.int_enable = true;
        self.advance(1);
    }

    /// DI: clears the interrupt-enable bit; nothing else.
    fn op_di(&mut self)
        requires
            old(self).wf(),
        ensures
            final(self).wf(),
            final(self)@ == instr_sem(old(self)@, Instr::Di),
    {
        proof {
            reveal(instr_sem);
        }
        self.int_enable = false;
        self.advance(1);
    }

    /// HLT: the status becomes `Halted`; the program counter stays at the
    /// halt instruction.
    fn op_hlt(&mut self)
        requires
            old(self).wf(),
        ensures
            final(self).wf(),
            final(self)@ == instr_sem(old(self)@, Instr::Hlt),
    {
        proof {
            reveal(instr_sem);
        }
        self.status = Status::Halted;
    }

    /// An unmapped opcode: the status becomes `Faulted`, recording the
    /// opcode and the address it was fetched from; the program counter
    /// stays at the faulting instruction.
    fn op_fault(&mut self)
        requires
            old(self).wf(),
        ensures
            final(self).wf(),
            final(self)@ == instr_sem(old(self)@, Instr::Undefined),
    {
        proof {
            reveal(instr_sem);
        }
        let opcode = self.memory.read_byte(self.pc);
        self.status = Status::Faulted { opcode, addr: self.pc };
    }

    /// Executes exactly one instruction: fetch at the program counter,
    /// decode, execute, with the status moved to `Running` first.  On a
    /// terminal status this is a no-op — callers should consult the status
    /// before stepping.
    /// Executes one already-decoded data-transfer instruction.
    #[verifier::rlimit(100)]
    #[verifier::spinoff_prover]
    fn dispatch_data(&mut self, i: Instr)
        requires
            old(self).wf(),
            i is Nop || i is Mov || i is Mvi || i is Lxi || i is Lda || i is Sta || i is Lhld
                || i is Shld || i is Ldax || i is Stax || i is Xchg,
        ensures
            final(self).wf(),
            final(self)@ == instr_sem(old(self)@, i),
    {
        match i {
            Instr::Nop => self.op_nop(),
            Instr::Mov(d, s) => self.op_mov(d, s),
            Instr::Mvi(d) => self.op_mvi(d),
            Instr::Lxi(p) => self.op_lxi(p),
            Instr::Lda => self.op_lda(),
            Instr::Sta => self.op_sta(),
            Instr::Lhld => self.op_lhld(),
            Instr::Shld => self.op_shld(),
            Instr::Ldax(p) => self.op_ldax(p),
            Instr::Stax(p) => self.op_stax(p),
            Instr::Xchg => self.op_xchg(),
            _ => {
                proof {
                    assert(false);
                }
            },
        }
    }

    /// Executes one already-decoded arithmetic/logic instruction.
    #[verifier::rlimit(100)]
    #[verifier::spinoff_prover]
    fn dispatch_alu(&mut self, i: Instr)
        requires
            old(self).wf(),
            i is Alu || i is AluImm || i is Inr || i is Dcr || i is Inx || i is Dcx || i is Dad
                || i is Rot || i is Cma || i is Stc || i is Cmc,
        ensures
            final(self).wf(),
            final(self)@ == instr_sem(old(self)@, i),
    {
        match i {
            Instr::Alu(aop, s) => self.op_alu(aop, s),
            Instr::AluImm(aop) => self.op_alu_imm(aop),
            Instr::Inr(r) => self.op_inr(r),
            Instr::Dcr(r) => self.op_dcr(r),
            Instr::Inx(p) => self.op_inx(p),
            Instr::Dcx(p) => self.op_dcx(p),
            Instr::Dad(p) => self.op_dad(p),
            Instr::Rot(r) => self.op_rot(r),
            Instr::Cma => self.op_cma(),
            Instr::Stc => self.op_stc(),
            Instr::Cmc => self.op_cmc(),
            _ => {
                proof {
                    assert(false);
                }
            },
        }
    }

    /// Executes one already-decoded control-flow instruction.
    #[verifier::rlimit(100)]
    #[verifier::spinoff_prover]
    fn dispatch_flow(&mut self, i: Instr)
        requires
            old(self).wf(),
            i is Jmp || i is JmpIf || i is Call || i is CallIf || i is Ret || i is RetIf
                || i is Rst || i is Pchl,
        ensures
            final(self).wf(),
            final(self)@ == instr_sem(old(self)@, i),
    {
        match i {
            Instr::Jmp => self.op_jmp(None),
            Instr::JmpIf(c) => self.op_jmp(Some(c)),
            Instr::Call => self.op_call(None),
            Instr::CallIf(c) => self.op_call(Some(c)),
            Instr::Ret => self.op_ret(None),
            Instr::RetIf(c) => self.op_ret(Some(c)),
            Instr::Rst(n) => self.op_rst(n),
            Instr::Pchl => self.op_pchl(),
            _ => {
                proof {
                    assert(false);
                }
            },
        }
    }

    /// Executes one already-decoded stack or machine-control instruction.
    #[verifier::rlimit(100)]
    #[verifier::spinoff_prover]
    fn dispatch_stack(&mut self, i: Instr)
        requires
            old(self).wf(),
            i is Push || i is Pop || i is Xthl || i is Sphl || i is InPort || i is OutPort
                || i is Ei || i is Di || i is Hlt || i is Undefined,
        ensures
            final(self).wf(),
            final(self)@ == instr_sem(old(self)@, i),
    {
        match i {
            Instr::Push(s) => self.op_push(s),
            Instr::Pop(s) => self.op_pop(s),
            Instr::Xthl => self.op_xthl(),
            Instr::Sphl => self.op_sphl(),
            Instr::InPort => self.op_in(),
            Instr::OutPort => self.op_out(),
            Instr::Ei => self.op_ei(),
            Instr::Di => self.op_di(),
            Instr::Hlt => self.op_hlt(),
            Instr::Undefined => self.op_fault(),
            _ => {
                proof {
                    assert(false);
                }
            },
        }
    }

    /// Executes one already-decoded instruction.
    fn dispatch(&mut self, i: Instr)
        requires
            old(self).wf(),
        ensures
            final(self).wf(),
            final(self)@ == instr_sem(old(self)@, i),
    {
        match i {
            Instr::Nop | Instr::Mov(..) | Instr::Mvi(..) | Instr::Lxi(..) | Instr::Lda
                | Instr::Sta | Instr::Lhld | Instr::Shld | Instr::Ldax(..) | Instr::Stax(..)
                | Instr::Xchg => self.dispatch_data(i),
            Instr::Alu(..) | Instr::AluImm(..) | Instr::Inr(..) | Instr::Dcr(..)
                | Instr::Inx(..) | Instr::Dcx(..) | Instr::Dad(..) | Instr::Rot(..)
                | Instr::Cma | Instr::Stc | Instr::Cmc => self.dispatch_alu(i),
            Instr::Jmp | Instr::JmpIf(..) | Instr::Call | Instr::CallIf(..) | Instr::Ret
                | Instr::RetIf(..) | Instr::Rst(..) | Instr::Pchl => self.dispatch_flow(i),
            Instr::Push(..) | Instr::Pop(..) | Instr::Xthl | Instr::Sphl | Instr::InPort
                | Instr::OutPort | Instr::Ei | Instr::Di | Instr::Hlt
                | Instr::Undefined => self.dispatch_stack(i),
        }
    }

    /// Executes exactly one instruction: fetch at the program counter,
    /// decode, execute, with the status moved to `Running` first.  On a
    /// terminal status this is a no-op — callers should consult the status
    /// before stepping.
    pub fn step(&mut self)
        requires
            old(self).wf(),
        ensures
            final(self).wf(),
            final(self)@ == step_view(old(self)@),
    {
        match self.status {
            Status::Halted => {
                return ;
            },
            Status::Faulted { .. } => {
                return ;
            },
            _ => {},
        }
        self.status = Status::Running;
        let op = self.memory.read_byte(self.pc);
        let i = decode(op);
        self.dispatch(i);
    }

    /// Drives repeated stepping: up to `max_steps` instructions, stopping
    /// early when a terminal status is reached.  An emulated program that
    /// never halts runs until the step budget is spent.
    pub fn run(&mut self, max_steps: u64)
        requires
            old(self).wf(),
        ensures
            final(self).wf(),
            final(self)@ == run_view(old(self)@, max_steps as nat),
    {
        let mut i: u64 = 0;
        while i < max_steps && !self.terminated()
            invariant
                self.wf(),
                i <= max_steps,
                run_view(old(self)@, max_steps as nat) == run_view(
                    self@,
                    (max_steps - i) as nat,
                ),
            decreases max_steps - i,
        {
            self.step();
            i = i + 1;
        }
    }
}

/// The lowercase hexadecimal digit character for a value below 16.
pub open spec fn hex_char(n: u8) -> char {
    if n == 0 {
        '0'
    } else if n == 1 {
        '1'
    } else if n == 2 {
        '2'
    } else if n == 3 {
        '3'
    } else if n == 4 {
        '4'
    } else if n == 5 {
        '5'
    } else if n == 6 {
        '6'
    } else if n == 7 {
        '7'
    } else if n == 8 {
        '8'
    } else if n == 9 {
        '9'
    } else if n == 10 {
        'a'
    } else if n == 11 {
        'b'
    } else if n == 12 {
        'c'
    } else if n == 13 {
        'd'
    } else if n == 14 {
        'e'
    } else {
        'f'
    }
}

/// The two hexadecimal digits of a byte, most significant first.
pub open spec fn hex2(n: u8) -> Seq<char> {
    seq![hex_char(n / 16), hex_char(n % 16)]
}

/// The four hexadecimal digits of a 16-bit value, most significant first.
pub open spec fn hex4(n: u16) -> Seq<char> {
    seq![
        hex_char((n / 4096) as u8),
        hex_char(((n / 256) % 16) as u8),
        hex_char(((n / 16) % 16) as u8),
        hex_char((n % 16) as u8),
    ]
}

/// The reason text recorded for a fault: the unknown opcode and the address
/// it was fetched from, both in hexadecimal.
pub open spec fn fault_text(opcode: u8, addr: u16) -> Seq<char> {
    "unknown opcode 0x"@ + hex2(opcode) + " at 0x"@ + hex4(addr)
}

/// The lowercase hexadecimal digit for a value below 16.
fn hex_digit(n: u8) -> (s: &'static str)
    requires
        n < 16,
    ensures
        s@ == seq![hex_char(n)],
{
    let s: &'static str = if n == 0 {
        "0"
    } else if n == 1 {
        "1"
    } else if n == 2 {
        "2"
    } else if n == 3 {
        "3"
    } else if n == 4 {
        "4"
    } else if n == 5 {
        "5"
    } else if n == 6 {
        "6"
    } else if n == 7 {
        "7"
    } else if n == 8 {
        "8"
    } else if n == 9 {
        "9"
    } else if n == 10 {
        "a"
    } else if n == 11 {
        "b"
    } else if n == 12 {
        "c"
    } else if n == 13 {
        "d"
    } else if n == 14 {
        "e"
    } else {
        "f"
    };
    proof {
        reveal_strlit("0");
        reveal_strlit("1");
        reveal_strlit("2");
        reveal_strlit("3");
        reveal_strlit("4");
        reveal_strlit("5");
        reveal_strlit("6");
        reveal_strlit("7");
        reveal_strlit("8");
        reveal_strlit("9");
        reveal_strlit("a");
        reveal_strlit("b");
        reveal_strlit("c");
        reveal_strlit("d");
        reveal_strlit("e");
        reveal_strlit("f");
        assert(s@ =~= seq![hex_char(n)]);
    }
    s
}

impl Emulator {
    /// For a faulted machine, the human-readable reason: the unknown
    /// opcode and the address it was fetched from.  `None` unless the
    /// status is `Faulted`.
    pub fn fault_reason(&self) -> (r: Option<String>)
        ensures
            self.status matches Status::Faulted { opcode, addr } ==> r matches Some(s) && s@
                == fault_text(opcode, addr),
            !(self.status is Faulted) ==> r is None,
    {
        match self.status {
            Status::Faulted { opcode, addr } => {
                let mut s = String::from_str("unknown opcode 0x");
                s.append(hex_digit(opcode / 16));
                s.append(hex_digit(opcode % 16));
                s.append(" at 0x");
                s.append(hex_digit((addr / 4096) as u8));
                s.append(hex_digit(((addr / 256) % 16) as u8));
                s.append(hex_digit(((addr / 16) % 16) as u8));
                s.append(hex_digit((addr % 16) as u8));
                proof {
                    assert(s@ =~= fault_text(opcode, addr));
                }
                Some(s)
            },
            _ => None,
        }
    }
}

} // verus!
