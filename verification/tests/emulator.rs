use emu8080::Emulator;
use emu8080::LoadError;
use emu8080::Status;
use emu8080::parity;

fn fresh(program: &[u8]) -> Emulator {
    let mut emu = Emulator::new();
    emu.load(0, program).unwrap();
    emu
}

#[test]
fn add_all_pairs() {
    for a in 0..=255u16 {
        for b in 0..=255u16 {
            let mut emu = Emulator::new();
            emu.add(a as u8, b as u8);
            assert_eq!(emu.a, ((a + b) % 256) as u8);
            assert_eq!(emu.condition_codes.carry, a + b >= 256);
            assert_eq!(emu.condition_codes.aux_carry, (a & 0xF) + (b & 0xF) >= 16);
            assert_eq!(emu.condition_codes.zero, (a + b) % 256 == 0);
        }
    }
}

#[test]
fn parity_all_bytes() {
    for x in 0..=255u8 {
        assert_eq!(parity(x), x.count_ones() % 2 == 0);
    }
}

#[test]
fn inr_dcr_preserve_carry() {
    for value in 0..=255u8 {
        for carry in [false, true] {
            // INR A
            let mut emu = fresh(&[0x3C]);
            emu.a = value;
            emu.condition_codes.carry = carry;
            emu.step();
            assert_eq!(emu.a, value.wrapping_add(1));
            assert_eq!(emu.condition_codes.carry, carry);
            // DCR A
            let mut emu = fresh(&[0x3D]);
            emu.a = value;
            emu.condition_codes.carry = carry;
            emu.step();
            assert_eq!(emu.a, value.wrapping_sub(1));
            assert_eq!(emu.condition_codes.carry, carry);
        }
    }
}

#[test]
fn push_pop_round_trip_bc() {
    let mut emu = fresh(&[0xC5, 0xC1]); // PUSH B; POP B
    emu.b = 0xAB;
    emu.c = 0xCD;
    emu.sp = 0x2000;
    emu.step();
    assert_eq!(emu.sp, 0x1FFE);
    emu.step();
    assert_eq!(emu.b, 0xAB);
    assert_eq!(emu.c, 0xCD);
    assert_eq!(emu.sp, 0x2000);
}

#[test]
fn push_pop_round_trip_psw() {
    let mut emu = fresh(&[0xF5, 0xF1]); // PUSH PSW; POP PSW
    emu.a = 0x5A;
    emu.sp = 0x0100;
    emu.condition_codes.zero = true;
    emu.condition_codes.sign = false;
    emu.condition_codes.parity = true;
    emu.condition_codes.carry = true;
    emu.condition_codes.aux_carry = false;
    emu.step();
    emu.step();
    assert_eq!(emu.a, 0x5A);
    assert_eq!(emu.sp, 0x0100);
    assert!(emu.condition_codes.zero);
    assert!(!emu.condition_codes.sign);
    assert!(emu.condition_codes.parity);
    assert!(emu.condition_codes.carry);
    assert!(!emu.condition_codes.aux_carry);
}

#[test]
fn load_exact_fit_succeeds() {
    let mut emu = Emulator::new();
    let image = vec![0xEEu8; 65536];
    assert!(emu.load(0, &image).is_ok());
    let mut emu = Emulator::new();
    let image = vec![0xEEu8; 0x8000];
    assert!(emu.load(0x8000, &image).is_ok());
}

#[test]
fn load_one_byte_too_long_fails() {
    let mut emu = Emulator::new();
    let image = vec![0xEEu8; 65537];
    assert_eq!(emu.load(0, &image), Err(LoadError::LoadOverflow));
    let mut emu = Emulator::new();
    let image = vec![0xEEu8; 0x8001];
    assert_eq!(emu.load(0x8000, &image), Err(LoadError::LoadOverflow));
}

#[test]
fn lxi_then_hlt_scenario() {
    let mut emu = fresh(&[0x01, 0x34, 0x12, 0x76]);
    emu.step();
    assert_eq!(emu.b, 0x12);
    assert_eq!(emu.c, 0x34);
    assert_eq!(emu.pc, 3);
    emu.step();
    assert_eq!(emu.status, Status::Halted);
    assert_eq!(emu.pc, 3);
    // Halted is terminal: a further step changes nothing.
    emu.step();
    assert_eq!(emu.status, Status::Halted);
    assert_eq!(emu.pc, 3);
}

#[test]
fn add_b_overflow_scenario() {
    let mut emu = fresh(&[0x80]); // ADD B
    emu.a = 0xFF;
    emu.b = 0x01;
    emu.step();
    assert_eq!(emu.a, 0x00);
    assert!(emu.condition_codes.carry);
    assert!(emu.condition_codes.zero);
    assert!(emu.condition_codes.aux_carry);
}

#[test]
fn unmapped_opcode_faults_with_reason() {
    let mut emu = fresh(&[0x08]);
    emu.step();
    assert_eq!(emu.status, Status::Faulted { opcode: 0x08, addr: 0 });
    let reason = emu.fault_reason().unwrap();
    assert!(reason.contains("0x08"));
    assert!(reason.contains("0x0000"));
    assert_eq!(reason, "unknown opcode 0x08 at 0x0000");
    // A fault is terminal: stepping again changes nothing.
    emu.step();
    assert_eq!(emu.status, Status::Faulted { opcode: 0x08, addr: 0 });
    assert_eq!(emu.pc, 0);
}

#[test]
fn fault_reason_none_before_fault() {
    let emu = Emulator::new();
    assert!(emu.fault_reason().is_none());
}

#[test]
fn mov_between_registers_and_memory() {
    // MVI B,0x42; MOV C,B; MOV M,C (HL=0x0010); MOV A,M; HLT
    let mut emu = fresh(&[0x06, 0x42, 0x48, 0x71, 0x7E, 0x76]);
    emu.h = 0x00;
    emu.l = 0x10;
    emu.run(10);
    assert_eq!(emu.status, Status::Halted);
    assert_eq!(emu.b, 0x42);
    assert_eq!(emu.c, 0x42);
    assert_eq!(emu.a, 0x42);
}

#[test]
fn sub_sets_borrow() {
    let mut emu = fresh(&[0x90]); // SUB B
    emu.a = 0x10;
    emu.b = 0x20;
    emu.step();
    assert_eq!(emu.a, 0xF0);
    assert!(emu.condition_codes.carry);
    assert!(emu.condition_codes.sign);
    assert!(!emu.condition_codes.zero);
}

#[test]
fn logic_ops_clear_carry() {
    let mut emu = fresh(&[0xA1]); // ANA C
    emu.a = 0b1100_1100;
    emu.c = 0b1010_1010;
    emu.condition_codes.carry = true;
    emu.step();
    assert_eq!(emu.a, 0b1000_1000);
    assert!(!emu.condition_codes.carry);
    assert!(!emu.condition_codes.aux_carry);

    let mut emu = fresh(&[0xA9]); // XRA C
    emu.a = 0b1100_1100;
    emu.c = 0b1010_1010;
    emu.condition_codes.carry = true;
    emu.step();
    assert_eq!(emu.a, 0b0110_0110);
    assert!(!emu.condition_codes.carry);

    let mut emu = fresh(&[0xB1]); // ORA C
    emu.a = 0b1100_1100;
    emu.c = 0b1010_1010;
    emu.condition_codes.carry = true;
    emu.step();
    assert_eq!(emu.a, 0b1110_1110);
    assert!(!emu.condition_codes.carry);
}

#[test]
fn compare_immediate_sets_zero_keeps_accumulator() {
    let mut emu = fresh(&[0xFE, 0x42]); // CPI 0x42
    emu.a = 0x42;
    emu.step();
    assert_eq!(emu.a, 0x42);
    assert!(emu.condition_codes.zero);
    assert!(!emu.condition_codes.carry);
    assert_eq!(emu.pc, 2);
}

#[test]
fn adc_uses_carry_in() {
    let mut emu = fresh(&[0x88]); // ADC B
    emu.a = 0x01;
    emu.b = 0x01;
    emu.condition_codes.carry = true;
    emu.step();
    assert_eq!(emu.a, 0x03);
    assert!(!emu.condition_codes.carry);
}

#[test]
fn sbb_uses_borrow_in() {
    let mut emu = fresh(&[0x98]); // SBB B
    emu.a = 0x05;
    emu.b = 0x02;
    emu.condition_codes.carry = true;
    emu.step();
    assert_eq!(emu.a, 0x02);
    assert!(!emu.condition_codes.carry);
}

#[test]
fn rotates() {
    let mut emu = fresh(&[0x07]); // RLC
    emu.a = 0x80;
    emu.step();
    assert_eq!(emu.a, 0x01);
    assert!(emu.condition_codes.carry);

    let mut emu = fresh(&[0x0F]); // RRC
    emu.a = 0x01;
    emu.step();
    assert_eq!(emu.a, 0x80);
    assert!(emu.condition_codes.carry);

    let mut emu = fresh(&[0x17]); // RAL
    emu.a = 0x80;
    emu.condition_codes.carry = false;
    emu.step();
    assert_eq!(emu.a, 0x00);
    assert!(emu.condition_codes.carry);

    let mut emu = fresh(&[0x1F]); // RAR
    emu.a = 0x01;
    emu.condition_codes.carry = true;
    emu.step();
    assert_eq!(emu.a, 0x80);
    assert!(emu.condition_codes.carry);
}

#[test]
fn dad_sets_carry_on_16_bit_overflow() {
    let mut emu = fresh(&[0x09]); // DAD B
    emu.h = 0xFF;
    emu.l = 0xFF;
    emu.b = 0x00;
    emu.c = 0x01;
    emu.step();
    assert_eq!(emu.h, 0x00);
    assert_eq!(emu.l, 0x00);
    assert!(emu.condition_codes.carry);
}

#[test]
fn inx_dcx_wrap_without_flags() {
    let mut emu = fresh(&[0x33]); // INX SP
    emu.sp = 0xFFFF;
    emu.step();
    assert_eq!(emu.sp, 0x0000);
    assert!(!emu.condition_codes.zero);

    let mut emu = fresh(&[0x0B]); // DCX B
    emu.b = 0x00;
    emu.c = 0x00;
    emu.step();
    assert_eq!(emu.b, 0xFF);
    assert_eq!(emu.c, 0xFF);
}

#[test]
fn jumps_conditional_and_not() {
    let mut emu = fresh(&[0xC3, 0x10, 0x00]); // JMP 0x0010
    emu.step();
    assert_eq!(emu.pc, 0x0010);

    let mut emu = fresh(&[0xC2, 0x10, 0x00]); // JNZ 0x0010
    emu.condition_codes.zero = true;
    emu.step();
    assert_eq!(emu.pc, 3);

    let mut emu = fresh(&[0xCA, 0x10, 0x00]); // JZ 0x0010
    emu.condition_codes.zero = true;
    emu.step();
    assert_eq!(emu.pc, 0x0010);
}

#[test]
fn call_and_ret() {
    // 0x0000: CALL 0x0005; 0x0003: HLT; 0x0005: RET
    let mut emu = fresh(&[0xCD, 0x05, 0x00, 0x76, 0x00, 0xC9]);
    emu.sp = 0x1000;
    emu.step();
    assert_eq!(emu.pc, 0x0005);
    assert_eq!(emu.sp, 0x0FFE);
    emu.step();
    assert_eq!(emu.pc, 0x0003);
    assert_eq!(emu.sp, 0x1000);
    emu.step();
    assert_eq!(emu.status, Status::Halted);
}

#[test]
fn conditional_return_falls_through() {
    let mut emu = fresh(&[0xC0]); // RNZ with zero set: fall through
    emu.sp = 0x1000;
    emu.condition_codes.zero = true;
    emu.step();
    assert_eq!(emu.pc, 1);
    assert_eq!(emu.sp, 0x1000);
}

#[test]
fn rst_calls_fixed_address() {
    let mut emu = fresh(&[0xD7]); // RST 2
    emu.sp = 0x1000;
    emu.step();
    assert_eq!(emu.pc, 0x0010);
    assert_eq!(emu.sp, 0x0FFE);
}

#[test]
fn xthl_swaps_with_top_of_stack() {
    let mut emu = fresh(&[0xE3]); // XTHL
    emu.h = 0x12;
    emu.l = 0x34;
    emu.sp = 0x0100;
    emu.load(0x0100, &[0xCD, 0xAB]).unwrap();
    emu.step();
    assert_eq!(emu.h, 0xAB);
    assert_eq!(emu.l, 0xCD);
    assert_eq!(emu.memory.read_word(0x0100), 0x1234);
    assert_eq!(emu.sp, 0x0100);
    assert_eq!(emu.pc, 1);
}

#[test]
fn pchl_and_sphl() {
    let mut emu = fresh(&[0xE9]); // PCHL
    emu.h = 0x20;
    emu.l = 0x30;
    emu.step();
    assert_eq!(emu.pc, 0x2030);

    let mut emu = fresh(&[0xF9]); // SPHL
    emu.h = 0x20;
    emu.l = 0x30;
    emu.step();
    assert_eq!(emu.sp, 0x2030);
    assert_eq!(emu.pc, 1);
}

#[test]
fn xchg_swaps_pairs() {
    let mut emu = fresh(&[0xEB]);
    emu.d = 1;
    emu.e = 2;
    emu.h = 3;
    emu.l = 4;
    emu.step();
    assert_eq!((emu.d, emu.e, emu.h, emu.l), (3, 4, 1, 2));
}

#[test]
fn load_store_absolute_and_indirect() {
    // STA 0x0020; LDA 0x0021 — store accumulator, then load a different cell
    let mut emu = fresh(&[0x32, 0x20, 0x00, 0x3A, 0x21, 0x00, 0x76]);
    emu.a = 0x99;
    emu.step();
    emu.step();
    assert_eq!(emu.a, 0x00);

    // SHLD 0x0030 then LHLD 0x0030 round trip
    let mut emu = fresh(&[0x22, 0x30, 0x00, 0x21, 0x00, 0x00, 0x2A, 0x30, 0x00, 0x76]);
    emu.h = 0x77;
    emu.l = 0x66;
    emu.run(10);
    assert_eq!(emu.status, Status::Halted);
    assert_eq!(emu.h, 0x77);
    assert_eq!(emu.l, 0x66);

    // STAX D / LDAX D
    let mut emu = fresh(&[0x12, 0x3E, 0x00, 0x1A, 0x76]);
    emu.a = 0x55;
    emu.d = 0x00;
    emu.e = 0x40;
    emu.step(); // STAX D: mem[0x0040] = 0x55
    emu.step(); // MVI A, 0x00
    assert_eq!(emu.a, 0x00);
    emu.step(); // LDAX D
    assert_eq!(emu.a, 0x55);
}

#[test]
fn in_out_default_hooks() {
    let mut emu = fresh(&[0xDB, 0x07]); // IN 7
    emu.a = 0x42;
    emu.step();
    assert_eq!(emu.a, 0x00);
    assert_eq!(emu.pc, 2);

    let mut emu = fresh(&[0xD3, 0x07]); // OUT 7
    emu.a = 0x42;
    emu.step();
    assert_eq!(emu.a, 0x42);
    assert_eq!(emu.pc, 2);
}

#[test]
fn ei_di_toggle_interrupt_enable() {
    let mut emu = fresh(&[0xFB, 0xF3]);
    assert!(!emu.int_enable);
    emu.step();
    assert!(emu.int_enable);
    emu.step();
    assert!(!emu.int_enable);
}

#[test]
fn cma_stc_cmc() {
    let mut emu = fresh(&[0x2F, 0x37, 0x3F]);
    emu.a = 0b1010_0101;
    emu.step();
    assert_eq!(emu.a, 0b0101_1010);
    emu.step();
    assert!(emu.condition_codes.carry);
    emu.step();
    assert!(!emu.condition_codes.carry);
}

#[test]
fn run_until_halt_and_budget() {
    // INR A; JMP 0 — loops forever, so only the budget stops it.
    let mut emu = fresh(&[0x3C, 0xC3, 0x00, 0x00]);
    emu.run(9);
    assert_eq!(emu.status, Status::Running);
    assert_eq!(emu.a, 5); // 5 increments in 9 steps (INR,JMP repeated)

    let mut emu = fresh(&[0x3C, 0x3C, 0x76]);
    emu.run(100);
    assert_eq!(emu.status, Status::Halted);
    assert_eq!(emu.a, 2);
}

#[test]
fn step_on_standby_starts_running() {
    let mut emu = fresh(&[0x00, 0x00]);
    assert_eq!(emu.status, Status::Standby);
    emu.step();
    assert_eq!(emu.status, Status::Running);
    assert_eq!(emu.pc, 1);
}

#[test]
fn get_hl_offset_composes_pair() {
    let mut emu = Emulator::new();
    emu.h = 0x12;
    emu.l = 0x34;
    assert_eq!(emu.get_hl_offset(), 0x1234);
}

#[test]
fn condition_codes_new_all_clear() {
    let cc = emu8080::ConditionCodes::new();
    assert!(!cc.zero && !cc.sign && !cc.parity && !cc.carry && !cc.aux_carry);
}

#[test]
fn update_condition_follows_accumulator() {
    let mut emu = Emulator::new();
    emu.a = 0x00;
    emu.update_condition();
    assert!(emu.condition_codes.zero);
    assert!(!emu.condition_codes.sign);
    assert!(emu.condition_codes.parity);
    emu.a = 0x81; // two bits set, bit 7 set
    emu.update_condition();
    assert!(!emu.condition_codes.zero);
    assert!(emu.condition_codes.sign);
    assert!(emu.condition_codes.parity);
}

#[test]
fn sub_method_direct() {
    let mut emu = Emulator::new();
    emu.sub(0x05, 0x07);
    assert_eq!(emu.a, 0xFE);
    assert!(emu.condition_codes.carry);
}

#[test]
fn memory_word_wraps_at_top() {
    let mut mem = emu8080::Memory::new();
    mem.write_word(0xFFFF, 0xBEEF);
    assert_eq!(mem.read_byte(0xFFFF), 0xEF);
    assert_eq!(mem.read_byte(0x0000), 0xBE);
    assert_eq!(mem.read_word(0xFFFF), 0xBEEF);
}

#[test]
fn mvi_into_memory() {
    let mut emu = fresh(&[0x36, 0x9A]); // MVI M, 0x9A
    emu.h = 0x01;
    emu.l = 0x00;
    emu.step();
    assert_eq!(emu.memory.read_byte(0x0100), 0x9A);
    assert_eq!(emu.pc, 2);
}

#[test]
fn load_overlays_only_requested_range() {
    let mut emu = Emulator::new();
    emu.load(0x0010, &[1, 2, 3]).unwrap();
    assert_eq!(emu.memory.read_byte(0x000F), 0);
    assert_eq!(emu.memory.read_byte(0x0010), 1);
    assert_eq!(emu.memory.read_byte(0x0012), 3);
    assert_eq!(emu.memory.read_byte(0x0013), 0);
}
