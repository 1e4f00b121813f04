use emu6502::cpu::{Fault, Registers, Status, StatusFlags, CPU};
use emu6502::ins::inc_dec::{DEC, DEY, INC, INX};
use emu6502::ins::load_store::{LDA, STX};
use emu6502::ins::logical::{AND, BIT, EOR, ORA};
use emu6502::ins::reg_transfers::{TAX, TXA};
use emu6502::ins::stack_ops::{PHA, PHP, PLA, PLP, TSX, TXS};
use emu6502::ins::status_flags::{CLC, SEC, SED, SEI};
use emu6502::ins::sys_funcs::BRK;
use emu6502::ins::{Instruction, InstructionDecoder};
use emu6502::mem::{Addr, Memory};

fn load(cpu: &mut CPU, program: &[u8]) {
    let mut at: u16 = 0xFFFC;
    for b in program {
        cpu.mem.write_byte(at, *b);
        at = at.wrapping_add(1);
    }
}

fn same_state(a: &CPU, b: &CPU) -> bool {
    if a.pc != b.pc || a.sp != b.sp || a.reg != b.reg || a.flags != b.flags {
        return false;
    }
    (0..=0xFFFFu16).all(|i| a.mem.read_byte(i) == b.mem.read_byte(i))
}

#[test]
fn lda_immediate_at_reset_vector() {
    let mut cpu = CPU::new();
    load(&mut cpu, &[0xA9, 0x84]);
    assert_eq!(cpu.start(), Ok(Status::Running));
    assert_eq!(cpu.reg.acc, 0x84);
    assert!(!cpu.flags.z);
    assert!(cpu.flags.n);
    assert_eq!(cpu.pc, 0xFFFE);
}

#[test]
fn lda_zero_page_x_wraps_in_page_zero() {
    let mut cpu = CPU::new();
    cpu.reg.x = 0x02;
    load(&mut cpu, &[0xB5, 0xFF]);
    cpu.mem.write_byte(0x0001, 0x85);
    cpu.mem.write_byte(0x0101, 0x11);
    cpu.start().unwrap();
    assert_eq!(cpu.reg.acc, 0x85);
}

#[test]
fn lda_x_indexed_indirect_scenario() {
    let mut cpu = CPU::new();
    cpu.reg.x = 0x04;
    load(&mut cpu, &[0xA1, 0x02]);
    cpu.mem.write_byte(0x0006, 0x00);
    cpu.mem.write_byte(0x0007, 0x80);
    cpu.mem.write_byte(0x8000, 0x37);
    cpu.start().unwrap();
    assert_eq!(cpu.reg.acc, 0x37);
}

#[test]
fn lda_indirect_y_indexed_scenario() {
    let mut cpu = CPU::new();
    cpu.reg.y = 0x04;
    load(&mut cpu, &[0xB1, 0x02]);
    cpu.mem.write_byte(0x0002, 0x00);
    cpu.mem.write_byte(0x0003, 0x80);
    cpu.mem.write_byte(0x8004, 0x37);
    cpu.start().unwrap();
    assert_eq!(cpu.reg.acc, 0x37);
}

#[test]
fn jsr_sets_pc_to_target() {
    let mut cpu = CPU::new();
    load(&mut cpu, &[0x20, 0x32, 0x42]);
    cpu.start().unwrap();
    assert_eq!(cpu.pc, 0x4232);
    assert_eq!(cpu.sp, 0xFF);
}

#[test]
fn bit_takes_v_and_n_from_operand() {
    let mut cpu = CPU::new();
    cpu.reg.acc = 0x00;
    load(&mut cpu, &[0x24, 0x10]);
    cpu.mem.write_byte(0x0010, 0xC0);
    cpu.start().unwrap();
    assert!(cpu.flags.z);
    assert!(cpu.flags.v);
    assert!(cpu.flags.n);
    assert_eq!(cpu.reg.acc, 0x00);
    assert_eq!(cpu.pc, 0xFFFE);
}

#[test]
fn bit_absolute_clears_z_when_bits_overlap() {
    let mut cpu = CPU::new();
    cpu.reg.acc = 0x01;
    load(&mut cpu, &[0x2C, 0x00, 0x30]);
    cpu.mem.write_byte(0x3000, 0x01);
    cpu.start().unwrap();
    assert!(!cpu.flags.z);
    assert!(!cpu.flags.v);
    assert!(!cpu.flags.n);
    assert_eq!(cpu.pc, 0xFFFF);
}

#[test]
fn lda_immediate_flags_for_every_byte() {
    for v in 0..=255u8 {
        let mut cpu = CPU::new();
        load(&mut cpu, &[0xA9, v]);
        cpu.start().unwrap();
        assert_eq!(cpu.reg.acc, v);
        assert_eq!(cpu.flags.z, v == 0);
        assert_eq!(cpu.flags.n, v & 0x80 != 0);
    }
}

#[test]
fn inc_wraps_ff_to_zero() {
    let mut cpu = CPU::new();
    cpu.mem.write_byte(0x0040, 0xFF);
    load(&mut cpu, &[INC(Addr::ZeroPage).code(), 0x40]);
    cpu.flags.c = true;
    cpu.start().unwrap();
    assert_eq!(cpu.mem.read_byte(0x0040), 0x00);
    assert!(cpu.flags.z);
    assert!(!cpu.flags.n);
    assert!(cpu.flags.c);
}

#[test]
fn inc_sets_flags_from_result() {
    let mut cpu = CPU::new();
    cpu.mem.write_byte(0x1234, 0x7F);
    load(&mut cpu, &[0xEE, 0x34, 0x12]);
    cpu.start().unwrap();
    assert_eq!(cpu.mem.read_byte(0x1234), 0x80);
    assert!(!cpu.flags.z);
    assert!(cpu.flags.n);
    assert_eq!(cpu.pc, 0xFFFF);
}

#[test]
fn dec_wraps_zero_to_ff() {
    let mut cpu = CPU::new();
    cpu.reg.x = 0x01;
    cpu.mem.write_byte(0x4401, 0x00);
    load(&mut cpu, &[DEC(Addr::AbsoluteX).code(), 0x00, 0x44]);
    cpu.start().unwrap();
    assert_eq!(cpu.mem.read_byte(0x4401), 0xFF);
    assert!(!cpu.flags.z);
    assert!(cpu.flags.n);
}

#[test]
fn register_increments_and_decrements_wrap() {
    let mut cpu = CPU::new();
    cpu.reg.x = 0xFF;
    INX(Addr::Implicit).execute(&mut cpu).unwrap();
    assert_eq!(cpu.reg.x, 0x00);
    assert!(cpu.flags.z);
    DEY(Addr::Implicit).execute(&mut cpu).unwrap();
    assert_eq!(cpu.reg.y, 0xFF);
    assert!(cpu.flags.n);
    assert!(!cpu.flags.z);
    assert_eq!(cpu.pc, 0xFFFE);
}

#[test]
fn status_byte_round_trip_for_all_flags() {
    for bits in 0..128u8 {
        let flags = StatusFlags {
            c: bits & 1 != 0,
            z: bits & 2 != 0,
            i: bits & 4 != 0,
            d: bits & 8 != 0,
            b: bits & 16 != 0,
            v: bits & 32 != 0,
            n: bits & 64 != 0,
        };
        assert_eq!(StatusFlags::from_byte(flags.to_byte()), flags);
    }
    for value in 0..=255u8 {
        assert_eq!(StatusFlags::from_byte(value).to_byte(), value & 0xDF);
    }
}

#[test]
fn pha_then_pla_restores_accumulator() {
    let mut cpu = CPU::new();
    cpu.reg.acc = 0x5A;
    load(&mut cpu, &[0x48, 0xA9, 0x00, 0x68]);
    cpu.start().unwrap();
    assert_eq!(cpu.sp, 0xFE);
    assert_eq!(cpu.mem.read_byte(0x01FF), 0x5A);
    cpu.start().unwrap();
    assert_eq!(cpu.reg.acc, 0x00);
    cpu.start().unwrap();
    assert_eq!(cpu.reg.acc, 0x5A);
    assert_eq!(cpu.sp, 0xFF);
    assert!(!cpu.flags.z);
    assert!(!cpu.flags.n);
}

#[test]
fn stack_pointer_wraps_at_page_edges() {
    let mut cpu = CPU::new();
    cpu.sp = 0x00;
    cpu.reg.acc = 0x99;
    PHA(Addr::Implicit).execute(&mut cpu).unwrap();
    assert_eq!(cpu.mem.read_byte(0x0100), 0x99);
    assert_eq!(cpu.sp, 0xFF);
    cpu.reg.acc = 0;
    cpu.sp = 0xFF;
    PLA(Addr::Implicit).execute(&mut cpu).unwrap();
    assert_eq!(cpu.sp, 0x00);
    assert_eq!(cpu.reg.acc, 0x99);
    assert!(cpu.flags.n);
}

#[test]
fn php_then_plp_restores_flags() {
    let mut cpu = CPU::new();
    cpu.flags = StatusFlags { c: true, z: false, i: true, d: false, b: false, v: true, n: true };
    let saved = cpu.flags;
    PHP(Addr::Implicit).execute(&mut cpu).unwrap();
    assert_eq!(cpu.mem.read_byte(0x01FF), 0b1100_0101);
    cpu.flags.clear();
    PLP(Addr::Implicit).execute(&mut cpu).unwrap();
    assert_eq!(cpu.flags, saved);
    assert_eq!(cpu.sp, 0xFF);
}

#[test]
fn transfers_copy_and_set_flags() {
    let mut cpu = CPU::new();
    cpu.reg.acc = 0x80;
    TAX(Addr::Implicit).execute(&mut cpu).unwrap();
    assert_eq!(cpu.reg.x, 0x80);
    assert!(cpu.flags.n);
    assert_eq!(cpu.pc, 0xFFFD);
    cpu.reg.x = 0x00;
    TXA(Addr::Implicit).execute(&mut cpu).unwrap();
    assert_eq!(cpu.reg.acc, 0x00);
    assert!(cpu.flags.z);
    assert!(!cpu.flags.n);
}

#[test]
fn tsx_and_txs_move_the_stack_pointer() {
    let mut cpu = CPU::new();
    cpu.sp = 0x00;
    TSX(Addr::Implicit).execute(&mut cpu).unwrap();
    assert_eq!(cpu.reg.x, 0x00);
    assert!(cpu.flags.z);
    cpu.reg.x = 0x80;
    cpu.flags.clear();
    TXS(Addr::Implicit).execute(&mut cpu).unwrap();
    assert_eq!(cpu.sp, 0x80);
    assert_eq!(cpu.flags, StatusFlags::new());
    assert_eq!(cpu.pc, 0xFFFE);
}

#[test]
fn logical_operations_on_accumulator() {
    let mut cpu = CPU::new();
    cpu.reg.acc = 0b1100_1100;
    load(&mut cpu, &[0x29, 0b1010_1010]);
    AND(Addr::Immediate).execute(&mut cpu).unwrap();
    assert_eq!(cpu.reg.acc, 0b1000_1000);
    assert!(cpu.flags.n);
    cpu.pc = 0xFFFC;
    cpu.mem.write_byte(0xFFFC, 0x49);
    EOR(Addr::Immediate).execute(&mut cpu).unwrap();
    assert_eq!(cpu.reg.acc, 0b0010_0010);
    assert!(!cpu.flags.n);
    cpu.pc = 0xFFFC;
    cpu.mem.write_byte(0xFFFD, 0x00);
    cpu.reg.acc = 0;
    ORA(Addr::Immediate).execute(&mut cpu).unwrap();
    assert_eq!(cpu.reg.acc, 0);
    assert!(cpu.flags.z);
}

#[test]
fn flag_instructions_touch_one_flag() {
    let mut cpu = CPU::new();
    SEC(Addr::Implicit).execute(&mut cpu).unwrap();
    SED(Addr::Implicit).execute(&mut cpu).unwrap();
    SEI(Addr::Implicit).execute(&mut cpu).unwrap();
    let set = StatusFlags { c: true, z: false, i: true, d: true, b: false, v: false, n: false };
    assert_eq!(cpu.flags, set);
    CLC(Addr::Implicit).execute(&mut cpu).unwrap();
    assert_eq!(cpu.flags, StatusFlags { c: false, ..set });
    assert_eq!(cpu.pc, 0xFFFC_u16.wrapping_add(4));
    assert_eq!(cpu.reg, Registers { acc: 0, x: 0, y: 0 });
}

#[test]
fn pc_advances_by_encoded_length() {
    let mut cpu = CPU::new();
    cpu.pc = 0x0200;
    let program = [0xA9, 0x01, 0x85, 0x10, 0x8E, 0x00, 0x30, 0xE8, 0xB1, 0x10];
    for (k, b) in program.iter().enumerate() {
        cpu.mem.write_byte(0x0200 + k as u16, *b);
    }
    let expected = [0x0202u16, 0x0204, 0x0207, 0x0208, 0x020A];
    for pc in expected {
        assert_eq!(cpu.start(), Ok(Status::Running));
        assert_eq!(cpu.pc, pc);
    }
}

#[test]
fn brk_halts_the_run() {
    let mut cpu = CPU::new();
    cpu.pc = 0x0200;
    for (k, b) in [0xA2u8, 0x05, 0xCA, 0x00].iter().enumerate() {
        cpu.mem.write_byte(0x0200 + k as u16, *b);
    }
    assert_eq!(cpu.run(100), Ok(Status::Halted));
    assert_eq!(cpu.reg.x, 0x04);
    assert!(cpu.flags.b);
    assert_eq!(cpu.pc, 0xFFFE);
    let mut direct = CPU::new();
    BRK(Addr::Implicit).execute(&mut direct).unwrap();
    assert_eq!(direct.pc, 0xFFFE);
}

#[test]
fn run_stops_after_the_step_budget() {
    let mut cpu = CPU::new();
    cpu.pc = 0x0200;
    for k in 0..10u16 {
        cpu.mem.write_byte(0x0200 + k, 0xE8);
    }
    assert_eq!(cpu.run(3), Ok(Status::Running));
    assert_eq!(cpu.reg.x, 3);
    assert_eq!(cpu.pc, 0x0203);
    assert_eq!(cpu.run(0), Ok(Status::Running));
    assert_eq!(cpu.pc, 0x0203);
}

#[test]
fn runs_from_equal_states_agree() {
    let mut a = CPU::new();
    a.pc = 0x0300;
    let program = [0xA9, 0x42, 0x48, 0xE8, 0x8E, 0x00, 0x20, 0x68, 0x00];
    for (k, b) in program.iter().enumerate() {
        a.mem.write_byte(0x0300 + k as u16, *b);
    }
    let mut b = a.clone();
    assert_eq!(a.run(50), b.run(50));
    assert!(same_state(&a, &b));
    assert_eq!(a.mem.read_byte(0x2000), 1);
}

#[test]
fn undefined_opcode_is_a_decode_fault() {
    let mut cpu = CPU::new();
    cpu.reg.acc = 7;
    load(&mut cpu, &[0xFF]);
    assert_eq!(cpu.start(), Err(Fault::Decode { opcode: 0xFF, pc: 0xFFFC }));
    assert_eq!(cpu.pc, 0xFFFC);
    assert_eq!(cpu.reg.acc, 7);
    assert_eq!(cpu.run(10), Err(Fault::Decode { opcode: 0xFF, pc: 0xFFFC }));
    assert!(InstructionDecoder::from_byte(0x02).is_none());
}

#[test]
fn unsupported_mode_is_a_fault() {
    let mut cpu = CPU::new();
    cpu.reg.acc = 3;
    assert_eq!(
        LDA(Addr::Implicit).execute(&mut cpu),
        Err(Fault::UnsupportedAddressing { mode: Addr::Implicit, pc: 0xFFFC })
    );
    assert_eq!(cpu.reg.acc, 3);
    assert_eq!(cpu.pc, 0xFFFC);
    assert_eq!(STX(Addr::AbsoluteX).opcode(), None);
    assert_eq!(Instruction::BRK(BRK(Addr::Absolute)).opcode(), None);
}

#[test]
fn opcode_table_and_encodings_agree() {
    let mut defined = 0;
    for b in 0..=255u8 {
        if let Some(ins) = InstructionDecoder::from_byte(b) {
            defined += 1;
            assert_eq!(ins.code(), b);
        }
    }
    assert_eq!(defined, 88);
    assert_eq!(LDA(Addr::Immediate).code(), 0xA9);
    assert_eq!(PHP(Addr::Implicit).code(), 0x08);
}

#[test]
fn words_are_little_endian_and_wrap() {
    let mut mem = Memory::new();
    mem.write_word(0x1000, 0xBEEF);
    assert_eq!(mem.read_byte(0x1000), 0xEF);
    assert_eq!(mem.read_byte(0x1001), 0xBE);
    assert_eq!(mem.read_word(0x1000), 0xBEEF);
    mem.write_word(0xFFFF, 0x1234);
    assert_eq!(mem.read_byte(0xFFFF), 0x34);
    assert_eq!(mem.read_byte(0x0000), 0x12);
    assert_eq!(mem.read_word(0xFFFF), 0x1234);
    mem.init();
    assert_eq!(mem.read_word(0xFFFF), 0);
}

#[test]
fn reset_restores_power_on_state() {
    let mut cpu = CPU::new();
    cpu.pc = 0x1234;
    cpu.sp = 0x10;
    cpu.reg.y = 9;
    cpu.flags.v = true;
    cpu.write_byte(0x4000, 1);
    cpu.write_word(0x5000, 0x0203);
    assert_eq!(cpu.read_word(0x5000), 0x0203);
    cpu.reset();
    assert_eq!(cpu.pc, 0xFFFC);
    assert_eq!(cpu.sp, 0xFF);
    assert_eq!(cpu.reg, Registers { acc: 0, x: 0, y: 0 });
    assert_eq!(cpu.flags, StatusFlags::new());
    assert_eq!(cpu.read_byte(0x4000), 0);
    assert_eq!(cpu.read_word(0x5000), 0);
    assert_eq!(CPU::stack_address(0x34), 0x0134);
    assert_eq!(cpu.fetch(), 0);
}
