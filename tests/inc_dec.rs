use emu6502::cpu::CPU;
use emu6502::ins::inc_dec::DEC;
use emu6502::mem::Addr;

#[test]
fn dec_zero_page() {
    let mut cpu = CPU::new();

    cpu.reset();
    cpu.mem.write_byte(0xFFFC, DEC(Addr::ZeroPage).code());
    cpu.mem.write_byte(0xFFFD, 0x48);
    cpu.mem.write_byte(0x0048, 0x00);

    let cpu_start = cpu.clone();
    cpu.start().unwrap();

    assert_eq!(cpu.mem.read_byte(0x0048), 0xFF);

    assert_eq!(cpu.flags.c, cpu_start.flags.c);
    assert_eq!(cpu.flags.z, false);
    assert_eq!(cpu.flags.i, cpu_start.flags.i);
    assert_eq!(cpu.flags.d, cpu_start.flags.d);
    assert_eq!(cpu.flags.b, cpu_start.flags.b);
    assert_eq!(cpu.flags.v, cpu_start.flags.v);
    assert_eq!(cpu.flags.n, true);

    assert_eq!(cpu_start.pc, 0xFFFC);
    assert_eq!(cpu.pc, 0xFFFE);
}

#[test]
fn dec_zero_page_x() {
    let mut cpu = CPU::new();

    cpu.reset();
    cpu.reg.x = 3;
    cpu.mem.write_byte(0xFFFC, DEC(Addr::ZeroPageX).code());
    cpu.mem.write_byte(0xFFFD, 0xFF);
    cpu.mem.write_byte(0x0002, 0x00); // 0xFF + 0x03 % 0xFF

    let cpu_start = cpu.clone();
    cpu.start().unwrap();

    assert_eq!(cpu.mem.read_byte(0x0002), 0xFF);

    assert_eq!(cpu.flags.c, cpu_start.flags.c);
    assert_eq!(cpu.flags.z, false);
    assert_eq!(cpu.flags.i, cpu_start.flags.i);
    assert_eq!(cpu.flags.d, cpu_start.flags.d);
    assert_eq!(cpu.flags.b, cpu_start.flags.b);
    assert_eq!(cpu.flags.v, cpu_start.flags.v);
    assert_eq!(cpu.flags.n, true);

    assert_eq!(cpu_start.pc, 0xFFFC);
    assert_eq!(cpu.pc, 0xFFFE);
}

#[test]
fn dec_absolute() {
    let mut cpu = CPU::new();

    cpu.reset();
    cpu.mem.write_byte(0xFFFC, DEC(Addr::Absolute).code());
    cpu.mem.write_byte(0xFFFD, 0x34);
    cpu.mem.write_byte(0xFFFE, 0x12); // 0x1234 (LE)
    cpu.mem.write_byte(0x1234, 0x05);

    let cpu_start = cpu.clone();
    cpu.start().unwrap();

    assert_eq!(cpu.mem.read_byte(0x1234), 0x04);

    assert_eq!(cpu.flags.c, cpu_start.flags.c);
    assert_eq!(cpu.flags.z, false);
    assert_eq!(cpu.flags.i, cpu_start.flags.i);
    assert_eq!(cpu.flags.d, cpu_start.flags.d);
    assert_eq!(cpu.flags.b, cpu_start.flags.b);
    assert_eq!(cpu.flags.v, cpu_start.flags.v);
    assert_eq!(cpu.flags.n, false);

    assert_eq!(cpu_start.pc, 0xFFFC);
    assert_eq!(cpu.pc, 0xFFFF);
}

#[test]
fn dec_absolute_x() {
    let mut cpu = CPU::new();

    cpu.reset();
    cpu.reg.x = 0x12;
    cpu.mem.write_byte(0xFFFC, DEC(Addr::AbsoluteX).code());
    cpu.mem.write_byte(0xFFFD, 0x00);
    cpu.mem.write_byte(0xFFFE, 0x44); // 0x4400 (LE)
    cpu.mem.write_byte(0x4412, 0x05);

    let cpu_start = cpu.clone();
    cpu.start().unwrap();

    assert_eq!(cpu.mem.read_byte(0x4412), 0x04);

    assert_eq!(cpu.flags.c, cpu_start.flags.c);
    assert_eq!(cpu.flags.z, false);
    assert_eq!(cpu.flags.i, cpu_start.flags.i);
    assert_eq!(cpu.flags.d, cpu_start.flags.d);
    assert_eq!(cpu.flags.b, cpu_start.flags.b);
    assert_eq!(cpu.flags.v, cpu_start.flags.v);
    assert_eq!(cpu.flags.n, false);

    assert_eq!(cpu_start.pc, 0xFFFC);
    assert_eq!(cpu.pc, 0xFFFF);
}
