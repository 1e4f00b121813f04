use emu6502::cpu::CPU;
use emu6502::ins::load_store::{LDA, LDX, LDY, STA};
use emu6502::mem::Addr;

#[test]
fn lda_immediate() {
    let mut cpu = CPU::new();

    cpu.reset();
    cpu.mem.write_byte(0xFFFC, LDA(Addr::Immediate).code());
    cpu.mem.write_byte(0xFFFD, 0x84);

    let cpu_start = cpu.clone();
    cpu.start().unwrap();

    assert_eq!(cpu.reg.acc, 0x84);

    assert_eq!(cpu.flags.c, cpu_start.flags.c);
    assert_eq!(cpu.flags.z, false);
    assert_eq!(cpu.flags.i, cpu_start.flags.i);
    assert_eq!(cpu.flags.d, cpu_start.flags.d);
    assert_eq!(cpu.flags.b, cpu_start.flags.b);
    assert_eq!(cpu.flags.v, cpu_start.flags.v);
    assert_eq!(cpu.flags.n, true);
}

#[test]
fn lda_zero_page() {
    let mut cpu = CPU::new();

    cpu.reset();
    cpu.mem.write_byte(0xFFFC, LDA(Addr::ZeroPage).code());
    cpu.mem.write_byte(0xFFFD, 0x42);
    cpu.mem.write_byte(0x0042, 0x84);

    let cpu_start = cpu.clone();
    cpu.start().unwrap();

    assert_eq!(cpu.reg.acc, 0x84);

    assert_eq!(cpu.flags.c, cpu_start.flags.c);
    assert_eq!(cpu.flags.z, false);
    assert_eq!(cpu.flags.i, cpu_start.flags.i);
    assert_eq!(cpu.flags.d, cpu_start.flags.d);
    assert_eq!(cpu.flags.b, cpu_start.flags.b);
    assert_eq!(cpu.flags.v, cpu_start.flags.v);
    assert_eq!(cpu.flags.n, true);
}

#[test]
fn lda_zero_page_x() {
    let mut cpu = CPU::new();

    cpu.reset();
    cpu.reg.x = 0x02;
    cpu.mem.write_byte(0xFFFC, LDA(Addr::ZeroPageX).code());
    cpu.mem.write_byte(0xFFFD, 0xFF);
    cpu.mem.write_byte(0x0001, 0x85); // 0xFF + 0x02 % 0xFF = 0x01

    let cpu_start = cpu.clone();
    cpu.start().unwrap();

    assert_eq!(cpu.reg.acc, 0x85);

    assert_eq!(cpu.flags.c, cpu_start.flags.c);
    assert_eq!(cpu.flags.z, false);
    assert_eq!(cpu.flags.i, cpu_start.flags.i);
    assert_eq!(cpu.flags.d, cpu_start.flags.d);
    assert_eq!(cpu.flags.b, cpu_start.flags.b);
    assert_eq!(cpu.flags.v, cpu_start.flags.v);
    assert_eq!(cpu.flags.n, true);
}

#[test]
fn lda_absolute() {
    let mut cpu = CPU::new();

    cpu.reset();
    cpu.mem.write_byte(0xFFFD, 0x80);
    cpu.mem.write_byte(0xFFFC, LDA(Addr::Absolute).code());
    cpu.mem.write_byte(0xFFFE, 0x44); // 0x4480 (LE)
    cpu.mem.write_byte(0x4480, 0x37);

    let cpu_start = cpu.clone();
    cpu.start().unwrap();

    assert_eq!(cpu.reg.acc, 0x37);

    assert_eq!(cpu.flags.c, cpu_start.flags.c);
    assert_eq!(cpu.flags.z, false);
    assert_eq!(cpu.flags.i, cpu_start.flags.i);
    assert_eq!(cpu.flags.d, cpu_start.flags.d);
    assert_eq!(cpu.flags.b, cpu_start.flags.b);
    assert_eq!(cpu.flags.v, cpu_start.flags.v);
    assert_eq!(cpu.flags.n, false);
}

#[test]
fn lda_absolute_x() {
    let mut cpu = CPU::new();

    cpu.reset();
    cpu.reg.x = 0x12;
    cpu.mem.write_byte(0xFFFC, LDA(Addr::AbsoluteX).code());
    cpu.mem.write_byte(0xFFFD, 0x00);
    cpu.mem.write_byte(0xFFFE, 0x44); // 0x4400 (LE)
    cpu.mem.write_byte(0x4412, 0x37);

    let cpu_start = cpu.clone();
    cpu.start().unwrap();

    assert_eq!(cpu.reg.acc, 0x37);

    assert_eq!(cpu.flags.c, cpu_start.flags.c);
    assert_eq!(cpu.flags.z, false);
    assert_eq!(cpu.flags.i, cpu_start.flags.i);
    assert_eq!(cpu.flags.d, cpu_start.flags.d);
    assert_eq!(cpu.flags.b, cpu_start.flags.b);
    assert_eq!(cpu.flags.v, cpu_start.flags.v);
    assert_eq!(cpu.flags.n, false);

}

#[test]
fn lda_absolute_y() {
    let mut cpu = CPU::new();

    cpu.reset();
    cpu.reg.y = 0x12;
    cpu.mem.write_byte(0xFFFC, LDA(Addr::AbsoluteY).code());
    cpu.mem.write_byte(0xFFFD, 0x00);
    cpu.mem.write_byte(0x4412, 0x37);
    cpu.mem.write_byte(0xFFFE, 0x44); // 0x4400 (LE)

    let cpu_start = cpu.clone();
    cpu.start().unwrap();

    assert_eq!(cpu.reg.acc, 0x37);

    assert_eq!(cpu.flags.c, cpu_start.flags.c);
    assert_eq!(cpu.flags.z, false);
    assert_eq!(cpu.flags.i, cpu_start.flags.i);
    assert_eq!(cpu.flags.d, cpu_start.flags.d);
    assert_eq!(cpu.flags.b, cpu_start.flags.b);
    assert_eq!(cpu.flags.v, cpu_start.flags.v);
    assert_eq!(cpu.flags.n, false);
}

#[test]
fn lda_x_indirect() {
    let mut cpu = CPU::new();

    cpu.reset();
    cpu.reg.x = 0x04;
    cpu.mem.write_byte(0xFFFC, LDA(Addr::XIndirect).code());
    cpu.mem.write_byte(0xFFFD, 0x02); // 0x02 + 0x04 = 0x06
    cpu.mem.write_byte(0x0006, 0x00);
    cpu.mem.write_byte(0x0007, 0x80); // 0x8000 (LE)
    cpu.mem.write_byte(0x8000, 0x37);

    let cpu_start = cpu.clone();
    cpu.start().unwrap();

    assert_eq!(cpu.reg.acc, 0x37);

    assert_eq!(cpu.flags.c, cpu_start.flags.c);
    assert_eq!(cpu.flags.z, false);
    assert_eq!(cpu.flags.i, cpu_start.flags.i);
    assert_eq!(cpu.flags.d, cpu_start.flags.d);
    assert_eq!(cpu.flags.b, cpu_start.flags.b);
    assert_eq!(cpu.flags.v, cpu_start.flags.v);
    assert_eq!(cpu.flags.n, false);
}

#[test]
fn lda_indirect_y() {
    let mut cpu = CPU::new();

    cpu.reset();
    cpu.reg.y = 0x04;
    cpu.mem.write_byte(0xFFFC, LDA(Addr::IndirectY).code());
    cpu.mem.write_byte(0xFFFD, 0x02);
    cpu.mem.write_byte(0x0002, 0x00);
    cpu.mem.write_byte(0x0003, 0x80); // 0x8000 (LE)
    cpu.mem.write_byte(0x8004, 0x37); // 0x8000 + 0x0004

    let cpu_start = cpu.clone();
    cpu.start().unwrap();

    assert_eq!(cpu.reg.acc, 0x37);

    assert_eq!(cpu.flags.c, cpu_start.flags.c);
    assert_eq!(cpu.flags.z, false);
    assert_eq!(cpu.flags.i, cpu_start.flags.i);
    assert_eq!(cpu.flags.d, cpu_start.flags.d);
    assert_eq!(cpu.flags.b, cpu_start.flags.b);
    assert_eq!(cpu.flags.v, cpu_start.flags.v);
    assert_eq!(cpu.flags.n, false);
}

#[test]
fn ldx_immediate() {
    let mut cpu = CPU::new();

    cpu.reset();
    cpu.mem.write_byte(0xFFFC, LDX(Addr::Immediate).code());
    cpu.mem.write_byte(0xFFFD, 0x84);

    let cpu_start = cpu.clone();
    cpu.start().unwrap();

    assert_eq!(cpu.reg.x, 0x84);

    assert_eq!(cpu.flags.c, cpu_start.flags.c);
    assert_eq!(cpu.flags.z, false);
    assert_eq!(cpu.flags.i, cpu_start.flags.i);
    assert_eq!(cpu.flags.d, cpu_start.flags.d);
    assert_eq!(cpu.flags.b, cpu_start.flags.b);
    assert_eq!(cpu.flags.v, cpu_start.flags.v);
    assert_eq!(cpu.flags.n, true);
}

#[test]
fn ldx_zero_page() {
    let mut cpu = CPU::new();

    cpu.reset();
    cpu.mem.write_byte(0xFFFC, LDX(Addr::ZeroPage).code());
    cpu.mem.write_byte(0xFFFD, 0x42);
    cpu.mem.write_byte(0x0042, 0x84);

    let cpu_start = cpu.clone();
    cpu.start().unwrap();

    assert_eq!(cpu.reg.x, 0x84);

    assert_eq!(cpu.flags.c, cpu_start.flags.c);
    assert_eq!(cpu.flags.z, false);
    assert_eq!(cpu.flags.i, cpu_start.flags.i);
    assert_eq!(cpu.flags.d, cpu_start.flags.d);
    assert_eq!(cpu.flags.b, cpu_start.flags.b);
    assert_eq!(cpu.flags.v, cpu_start.flags.v);
    assert_eq!(cpu.flags.n, true);
}

#[test]
fn ldx_zero_page_y() {
    let mut cpu = CPU::new();

    cpu.reset();
    cpu.reg.y = 0x02;
    cpu.mem.write_byte(0xFFFC, LDX(Addr::ZeroPageY).code());
    cpu.mem.write_byte(0xFFFD, 0xFF);
    cpu.mem.write_byte(0x0001, 0x00); // 0xFF + 0x02 % 0xFF = 0x01

    let cpu_start = cpu.clone();
    cpu.start().unwrap();

    assert_eq!(cpu.reg.x, 0x00);

    assert_eq!(cpu.flags.c, cpu_start.flags.c);
    assert_eq!(cpu.flags.z, true);
    assert_eq!(cpu.flags.i, cpu_start.flags.i);
    assert_eq!(cpu.flags.d, cpu_start.flags.d);
    assert_eq!(cpu.flags.b, cpu_start.flags.b);
    assert_eq!(cpu.flags.v, cpu_start.flags.v);
    assert_eq!(cpu.flags.n, false);
}

#[test]
fn ldx_absolute() {
    let mut cpu = CPU::new();

    cpu.reset();
    cpu.mem.write_byte(0xFFFC, LDX(Addr::Absolute).code());
    cpu.mem.write_byte(0xFFFD, 0x33);
    cpu.mem.write_byte(0xFFFE, 0x44); // 0x4433 (LE)
    cpu.mem.write_byte(0x4433, 0x84);

    let cpu_start = cpu.clone();
    cpu.start().unwrap();

    assert_eq!(cpu.reg.x, 0x84);

    assert_eq!(cpu.flags.c, cpu_start.flags.c);
    assert_eq!(cpu.flags.z, false);
    assert_eq!(cpu.flags.i, cpu_start.flags.i);
    assert_eq!(cpu.flags.d, cpu_start.flags.d);
    assert_eq!(cpu.flags.b, cpu_start.flags.b);
    assert_eq!(cpu.flags.v, cpu_start.flags.v);
    assert_eq!(cpu.flags.n, true);
}

#[test]
fn ldx_absolute_y() {
    let mut cpu = CPU::new();

    cpu.reset();
    cpu.reg.y = 0x02;
    cpu.mem.write_byte(0xFFFC, LDX(Addr::AbsoluteY).code());
    cpu.mem.write_byte(0xFFFD, 0x33);
    cpu.mem.write_byte(0xFFFE, 0x44); // 0x4433 (LE)
    cpu.mem.write_byte(0x4435, 0x84); // 0x4433 + 0x02

    let cpu_start = cpu.clone();
    cpu.start().unwrap();

    assert_eq!(cpu.reg.x, 0x84);

    assert_eq!(cpu.flags.c, cpu_start.flags.c);
    assert_eq!(cpu.flags.z, false);
    assert_eq!(cpu.flags.i, cpu_start.flags.i);
    assert_eq!(cpu.flags.d, cpu_start.flags.d);
    assert_eq!(cpu.flags.b, cpu_start.flags.b);
    assert_eq!(cpu.flags.v, cpu_start.flags.v);
    assert_eq!(cpu.flags.n, true);
}

#[test]
fn ldy_immediate() {
    let mut cpu = CPU::new();

    cpu.reset();
    cpu.mem.write_byte(0xFFFC, LDY(Addr::Immediate).code());
    cpu.mem.write_byte(0xFFFD, 0x84);

    let cpu_start = cpu.clone();
    cpu.start().unwrap();

    assert_eq!(cpu.reg.y, 0x84);

    assert_eq!(cpu.flags.c, cpu_start.flags.c);
    assert_eq!(cpu.flags.z, false);
    assert_eq!(cpu.flags.i, cpu_start.flags.i);
    assert_eq!(cpu.flags.d, cpu_start.flags.d);
    assert_eq!(cpu.flags.b, cpu_start.flags.b);
    assert_eq!(cpu.flags.v, cpu_start.flags.v);
    assert_eq!(cpu.flags.n, true);
}

#[test]
fn ldy_zero_page() {
    let mut cpu = CPU::new();

    cpu.reset();
    cpu.mem.write_byte(0xFFFC, LDY(Addr::ZeroPage).code());
    cpu.mem.write_byte(0xFFFD, 0x42);
    cpu.mem.write_byte(0x0042, 0x84);

    let cpu_start = cpu.clone();
    cpu.start().unwrap();

    assert_eq!(cpu.reg.y, 0x84);

    assert_eq!(cpu.flags.c, cpu_start.flags.c);
    assert_eq!(cpu.flags.z, false);
    assert_eq!(cpu.flags.i, cpu_start.flags.i);
    assert_eq!(cpu.flags.d, cpu_start.flags.d);
    assert_eq!(cpu.flags.b, cpu_start.flags.b);
    assert_eq!(cpu.flags.v, cpu_start.flags.v);
    assert_eq!(cpu.flags.n, true);
}

#[test]
fn ldy_zero_page_y() {
    let mut cpu = CPU::new();

    cpu.reset();
    cpu.reg.x = 0x02;
    cpu.mem.write_byte(0xFFFC, LDY(Addr::ZeroPageX).code());
    cpu.mem.write_byte(0xFFFD, 0xFF);
    cpu.mem.write_byte(0x0001, 0x00); // 0xFF + 0x02 % 0xFF = 0x01

    let cpu_start = cpu.clone();
    cpu.start().unwrap();

    assert_eq!(cpu.reg.y, 0x00);

    assert_eq!(cpu.flags.c, cpu_start.flags.c);
    assert_eq!(cpu.flags.z, true);
    assert_eq!(cpu.flags.i, cpu_start.flags.i);
    assert_eq!(cpu.flags.d, cpu_start.flags.d);
    assert_eq!(cpu.flags.b, cpu_start.flags.b);
    assert_eq!(cpu.flags.v, cpu_start.flags.v);
    assert_eq!(cpu.flags.n, false);
}

#[test]
fn ldy_absolute() {
    let mut cpu = CPU::new();

    cpu.reset();
    cpu.mem.write_byte(0xFFFC, LDY(Addr::Absolute).code());
    cpu.mem.write_byte(0xFFFD, 0x33);
    cpu.mem.write_byte(0xFFFE, 0x44); // 0x4433 (LE)
    cpu.mem.write_byte(0x4433, 0x84);

    let cpu_start = cpu.clone();
    cpu.start().unwrap();

    assert_eq!(cpu.reg.y, 0x84);

    assert_eq!(cpu.flags.c, cpu_start.flags.c);
    assert_eq!(cpu.flags.z, false);
    assert_eq!(cpu.flags.i, cpu_start.flags.i);
    assert_eq!(cpu.flags.d, cpu_start.flags.d);
    assert_eq!(cpu.flags.b, cpu_start.flags.b);
    assert_eq!(cpu.flags.v, cpu_start.flags.v);
    assert_eq!(cpu.flags.n, true);
}

#[test]
fn ldy_absolute_x() {
    let mut cpu = CPU::new();

    cpu.reset();
    cpu.reg.x = 0x02;
    cpu.mem.write_byte(0xFFFC, LDY(Addr::AbsoluteX).code());
    cpu.mem.write_byte(0xFFFD, 0x33);
    cpu.mem.write_byte(0xFFFE, 0x44); // 0x4433 (LE)
    cpu.mem.write_byte(0x4435, 0x84); // 0x4433 + 0x02

    let cpu_start = cpu.clone();
    cpu.start().unwrap();

    assert_eq!(cpu.reg.y, 0x84);

    assert_eq!(cpu.flags.c, cpu_start.flags.c);
    assert_eq!(cpu.flags.z, false);
    assert_eq!(cpu.flags.i, cpu_start.flags.i);
    assert_eq!(cpu.flags.d, cpu_start.flags.d);
    assert_eq!(cpu.flags.b, cpu_start.flags.b);
    assert_eq!(cpu.flags.v, cpu_start.flags.v);
    assert_eq!(cpu.flags.n, true);
}

#[test]
fn sta_zero_page() {
    let mut cpu = CPU::new();

    cpu.reset();
    cpu.reg.acc = 0x42;
    cpu.mem.write_byte(0xFFFC, STA(Addr::ZeroPage).code());
    cpu.mem.write_byte(0xFFFD, 0x22);
    cpu.start().unwrap();

    let value = cpu.mem.read_byte(0x0022);
    assert_eq!(value, cpu.reg.acc);
}

#[test]
fn sta_zero_page_x() {
    let mut cpu = CPU::new();

    cpu.reset();
    cpu.reg.acc = 0x42;
    cpu.reg.x = 0x03;
    cpu.mem.write_byte(0xFFFC, STA(Addr::ZeroPageX).code());
    cpu.mem.write_byte(0xFFFD, 0xFE);
    cpu.start().unwrap();

    let value = cpu.mem.read_byte(0x0001);
    assert_eq!(value, cpu.reg.acc);
}

#[test]
fn sta_absolute() {
    let mut cpu = CPU::new();

    cpu.reset();
    cpu.reg.acc = 0x42;
    cpu.mem.write_byte(0xFFFC, STA(Addr::Absolute).code());
    cpu.mem.write_byte(0xFFFD, 0x22);
    cpu.mem.write_byte(0xFFFE, 0x44); // 0x4422 (LE)
    cpu.start().unwrap();

    let value = cpu.mem.read_byte(0x4422);
    assert_eq!(value, cpu.reg.acc);
}

#[test]
fn sta_absolute_x() {
    let mut cpu = CPU::new();

    cpu.reset();
    cpu.reg.acc = 0x42;
    cpu.reg.x = 0x05;
    cpu.mem.write_byte(0xFFFC, STA(Addr::AbsoluteX).code());
    cpu.mem.write_byte(0xFFFD, 0x22);
    cpu.mem.write_byte(0xFFFE, 0x44); // 0x4422 (LE)
    cpu.start().unwrap();

    let value = cpu.mem.read_byte(0x4427);
    assert_eq!(value, cpu.reg.acc);
}

#[test]
fn sta_absolute_y() {
    let mut cpu = CPU::new();

    cpu.reset();
    cpu.reg.acc = 0x42;
    cpu.reg.y = 0x05;
    cpu.mem.write_byte(0xFFFC, STA(Addr::AbsoluteY).code());
    cpu.mem.write_byte(0xFFFD, 0x22);
    cpu.mem.write_byte(0xFFFE, 0x44); // 0x4422 (LE)
    cpu.start().unwrap();

    let value = cpu.mem.read_byte(0x4427);
    assert_eq!(value, cpu.reg.acc);
}

#[test]
fn sta_absolute_x_indirect() {
    let mut cpu = CPU::new();

    cpu.reset();
    cpu.reg.acc = 0x42;
    cpu.reg.x = 0x05;
    cpu.mem.write_byte(0xFFFC, STA(Addr::XIndirect).code());
    cpu.mem.write_byte(0xFFFD, 0x60);
    cpu.mem.write_byte(0x0065, 0x22);
    cpu.mem.write_byte(0x0066, 0x44); // 0x4422 (LE)
    cpu.start().unwrap();

    let value = cpu.mem.read_byte(0x4422);
    assert_eq!(value, cpu.reg.acc);
}

#[test]
fn sta_absolute_indirect_y() {
    let mut cpu = CPU::new();

    cpu.reset();
    cpu.reg.acc = 0x42;
    cpu.reg.y = 0x05;
    cpu.mem.write_byte(0xFFFC, STA(Addr::IndirectY).code());
    cpu.mem.write_byte(0xFFFD, 0x60);
    cpu.mem.write_byte(0x0060, 0x22);
    cpu.mem.write_byte(0x0061, 0x44); // 0x4422 (LE)
    cpu.start().unwrap();

    let value = cpu.mem.read_byte(0x4427);
    assert_eq!(value, cpu.reg.acc);
}
