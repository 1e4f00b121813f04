//! The instruction set: one type per mnemonic, the closed union of them,
//! and the opcode table.
use vstd::prelude::*;

pub mod load_store;
pub mod reg_transfers;
pub mod stack_ops;
pub mod logical;
pub mod inc_dec;
pub mod jumps_calls;
pub mod status_flags;
pub mod sys_funcs;

use load_store::{LDA, LDX, LDY, STA, STX, STY};
use reg_transfers::{TAX, TAY, TXA, TYA};
use stack_ops::{TSX, TXS, PHA, PHP, PLA, PLP};
use logical::{AND, EOR, ORA, BIT};
use inc_dec::{INC, DEC, INX, INY, DEX, DEY};
use jumps_calls::JSR;
use status_flags::{CLC, CLD, CLI, CLV, SEC, SED, SEI};
use sys_funcs::BRK;

use crate::addressing::instruction_len;
use crate::cpu::{CpuState, Fault, CPU};
use crate::mem::Addr;

verus! {

/// What executing an instruction returned and left: the state that `effect`
/// gives when the mode is supported, else an addressing fault with the state
/// unchanged.
#[verifier::opaque]
pub open spec fn executed(
    effect: Option<CpuState>,
    mode: Addr,
    before: CpuState,
    after: CpuState,
    r: Result<(), Fault>,
) -> bool {
    match effect {
        Some(t) => r == Ok::<(), Fault>(()) && after == t,
        None => r == Err::<(), Fault>(Fault::UnsupportedAddressing { mode, pc: before.pc })
            && after == before,
    }
}

/// A decoded instruction: a mnemonic together with its addressing mode.
#[derive(Clone, Copy, Debug, PartialEq, Eq, Structural)]
pub enum Instruction {
    LDA(LDA),
    LDX(LDX),
    LDY(LDY),
    STA(STA),
    STX(STX),
    STY(STY),
    TAX(TAX),
    TAY(TAY),
    TXA(TXA),
    TYA(TYA),
    TSX(TSX),
    TXS(TXS),
    PHA(PHA),
    PHP(PHP),
    PLA(PLA),
    PLP(PLP),
    AND(AND),
    EOR(EOR),
    ORA(ORA),
    BIT(BIT),
    INC(INC),
    DEC(DEC),
    INX(INX),
    INY(INY),
    DEX(DEX),
    DEY(DEY),
    JSR(JSR),
    CLC(CLC),
    CLD(CLD),
    CLI(CLI),
    CLV(CLV),
    SEC(SEC),
    SED(SED),
    SEI(SEI),
    BRK(BRK),
}

impl Instruction {
    /// The addressing mode.
    pub open spec fn mode(self) -> Addr {
        match self {
            Instruction::LDA(i) => i.0,
            Instruction::LDX(i) => i.0,
            Instruction::LDY(i) => i.0,
            Instruction::STA(i) => i.0,
            Instruction::STX(i) => i.0,
            Instruction::STY(i) => i.0,
            Instruction::TAX(i) => i.0,
            Instruction::TAY(i) => i.0,
            Instruction::TXA(i) => i.0,
            Instruction::TYA(i) => i.0,
            Instruction::TSX(i) => i.0,
            Instruction::TXS(i) => i.0,
            Instruction::PHA(i) => i.0,
            Instruction::PHP(i) => i.0,
            Instruction::PLA(i) => i.0,
            Instruction::PLP(i) => i.0,
            Instruction::AND(i) => i.0,
            Instruction::EOR(i) => i.0,
            Instruction::ORA(i) => i.0,
            Instruction::BIT(i) => i.0,
            Instruction::INC(i) => i.0,
            Instruction::DEC(i) => i.0,
            Instruction::INX(i) => i.0,
            Instruction::INY(i) => i.0,
            Instruction::DEX(i) => i.0,
            Instruction::DEY(i) => i.0,
            Instruction::JSR(i) => i.0,
            Instruction::CLC(i) => i.0,
            Instruction::CLD(i) => i.0,
            Instruction::CLI(i) => i.0,
            Instruction::CLV(i) => i.0,
            Instruction::SEC(i) => i.0,
            Instruction::SED(i) => i.0,
            Instruction::SEI(i) => i.0,
            Instruction::BRK(i) => i.0,
        }
    }

    /// The opcode, or `None` where the mnemonic lacks the mode.
    pub open spec fn spec_code(self) -> Option<u8> {
        match self {
            Instruction::LDA(i) => i.spec_code(),
            Instruction::LDX(i) => i.spec_code(),
            Instruction::LDY(i) => i.spec_code(),
            Instruction::STA(i) => i.spec_code(),
            Instruction::STX(i) => i.spec_code(),
            Instruction::STY(i) => i.spec_code(),
            Instruction::TAX(i) => i.spec_code(),
            Instruction::TAY(i) => i.spec_code(),
            Instruction::TXA(i) => i.spec_code(),
            Instruction::TYA(i) => i.spec_code(),
            Instruction::TSX(i) => i.spec_code(),
            Instruction::TXS(i) => i.spec_code(),
            Instruction::PHA(i) => i.spec_code(),
            Instruction::PHP(i) => i.spec_code(),
            Instruction::PLA(i) => i.spec_code(),
            Instruction::PLP(i) => i.spec_code(),
            Instruction::AND(i) => i.spec_code(),
            Instruction::EOR(i) => i.spec_code(),
            Instruction::ORA(i) => i.spec_code(),
            Instruction::BIT(i) => i.spec_code(),
            Instruction::INC(i) => i.spec_code(),
            Instruction::DEC(i) => i.spec_code(),
            Instruction::INX(i) => i.spec_code(),
            Instruction::INY(i) => i.spec_code(),
            Instruction::DEX(i) => i.spec_code(),
            Instruction::DEY(i) => i.spec_code(),
            Instruction::JSR(i) => i.spec_code(),
            Instruction::CLC(i) => i.spec_code(),
            Instruction::CLD(i) => i.spec_code(),
            Instruction::CLI(i) => i.spec_code(),
            Instruction::CLV(i) => i.spec_code(),
            Instruction::SEC(i) => i.spec_code(),
            Instruction::SED(i) => i.spec_code(),
            Instruction::SEI(i) => i.spec_code(),
            Instruction::BRK(i) => i.spec_code(),
        }
    }

    /// The state after executing the instruction from `s`, or `None` where the
    /// mnemonic lacks the mode.
    pub open spec fn effect(self, s: CpuState) -> Option<CpuState> {
        match self {
            Instruction::LDA(i) => i.effect(s),
            Instruction::LDX(i) => i.effect(s),
            Instruction::LDY(i) => i.effect(s),
            Instruction::STA(i) => i.effect(s),
            Instruction::STX(i) => i.effect(s),
            Instruction::STY(i) => i.effect(s),
            Instruction::TAX(i) => i.effect(s),
            Instruction::TAY(i) => i.effect(s),
            Instruction::TXA(i) => i.effect(s),
            Instruction::TYA(i) => i.effect(s),
            Instruction::TSX(i) => i.effect(s),
            Instruction::TXS(i) => i.effect(s),
            Instruction::PHA(i) => i.effect(s),
            Instruction::PHP(i) => i.effect(s),
            Instruction::PLA(i) => i.effect(s),
            Instruction::PLP(i) => i.effect(s),
            Instruction::AND(i) => i.effect(s),
            Instruction::EOR(i) => i.effect(s),
            Instruction::ORA(i) => i.effect(s),
            Instruction::BIT(i) => i.effect(s),
            Instruction::INC(i) => i.effect(s),
            Instruction::DEC(i) => i.effect(s),
            Instruction::INX(i) => i.effect(s),
            Instruction::INY(i) => i.effect(s),
            Instruction::DEX(i) => i.effect(s),
            Instruction::DEY(i) => i.effect(s),
            Instruction::JSR(i) => i.effect(s),
            Instruction::CLC(i) => i.effect(s),
            Instruction::CLD(i) => i.effect(s),
            Instruction::CLI(i) => i.effect(s),
            Instruction::CLV(i) => i.effect(s),
            Instruction::SEC(i) => i.effect(s),
            Instruction::SED(i) => i.effect(s),
            Instruction::SEI(i) => i.effect(s),
            Instruction::BRK(i) => i.effect(s),
        }
    }

    /// Where the mnemonic stands in the declaration of `Instruction`.
    pub open spec fn position(self) -> nat {
        match self {
            Instruction::LDA(_) => 0,
            Instruction::LDX(_) => 1,
            Instruction::LDY(_) => 2,
            Instruction::STA(_) => 3,
            Instruction::STX(_) => 4,
            Instruction::STY(_) => 5,
            Instruction::TAX(_) => 6,
            Instruction::TAY(_) => 7,
            Instruction::TXA(_) => 8,
            Instruction::TYA(_) => 9,
            Instruction::TSX(_) => 10,
            Instruction::TXS(_) => 11,
            Instruction::PHA(_) => 12,
            Instruction::PHP(_) => 13,
            Instruction::PLA(_) => 14,
            Instruction::PLP(_) => 15,
            Instruction::AND(_) => 16,
            Instruction::EOR(_) => 17,
            Instruction::ORA(_) => 18,
            Instruction::BIT(_) => 19,
            Instruction::INC(_) => 20,
            Instruction::DEC(_) => 21,
            Instruction::INX(_) => 22,
            Instruction::INY(_) => 23,
            Instruction::DEX(_) => 24,
            Instruction::DEY(_) => 25,
            Instruction::JSR(_) => 26,
            Instruction::CLC(_) => 27,
            Instruction::CLD(_) => 28,
            Instruction::CLI(_) => 29,
            Instruction::CLV(_) => 30,
            Instruction::SEC(_) => 31,
            Instruction::SED(_) => 32,
            Instruction::SEI(_) => 33,
            Instruction::BRK(_) => 34,
        }
    }

    /// Instructions that set PC to a target instead of stepping over
    /// themselves.
    pub open spec fn is_control_transfer(self) -> bool {
        self is JSR || self is BRK
    }

    /// The addressing mode.
    pub fn addressing(&self) -> (r: Addr)
        ensures
            r == self.mode(),
    {
        match self {
            Instruction::LDA(i) => i.0,
            Instruction::LDX(i) => i.0,
            Instruction::LDY(i) => i.0,
            Instruction::STA(i) => i.0,
            Instruction::STX(i) => i.0,
            Instruction::STY(i) => i.0,
            Instruction::TAX(i) => i.0,
            Instruction::TAY(i) => i.0,
            Instruction::TXA(i) => i.0,
            Instruction::TYA(i) => i.0,
            Instruction::TSX(i) => i.0,
            Instruction::TXS(i) => i.0,
            Instruction::PHA(i) => i.0,
            Instruction::PHP(i) => i.0,
            Instruction::PLA(i) => i.0,
            Instruction::PLP(i) => i.0,
            Instruction::AND(i) => i.0,
            Instruction::EOR(i) => i.0,
            Instruction::ORA(i) => i.0,
            Instruction::BIT(i) => i.0,
            Instruction::INC(i) => i.0,
            Instruction::DEC(i) => i.0,
            Instruction::INX(i) => i.0,
            Instruction::INY(i) => i.0,
            Instruction::DEX(i) => i.0,
            Instruction::DEY(i) => i.0,
            Instruction::JSR(i) => i.0,
            Instruction::CLC(i) => i.0,
            Instruction::CLD(i) => i.0,
            Instruction::CLI(i) => i.0,
            Instruction::CLV(i) => i.0,
            Instruction::SEC(i) => i.0,
            Instruction::SED(i) => i.0,
            Instruction::SEI(i) => i.0,
            Instruction::BRK(i) => i.0,
        }
    }

    /// The opcode, or `None` where the mnemonic lacks the mode.
    pub fn opcode(&self) -> (r: Option<u8>)
        ensures
            r == self.spec_code(),
    {
        match self {
            Instruction::LDA(i) => i.opcode(),
            Instruction::LDX(i) => i.opcode(),
            Instruction::LDY(i) => i.opcode(),
            Instruction::STA(i) => i.opcode(),
            Instruction::STX(i) => i.opcode(),
            Instruction::STY(i) => i.opcode(),
            Instruction::TAX(i) => i.opcode(),
            Instruction::TAY(i) => i.opcode(),
            Instruction::TXA(i) => i.opcode(),
            Instruction::TYA(i) => i.opcode(),
            Instruction::TSX(i) => i.opcode(),
            Instruction::TXS(i) => i.opcode(),
            Instruction::PHA(i) => i.opcode(),
            Instruction::PHP(i) => i.opcode(),
            Instruction::PLA(i) => i.opcode(),
            Instruction::PLP(i) => i.opcode(),
            Instruction::AND(i) => i.opcode(),
            Instruction::EOR(i) => i.opcode(),
            Instruction::ORA(i) => i.opcode(),
            Instruction::BIT(i) => i.opcode(),
            Instruction::INC(i) => i.opcode(),
            Instruction::DEC(i) => i.opcode(),
            Instruction::INX(i) => i.opcode(),
            Instruction::INY(i) => i.opcode(),
            Instruction::DEX(i) => i.opcode(),
            Instruction::DEY(i) => i.opcode(),
            Instruction::JSR(i) => i.opcode(),
            Instruction::CLC(i) => i.opcode(),
            Instruction::CLD(i) => i.opcode(),
            Instruction::CLI(i) => i.opcode(),
            Instruction::CLV(i) => i.opcode(),
            Instruction::SEC(i) => i.opcode(),
            Instruction::SED(i) => i.opcode(),
            Instruction::SEI(i) => i.opcode(),
            Instruction::BRK(i) => i.opcode(),
        }
    }

    /// The opcode of this instruction.
    pub fn code(&self) -> (r: u8)
        requires
            self.spec_code() is Some,
        ensures
            Some(r) == self.spec_code(),
    {
        self.opcode().unwrap()
    }

    /// Executes the instruction at `cpu.pc`.
    pub fn execute(&self, cpu: &mut CPU) -> (r: Result<(), Fault>)
        ensures
            executed(self.effect(old(cpu)@), self.mode(), old(cpu)@, final(cpu)@, r),
    {
        match self {
            Instruction::LDA(i) => i.execute(cpu),
            Instruction::LDX(i) => i.execute(cpu),
            Instruction::LDY(i) => i.execute(cpu),
            Instruction::STA(i) => i.execute(cpu),
            Instruction::STX(i) => i.execute(cpu),
            Instruction::STY(i) => i.execute(cpu),
            Instruction::TAX(i) => i.execute(cpu),
            _ => self.execute_part2(cpu),
        }
    }

    /// `execute` for the instructions after `TAX`.
    fn execute_part2(&self, cpu: &mut CPU) -> (r: Result<(), Fault>)
        requires
            self.position() >= 7,
        ensures
            executed(self.effect(old(cpu)@), self.mode(), old(cpu)@, final(cpu)@, r),
    {
        match self {
            Instruction::TAY(i) => i.execute(cpu),
            Instruction::TXA(i) => i.execute(cpu),
            Instruction::TYA(i) => i.execute(cpu),
            Instruction::TSX(i) => i.execute(cpu),
            Instruction::TXS(i) => i.execute(cpu),
            Instruction::PHA(i) => i.execute(cpu),
            Instruction::PHP(i) => i.execute(cpu),
            _ => self.execute_part3(cpu),
        }
    }

    /// `execute` for the instructions after `PHP`.
    fn execute_part3(&self, cpu: &mut CPU) -> (r: Result<(), Fault>)
        requires
            self.position() >= 14,
        ensures
            executed(self.effect(old(cpu)@), self.mode(), old(cpu)@, final(cpu)@, r),
    {
        match self {
            Instruction::PLA(i) => i.execute(cpu),
            Instruction::PLP(i) => i.execute(cpu),
            Instruction::AND(i) => i.execute(cpu),
            Instruction::EOR(i) => i.execute(cpu),
            Instruction::ORA(i) => i.execute(cpu),
            Instruction::BIT(i) => i.execute(cpu),
            Instruction::INC(i) => i.execute(cpu),
            _ => self.execute_part4(cpu),
        }
    }

    /// `execute` for the instructions after `INC`.
    fn execute_part4(&self, cpu: &mut CPU) -> (r: Result<(), Fault>)
        requires
            self.position() >= 21,
        ensures
            executed(self.effect(old(cpu)@), self.mode(), old(cpu)@, final(cpu)@, r),
    {
        match self {
            Instruction::DEC(i) => i.execute(cpu),
            Instruction::INX(i) => i.execute(cpu),
            Instruction::INY(i) => i.execute(cpu),
            Instruction::DEX(i) => i.execute(cpu),
            Instruction::DEY(i) => i.execute(cpu),
            Instruction::JSR(i) => i.execute(cpu),
            Instruction::CLC(i) => i.execute(cpu),
            _ => self.execute_part5(cpu),
        }
    }

    /// `execute` for the instructions after `CLC`.
    fn execute_part5(&self, cpu: &mut CPU) -> (r: Result<(), Fault>)
        requires
            self.position() >= 28,
        ensures
            executed(self.effect(old(cpu)@), self.mode(), old(cpu)@, final(cpu)@, r),
    {
        match self {
            Instruction::CLD(i) => i.execute(cpu),
            Instruction::CLI(i) => i.execute(cpu),
            Instruction::CLV(i) => i.execute(cpu),
            Instruction::SEC(i) => i.execute(cpu),
            Instruction::SED(i) => i.execute(cpu),
            Instruction::SEI(i) => i.execute(cpu),
            Instruction::BRK(i) => i.execute(cpu),
            _ => Err(Fault::UnsupportedAddressing { mode: self.addressing(), pc: cpu.pc }),
        }
    }
}

/// The opcode table: the instruction that an opcode byte stands for, or
/// `None` for a byte that is no opcode of the supported set.
pub open spec fn decode(code: u8) -> Option<Instruction> {
    match code {
        0xA9u8 => Some(Instruction::LDA(LDA(Addr::Immediate))),
        0xA5u8 => Some(Instruction::LDA(LDA(Addr::ZeroPage))),
        0xB5u8 => Some(Instruction::LDA(LDA(Addr::ZeroPageX))),
        0xADu8 => Some(Instruction::LDA(LDA(Addr::Absolute))),
        0xBDu8 => Some(Instruction::LDA(LDA(Addr::AbsoluteX))),
        0xB9u8 => Some(Instruction::LDA(LDA(Addr::AbsoluteY))),
        0xA1u8 => Some(Instruction::LDA(LDA(Addr::XIndirect))),
        0xB1u8 => Some(Instruction::LDA(LDA(Addr::IndirectY))),
        0xA2u8 => Some(Instruction::LDX(LDX(Addr::Immediate))),
        0xA6u8 => Some(Instruction::LDX(LDX(Addr::ZeroPage))),
        0xB6u8 => Some(Instruction::LDX(LDX(Addr::ZeroPageY))),
        0xAEu8 => Some(Instruction::LDX(LDX(Addr::Absolute))),
        0xBEu8 => Some(Instruction::LDX(LDX(Addr::AbsoluteY))),
        0xA0u8 => Some(Instruction::LDY(LDY(Addr::Immediate))),
        0xA4u8 => Some(Instruction::LDY(LDY(Addr::ZeroPage))),
        0xB4u8 => Some(Instruction::LDY(LDY(Addr::ZeroPageX))),
        0xACu8 => Some(Instruction::LDY(LDY(Addr::Absolute))),
        0xBCu8 => Some(Instruction::LDY(LDY(Addr::AbsoluteX))),
        0x85u8 => Some(Instruction::STA(STA(Addr::ZeroPage))),
        0x95u8 => Some(Instruction::STA(STA(Addr::ZeroPageX))),
        0x8Du8 => Some(Instruction::STA(STA(Addr::Absolute))),
        0x9Du8 => Some(Instruction::STA(STA(Addr::AbsoluteX))),
        0x99u8 => Some(Instruction::STA(STA(Addr::AbsoluteY))),
        0x81u8 => Some(Instruction::STA(STA(Addr::XIndirect))),
        0x91u8 => Some(Instruction::STA(STA(Addr::IndirectY))),
        0x86u8 => Some(Instruction::STX(STX(Addr::ZeroPage))),
        0x96u8 => Some(Instruction::STX(STX(Addr::ZeroPageY))),
        0x8Eu8 => Some(Instruction::STX(STX(Addr::Absolute))),
        0x84u8 => Some(Instruction::STY(STY(Addr::ZeroPage))),
        0x94u8 => Some(Instruction::STY(STY(Addr::ZeroPageX))),
        0x8Cu8 => Some(Instruction::STY(STY(Addr::Absolute))),
        0xAAu8 => Some(Instruction::TAX(TAX(Addr::Implicit))),
        0xA8u8 => Some(Instruction::TAY(TAY(Addr::Implicit))),
        0x8Au8 => Some(Instruction::TXA(TXA(Addr::Implicit))),
        0x98u8 => Some(Instruction::TYA(TYA(Addr::Implicit))),
        0xBAu8 => Some(Instruction::TSX(TSX(Addr::Implicit))),
        0x9Au8 => Some(Instruction::TXS(TXS(Addr::Implicit))),
        0x48u8 => Some(Instruction::PHA(PHA(Addr::Implicit))),
        0x08u8 => Some(Instruction::PHP(PHP(Addr::Implicit))),
        0x68u8 => Some(Instruction::PLA(PLA(Addr::Implicit))),
        0x28u8 => Some(Instruction::PLP(PLP(Addr::Implicit))),
        0x29u8 => Some(Instruction::AND(AND(Addr::Immediate))),
        0x25u8 => Some(Instruction::AND(AND(Addr::ZeroPage))),
        0x35u8 => Some(Instruction::AND(AND(Addr::ZeroPageX))),
        0x2Du8 => Some(Instruction::AND(AND(Addr::Absolute))),
        0x3Du8 => Some(Instruction::AND(AND(Addr::AbsoluteX))),
        0x39u8 => Some(Instruction::AND(AND(Addr::AbsoluteY))),
        0x21u8 => Some(Instruction::AND(AND(Addr::XIndirect))),
        0x31u8 => Some(Instruction::AND(AND(Addr::IndirectY))),
        0x49u8 => Some(Instruction::EOR(EOR(Addr::Immediate))),
        0x45u8 => Some(Instruction::EOR(EOR(Addr::ZeroPage))),
        0x55u8 => Some(Instruction::EOR(EOR(Addr::ZeroPageX))),
        0x4Du8 => Some(Instruction::EOR(EOR(Addr::Absolute))),
        0x5Du8 => Some(Instruction::EOR(EOR(Addr::AbsoluteX))),
        0x59u8 => Some(Instruction::EOR(EOR(Addr::AbsoluteY))),
        0x41u8 => Some(Instruction::EOR(EOR(Addr::XIndirect))),
        0x51u8 => Some(Instruction::EOR(EOR(Addr::IndirectY))),
        0x09u8 => Some(Instruction::ORA(ORA(Addr::Immediate))),
        0x05u8 => Some(Instruction::ORA(ORA(Addr::ZeroPage))),
        0x15u8 => Some(Instruction::ORA(ORA(Addr::ZeroPageX))),
        0x0Du8 => Some(Instruction::ORA(ORA(Addr::Absolute))),
        0x1Du8 => Some(Instruction::ORA(ORA(Addr::AbsoluteX))),
        0x19u8 => Some(Instruction::ORA(ORA(Addr::AbsoluteY))),
        0x01u8 => Some(Instruction::ORA(ORA(Addr::XIndirect))),
        0x11u8 => Some(Instruction::ORA(ORA(Addr::IndirectY))),
        0x24u8 => Some(Instruction::BIT(BIT(Addr::ZeroPage))),
        0x2Cu8 => Some(Instruction::BIT(BIT(Addr::Absolute))),
        0xE6u8 => Some(Instruction::INC(INC(Addr::ZeroPage))),
        0xF6u8 => Some(Instruction::INC(INC(Addr::ZeroPageX))),
        0xEEu8 => Some(Instruction::INC(INC(Addr::Absolute))),
        0xFEu8 => Some(Instruction::INC(INC(Addr::AbsoluteX))),
        0xC6u8 => Some(Instruction::DEC(DEC(Addr::ZeroPage))),
        0xD6u8 => Some(Instruction::DEC(DEC(Addr::ZeroPageX))),
        0xCEu8 => Some(Instruction::DEC(DEC(Addr::Absolute))),
        0xDEu8 => Some(Instruction::DEC(DEC(Addr::AbsoluteX))),
        0xE8u8 => Some(Instruction::INX(INX(Addr::Implicit))),
        0xC8u8 => Some(Instruction::INY(INY(Addr::Implicit))),
        0xCAu8 => Some(Instruction::DEX(DEX(Addr::Implicit))),
        0x88u8 => Some(Instruction::DEY(DEY(Addr::Implicit))),
        0x20u8 => Some(Instruction::JSR(JSR(Addr::Absolute))),
        0x18u8 => Some(Instruction::CLC(CLC(Addr::Implicit))),
        0xD8u8 => Some(Instruction::CLD(CLD(Addr::Implicit))),
        0x58u8 => Some(Instruction::CLI(CLI(Addr::Implicit))),
        0xB8u8 => Some(Instruction::CLV(CLV(Addr::Implicit))),
        0x38u8 => Some(Instruction::SEC(SEC(Addr::Implicit))),
        0xF8u8 => Some(Instruction::SED(SED(Addr::Implicit))),
        0x78u8 => Some(Instruction::SEI(SEI(Addr::Implicit))),
        0x00u8 => Some(Instruction::BRK(BRK(Addr::Implicit))),
        _ => None,
    }
}

/// Maps opcode bytes to instructions.
pub struct InstructionDecoder;

impl InstructionDecoder {
    /// The instruction that `code` encodes, or `None` for an undefined opcode.
    pub fn from_byte(code: u8) -> (r: Option<Instruction>)
        ensures
            r == decode(code),
    {
        match code {
            0xA9u8 => Some(Instruction::LDA(LDA(Addr::Immediate))),
            0xA5u8 => Some(Instruction::LDA(LDA(Addr::ZeroPage))),
            0xB5u8 => Some(Instruction::LDA(LDA(Addr::ZeroPageX))),
            0xADu8 => Some(Instruction::LDA(LDA(Addr::Absolute))),
            0xBDu8 => Some(Instruction::LDA(LDA(Addr::AbsoluteX))),
            0xB9u8 => Some(Instruction::LDA(LDA(Addr::AbsoluteY))),
            0xA1u8 => Some(Instruction::LDA(LDA(Addr::XIndirect))),
            0xB1u8 => Some(Instruction::LDA(LDA(Addr::IndirectY))),
            0xA2u8 => Some(Instruction::LDX(LDX(Addr::Immediate))),
            0xA6u8 => Some(Instruction::LDX(LDX(Addr::ZeroPage))),
            0xB6u8 => Some(Instruction::LDX(LDX(Addr::ZeroPageY))),
            0xAEu8 => Some(Instruction::LDX(LDX(Addr::Absolute))),
            0xBEu8 => Some(Instruction::LDX(LDX(Addr::AbsoluteY))),
            0xA0u8 => Some(Instruction::LDY(LDY(Addr::Immediate))),
            0xA4u8 => Some(Instruction::LDY(LDY(Addr::ZeroPage))),
            0xB4u8 => Some(Instruction::LDY(LDY(Addr::ZeroPageX))),
            0xACu8 => Some(Instruction::LDY(LDY(Addr::Absolute))),
            0xBCu8 => Some(Instruction::LDY(LDY(Addr::AbsoluteX))),
            0x85u8 => Some(Instruction::STA(STA(Addr::ZeroPage))),
            0x95u8 => Some(Instruction::STA(STA(Addr::ZeroPageX))),
            0x8Du8 => Some(Instruction::STA(STA(Addr::Absolute))),
            0x9Du8 => Some(Instruction::STA(STA(Addr::AbsoluteX))),
            0x99u8 => Some(Instruction::STA(STA(Addr::AbsoluteY))),
            0x81u8 => Some(Instruction::STA(STA(Addr::XIndirect))),
            0x91u8 => Some(Instruction::STA(STA(Addr::IndirectY))),
            0x86u8 => Some(Instruction::STX(STX(Addr::ZeroPage))),
            0x96u8 => Some(Instruction::STX(STX(Addr::ZeroPageY))),
            0x8Eu8 => Some(Instruction::STX(STX(Addr::Absolute))),
            0x84u8 => Some(Instruction::STY(STY(Addr::ZeroPage))),
            0x94u8 => Some(Instruction::STY(STY(Addr::ZeroPageX))),
            0x8Cu8 => Some(Instruction::STY(STY(Addr::Absolute))),
            0xAAu8 => Some(Instruction::TAX(TAX(Addr::Implicit))),
            0xA8u8 => Some(Instruction::TAY(TAY(Addr::Implicit))),
            0x8Au8 => Some(Instruction::TXA(TXA(Addr::Implicit))),
            0x98u8 => Some(Instruction::TYA(TYA(Addr::Implicit))),
            0xBAu8 => Some(Instruction::TSX(TSX(Addr::Implicit))),
            0x9Au8 => Some(Instruction::TXS(TXS(Addr::Implicit))),
            0x48u8 => Some(Instruction::PHA(PHA(Addr::Implicit))),
            0x08u8 => Some(Instruction::PHP(PHP(Addr::Implicit))),
            0x68u8 => Some(Instruction::PLA(PLA(Addr::Implicit))),
            0x28u8 => Some(Instruction::PLP(PLP(Addr::Implicit))),
            0x29u8 => Some(Instruction::AND(AND(Addr::Immediate))),
            0x25u8 => Some(Instruction::AND(AND(Addr::ZeroPage))),
            0x35u8 => Some(Instruction::AND(AND(Addr::ZeroPageX))),
            0x2Du8 => Some(Instruction::AND(AND(Addr::Absolute))),
            0x3Du8 => Some(Instruction::AND(AND(Addr::AbsoluteX))),
            0x39u8 => Some(Instruction::AND(AND(Addr::AbsoluteY))),
            0x21u8 => Some(Instruction::AND(AND(Addr::XIndirect))),
            0x31u8 => Some(Instruction::AND(AND(Addr::IndirectY))),
            0x49u8 => Some(Instruction::EOR(EOR(Addr::Immediate))),
            0x45u8 => Some(Instruction::EOR(EOR(Addr::ZeroPage))),
            0x55u8 => Some(Instruction::EOR(EOR(Addr::ZeroPageX))),
            0x4Du8 => Some(Instruction::EOR(EOR(Addr::Absolute))),
            0x5Du8 => Some(Instruction::EOR(EOR(Addr::AbsoluteX))),
            0x59u8 => Some(Instruction::EOR(EOR(Addr::AbsoluteY))),
            0x41u8 => Some(Instruction::EOR(EOR(Addr::XIndirect))),
            0x51u8 => Some(Instruction::EOR(EOR(Addr::IndirectY))),
            0x09u8 => Some(Instruction::ORA(ORA(Addr::Immediate))),
            0x05u8 => Some(Instruction::ORA(ORA(Addr::ZeroPage))),
            0x15u8 => Some(Instruction::ORA(ORA(Addr::ZeroPageX))),
            0x0Du8 => Some(Instruction::ORA(ORA(Addr::Absolute))),
            0x1Du8 => Some(Instruction::ORA(ORA(Addr::AbsoluteX))),
            0x19u8 => Some(Instruction::ORA(ORA(Addr::AbsoluteY))),
            0x01u8 => Some(Instruction::ORA(ORA(Addr::XIndirect))),
            0x11u8 => Some(Instruction::ORA(ORA(Addr::IndirectY))),
            0x24u8 => Some(Instruction::BIT(BIT(Addr::ZeroPage))),
            0x2Cu8 => Some(Instruction::BIT(BIT(Addr::Absolute))),
            0xE6u8 => Some(Instruction::INC(INC(Addr::ZeroPage))),
            0xF6u8 => Some(Instruction::INC(INC(Addr::ZeroPageX))),
            0xEEu8 => Some(Instruction::INC(INC(Addr::Absolute))),
            0xFEu8 => Some(Instruction::INC(INC(Addr::AbsoluteX))),
            0xC6u8 => Some(Instruction::DEC(DEC(Addr::ZeroPage))),
            0xD6u8 => Some(Instruction::DEC(DEC(Addr::ZeroPageX))),
            0xCEu8 => Some(Instruction::DEC(DEC(Addr::Absolute))),
            0xDEu8 => Some(Instruction::DEC(DEC(Addr::AbsoluteX))),
            0xE8u8 => Some(Instruction::INX(INX(Addr::Implicit))),
            0xC8u8 => Some(Instruction::INY(INY(Addr::Implicit))),
            0xCAu8 => Some(Instruction::DEX(DEX(Addr::Implicit))),
            0x88u8 => Some(Instruction::DEY(DEY(Addr::Implicit))),
            0x20u8 => Some(Instruction::JSR(JSR(Addr::Absolute))),
            0x18u8 => Some(Instruction::CLC(CLC(Addr::Implicit))),
            0xD8u8 => Some(Instruction::CLD(CLD(Addr::Implicit))),
            0x58u8 => Some(Instruction::CLI(CLI(Addr::Implicit))),
            0xB8u8 => Some(Instruction::CLV(CLV(Addr::Implicit))),
            0x38u8 => Some(Instruction::SEC(SEC(Addr::Implicit))),
            0xF8u8 => Some(Instruction::SED(SED(Addr::Implicit))),
            0x78u8 => Some(Instruction::SEI(SEI(Addr::Implicit))),
            0x00u8 => Some(Instruction::BRK(BRK(Addr::Implicit))),
            _ => None,
        }
    }
}

/// The opcode table and the encodings agree: an instruction that has an
/// opcode decodes back from it.
pub proof fn lemma_decode_code(ins: Instruction)
    requires
        ins.spec_code() is Some,
    ensures
        decode(ins.spec_code()->0) == Some(ins),
{
    match ins {
        Instruction::LDA(i) => {},
        Instruction::LDX(i) => {},
        Instruction::LDY(i) => {},
        Instruction::STA(i) => {},
        Instruction::STX(i) => {},
        Instruction::STY(i) => {},
        Instruction::TAX(i) => {},
        Instruction::TAY(i) => {},
        Instruction::TXA(i) => {},
        Instruction::TYA(i) => {},
        Instruction::TSX(i) => {},
        Instruction::TXS(i) => {},
        Instruction::PHA(i) => {},
        Instruction::PHP(i) => {},
        Instruction::PLA(i) => {},
        Instruction::PLP(i) => {},
        Instruction::AND(i) => {},
        Instruction::EOR(i) => {},
        Instruction::ORA(i) => {},
        Instruction::BIT(i) => {},
        Instruction::INC(i) => {},
        Instruction::DEC(i) => {},
        Instruction::INX(i) => {},
        Instruction::INY(i) => {},
        Instruction::DEX(i) => {},
        Instruction::DEY(i) => {},
        Instruction::JSR(i) => {},
        Instruction::CLC(i) => {},
        Instruction::CLD(i) => {},
        Instruction::CLI(i) => {},
        Instruction::CLV(i) => {},
        Instruction::SEC(i) => {},
        Instruction::SED(i) => {},
        Instruction::SEI(i) => {},
        Instruction::BRK(i) => {},
    }
}

/// Every opcode of the table encodes the instruction it decodes to.
pub proof fn lemma_code_decode(code: u8)
    requires
        decode(code) is Some,
    ensures
        decode(code)->0.spec_code() == Some(code),
{
}

/// Every instruction but a control transfer moves PC on by exactly its
/// encoded length (opcode and operand bytes), wrapping at 16 bits.
pub proof fn lemma_pc_advances(ins: Instruction, s: CpuState)
    requires
        !ins.is_control_transfer(),
        ins.effect(s) is Some,
    ensures
        ins.effect(s)->0.pc == ((s.pc + instruction_len(ins.mode())) % 0x10000) as u16,
{
    match ins {
        Instruction::LDA(i) => {
            reveal(LDA::effect);
        },
        Instruction::LDX(i) => {
            reveal(LDX::effect);
        },
        Instruction::LDY(i) => {
            reveal(LDY::effect);
        },
        Instruction::STA(i) => {
            reveal(STA::effect);
        },
        Instruction::STX(i) => {
            reveal(STX::effect);
        },
        Instruction::STY(i) => {
            reveal(STY::effect);
        },
        Instruction::TAX(i) => {
            reveal(TAX::effect);
        },
        Instruction::TAY(i) => {
            reveal(TAY::effect);
        },
        Instruction::TXA(i) => {
            reveal(TXA::effect);
        },
        Instruction::TYA(i) => {
            reveal(TYA::effect);
        },
        Instruction::TSX(i) => {
            reveal(TSX::effect);
        },
        Instruction::TXS(i) => {
            reveal(TXS::effect);
        },
        Instruction::PHA(i) => {
            reveal(PHA::effect);
        },
        Instruction::PHP(i) => {
            reveal(PHP::effect);
        },
        Instruction::PLA(i) => {
            reveal(PLA::effect);
        },
        Instruction::PLP(i) => {
            reveal(PLP::effect);
        },
        Instruction::AND(i) => {
            reveal(AND::effect);
        },
        Instruction::EOR(i) => {
            reveal(EOR::effect);
        },
        Instruction::ORA(i) => {
            reveal(ORA::effect);
        },
        Instruction::BIT(i) => {
            reveal(BIT::effect);
        },
        Instruction::INC(i) => {
            reveal(INC::effect);
        },
        Instruction::DEC(i) => {
            reveal(DEC::effect);
        },
        Instruction::INX(i) => {
            reveal(INX::effect);
        },
        Instruction::INY(i) => {
            reveal(INY::effect);
        },
        Instruction::DEX(i) => {
            reveal(DEX::effect);
        },
        Instruction::DEY(i) => {
            reveal(DEY::effect);
        },
        Instruction::CLC(i) => {
            reveal(CLC::effect);
        },
        Instruction::CLD(i) => {
            reveal(CLD::effect);
        },
        Instruction::CLI(i) => {
            reveal(CLI::effect);
        },
        Instruction::CLV(i) => {
            reveal(CLV::effect);
        },
        Instruction::SEC(i) => {
            reveal(SEC::effect);
        },
        Instruction::SED(i) => {
            reveal(SED::effect);
        },
        Instruction::SEI(i) => {
            reveal(SEI::effect);
        },
        Instruction::JSR(_) | Instruction::BRK(_) => {},
    }
}

} // verus!
