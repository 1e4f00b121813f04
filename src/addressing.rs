use vstd::prelude::*;

use crate::cpu::CpuState;
use crate::mem::{next_address, Addr};

verus! {

/// Encoded length of an instruction in `mode`: the opcode and its operand bytes.
pub open spec fn instruction_len(mode: Addr) -> u16 {
    match mode {
        Addr::Implicit | Addr::Accumulator => 1,
        Addr::Absolute | Addr::AbsoluteX | Addr::AbsoluteY | Addr::Indirect => 3,
        _ => 2,
    }
}

/// Encoded length of an instruction in `mode`.
pub fn instruction_length(mode: Addr) -> (r: u16)
    ensures
        r == instruction_len(mode),
{
    match mode {
        Addr::Implicit | Addr::Accumulator => 1,
        Addr::Absolute | Addr::AbsoluteX | Addr::AbsoluteY | Addr::Indirect => 3,
        _ => 2,
    }
}

/// The byte that follows the opcode at PC.
pub open spec fn operand_byte(s: CpuState) -> u8 {
    s.byte(next_address(s.pc))
}

/// The little-endian word that follows the opcode at PC.
pub open spec fn operand_word(s: CpuState) -> u16 {
    s.word(next_address(s.pc))
}

/// The effective address of the operand of the instruction at PC, for the
/// modes that name a memory operand. Page-zero index additions wrap at 8
/// bits; absolute index additions wrap at 16 bits.
pub open spec fn effective_address_of(mode: Addr, s: CpuState) -> Option<u16> {
    match mode {
        Addr::ZeroPage => Some(operand_byte(s) as u16),
        Addr::ZeroPageX => Some(((operand_byte(s) + s.reg.x) % 0x100) as u16),
        Addr::ZeroPageY => Some(((operand_byte(s) + s.reg.y) % 0x100) as u16),
        Addr::Absolute => Some(operand_word(s)),
        Addr::AbsoluteX => Some(((operand_word(s) + s.reg.x) % 0x10000) as u16),
        Addr::AbsoluteY => Some(((operand_word(s) + s.reg.y) % 0x10000) as u16),
        Addr::XIndirect => Some(s.word(((operand_byte(s) + s.reg.x) % 0x100) as u16)),
        Addr::IndirectY => Some(((s.word(operand_byte(s) as u16) + s.reg.y) % 0x10000) as u16),
        _ => None,
    }
}

/// The operand value: the literal byte for `Immediate`, else the byte at the
/// effective address.
pub open spec fn operand_of(mode: Addr, s: CpuState) -> Option<u8> {
    match mode {
        Addr::Immediate => Some(operand_byte(s)),
        _ => match effective_address_of(mode, s) {
            Some(a) => Some(s.byte(a)),
            None => None,
        },
    }
}

} // verus!
