use vstd::prelude::*;

verus! {

/// Number of bytes in the address space (every 16-bit address is valid).
pub const MAX_MEM: usize = 65536;

/// The address that follows `a` on the 16-bit address bus (wrapping at the top).
pub open spec fn next_address(a: u16) -> u16 {
    ((a + 1) % 0x10000) as u16
}

/// The little-endian word stored at `a` and the following address.
pub open spec fn word_of(m: Seq<u8>, a: u16) -> u16 {
    (m[a as int] + 256 * m[next_address(a) as int]) as u16
}

/// The whole address space of the processor: one byte for each 16-bit address.
#[derive(Clone)]
pub struct Memory {
    data: [u8; MAX_MEM],
}

impl View for Memory {
    type V = Seq<u8>;

    closed spec fn view(&self) -> Seq<u8> {
        self.data@
    }
}

impl Memory {
    /// The view always covers the whole address space.
    pub proof fn lemma_len(&self)
        ensures
            self@.len() == MAX_MEM,
    {
        broadcast use vstd::array::array_len_matches_n;

    }

    /// A zero-filled address space.
    pub fn new() -> (m: Memory)
        ensures
            m@ == Seq::new(MAX_MEM as nat, |_i: int| 0u8),
    {
        let m = Memory { data: [0u8; MAX_MEM] };
        proof {
            m.lemma_len();
        }
        assert(m@ =~= Seq::new(MAX_MEM as nat, |_i: int| 0u8));
        m
    }

    /// Zero-fills the whole address space.
    pub fn init(&mut self)
        ensures
            final(self)@ == Seq::new(MAX_MEM as nat, |_i: int| 0u8),
    {
        *self = Memory::new();
    }

    /// The byte at `address`.
    pub fn read_byte(&self, address: u16) -> (r: u8)
        ensures
            r == self@[address as int],
    {
        proof {
            self.lemma_len();
        }
        self.data[address as usize]
    }

    /// The little-endian word at `address`; the high byte of the word at
    /// `0xFFFF` comes from `0x0000`.
    pub fn read_word(&self, address: u16) -> (r: u16)
        ensures
            r == word_of(self@, address),
    {
        let lo = self.read_byte(address);
        let hi = self.read_byte(address.wrapping_add(1));
        lo as u16 + (hi as u16) * 256
    }

    /// Stores `value` at `address`.
    pub fn write_byte(&mut self, address: u16, value: u8)
        ensures
            final(self)@ == old(self)@.update(address as int, value),
    {
        proof {
            self.lemma_len();
        }
        self.data[address as usize] = value;
    }

    /// Stores `value` little-endian: the low byte at `address`, the high byte
    /// at the next address (`0x0000` after `0xFFFF`).
    pub fn write_word(&mut self, address: u16, value: u16)
        ensures
            final(self)@ == old(self)@.update(address as int, (value % 256) as u8).update(
                next_address(address) as int,
                (value / 256) as u8,
            ),
    {
        self.write_byte(address, (value % 256) as u8);
        self.write_byte(address.wrapping_add(1), (value / 256) as u8);
    }
}

/// Addressing mode: how the bytes after an opcode name the operand.
#[derive(Clone, Copy, Debug, PartialEq, Eq, Structural)]
pub enum Addr {
    /// The operand is implied by the instruction (`CLC`, `TAX`).
    Implicit,
    /// The instruction works on the accumulator.
    Accumulator,
    /// The operand is the byte after the opcode.
    Immediate,
    /// A one-byte address in page zero.
    ZeroPage,
    /// A one-byte address plus X, wrapping within page zero.
    ZeroPageX,
    /// A one-byte address plus Y, wrapping within page zero.
    ZeroPageY,
    /// A signed one-byte offset from the program counter (branches).
    Relative,
    /// A full little-endian 16-bit address.
    Absolute,
    /// A 16-bit address plus X, wrapping at 16 bits.
    AbsoluteX,
    /// A 16-bit address plus Y, wrapping at 16 bits.
    AbsoluteY,
    /// A 16-bit address of a pointer (jumps).
    Indirect,
    /// A page-zero pointer at the operand byte plus X (wrapping in page zero).
    XIndirect,
    /// A page-zero pointer at the operand byte; Y is added to the word read there.
    IndirectY,
}

} // verus!
