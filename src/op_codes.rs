use vstd::prelude::*;
use crate::memory::word_of;

verus! {

/// A decoded operand: no byte, one byte, or two bytes in memory order.
#[derive(Clone, Copy, Debug)]
pub enum Bytes {
    Empty,
    One(u8),
    Pair([u8; 2]),
}

impl Bytes {
    /// The operand as a number: zero, the byte, or the little-endian word.
    pub open spec fn value(self) -> u16 {
        match self {
            Bytes::Empty => 0,
            Bytes::One(v) => v as u16,
            Bytes::Pair(p) => word_of(p[0], p[1]),
        }
    }

    /// The single byte of a one-byte operand.
    pub fn get_one(self) -> (r: u8)
        requires
            self is One,
        ensures
            r == self->One_0,
            r as u16 == self.value(),
    {
        match self {
            Bytes::One(value) => value,
            _ => 0,
        }
    }

    /// The two bytes of a two-byte operand.
    #[inline(always)]
    pub fn get_pair(self) -> (r: [u8; 2])
        requires
            self is Pair,
        ensures
            r == self->Pair_0,
    {
        match self {
            Bytes::Pair(y) => y,
            _ => [0u8; 2],
        }
    }

    /// The two bytes of a two-byte operand as a little-endian word.
    #[inline(always)]
    pub fn get_pair_u16(self) -> (r: u16)
        requires
            self is Pair,
        ensures
            r == word_of(self->Pair_0[0], self->Pair_0[1]),
            r == self.value(),
    {
        let p = self.get_pair();
        p[0] as u16 + (p[1] as u16) * 256
    }
}

/// What an opcode does when executed.
#[derive(Clone, Copy, Debug, PartialEq, Eq, Structural)]
pub enum Behavior {
    /// No operation.
    Nop,
    /// Stores SP little-endian at the address operand.
    LdNnSp,
    /// HL += DE.
    AddHlDe,
    /// Relative jump when the flag byte is exactly "every flag but ZERO".
    JrNz,
    /// Stores A at the address in HL, then increments HL.
    LdHliA,
    /// Increments HL.
    IncHl,
    /// Loads the word operand into SP.
    LdSpNn,
    /// Loads the byte operand into A.
    LdAN,
    /// Subtract-with-borrow flags of A against C.
    SbcAC,
    /// A ^= A.
    XorA,
    /// Stores A at 0xFF00 plus the byte operand.
    LdhNA,
    /// Stores A at the address operand.
    LdNnA,
    /// A ^= the byte operand.
    XorN,
    /// SP = HL.
    LdSpHl,
    /// Compares A with the byte operand.
    CpN,
    /// Pushes PC and jumps to 0x38.
    Rst38,
    /// No behaviour is defined: executing it is a fault.
    Unimplemented,
}

/// The behaviour of each opcode byte.
pub open spec fn behavior_of(op: u8) -> Behavior {
    match op {
        0x00 => Behavior::Nop,
        0x08 => Behavior::LdNnSp,
        0x19 => Behavior::AddHlDe,
        0x20 => Behavior::JrNz,
        0x22 => Behavior::LdHliA,
        0x23 => Behavior::IncHl,
        0x31 => Behavior::LdSpNn,
        0x3e => Behavior::LdAN,
        0x99 => Behavior::SbcAC,
        0xaf => Behavior::XorA,
        0xe0 => Behavior::LdhNA,
        0xea => Behavior::LdNnA,
        0xee => Behavior::XorN,
        0xf9 => Behavior::LdSpHl,
        0xfe => Behavior::CpN,
        0xff => Behavior::Rst38,
        _ => Behavior::Unimplemented,
    }
}

impl Behavior {
    /// Number of operand bytes that follow the opcode.
    pub open spec fn operand_len(self) -> u8 {
        match self {
            Behavior::LdNnSp | Behavior::LdSpNn | Behavior::LdNnA => 2,
            Behavior::JrNz | Behavior::LdAN | Behavior::LdhNA | Behavior::XorN | Behavior::CpN => 1,
            _ => 0,
        }
    }

    /// Base cycle cost.
    pub open spec fn base_cost(self) -> u16 {
        match self {
            Behavior::Nop => 4,
            Behavior::LdNnSp => 10,
            Behavior::AddHlDe => 4,
            Behavior::JrNz => 4,
            Behavior::LdHliA => 2,
            Behavior::IncHl => 4,
            Behavior::LdSpNn => 12,
            Behavior::LdAN => 4,
            Behavior::SbcAC => 4,
            Behavior::XorA => 4,
            Behavior::LdhNA => 6,
            Behavior::LdNnA => 8,
            Behavior::XorN => 8,
            Behavior::LdSpHl => 4,
            Behavior::CpN => 8,
            Behavior::Rst38 => 16,
            Behavior::Unimplemented => 2,
        }
    }

    /// Whether the behaviour may set the program counter itself.
    pub open spec fn assigns_pc(self) -> bool {
        self == Behavior::JrNz || self == Behavior::Rst38
    }

    /// Diagnostic name.
    pub fn name(&self) -> &'static str {
        match self {
            Behavior::Nop => "NOP",
            Behavior::LdNnSp => "LD (nn),SP",
            Behavior::AddHlDe => "ADD HL,DE",
            Behavior::JrNz => "JR NZ,n",
            Behavior::LdHliA => "LD (HLI),A",
            Behavior::IncHl => "INC HL",
            Behavior::LdSpNn => "LD SP,nn",
            Behavior::LdAN => "LD A,n",
            Behavior::SbcAC => "SBC A,C",
            Behavior::XorA => "XOR A",
            Behavior::LdhNA => "LDH (n),A",
            Behavior::LdNnA => "LD (nn),A",
            Behavior::XorN => "XOR n",
            Behavior::LdSpHl => "LD SP,HL",
            Behavior::CpN => "CP n",
            Behavior::Rst38 => "RST 38H",
            Behavior::Unimplemented => "not implemented",
        }
    }
}

/// One entry of the opcode table.
#[derive(Clone, Copy, Debug)]
pub struct OpCode {
    pub name: &'static str,
    pub operand_size: u8,
    pub time: u16,
    pub f: Behavior,
}

/// The table entry of opcode byte `op`.
pub fn lookup(op: u8) -> (r: OpCode)
    ensures
        r.f == behavior_of(op),
        r.operand_size == r.f.operand_len(),
        r.time == r.f.base_cost(),
{
    let f = match op {
        0x00 => Behavior::Nop,
        0x08 => Behavior::LdNnSp,
        0x19 => Behavior::AddHlDe,
        0x20 => Behavior::JrNz,
        0x22 => Behavior::LdHliA,
        0x23 => Behavior::IncHl,
        0x31 => Behavior::LdSpNn,
        0x3e => Behavior::LdAN,
        0x99 => Behavior::SbcAC,
        0xaf => Behavior::XorA,
        0xe0 => Behavior::LdhNA,
        0xea => Behavior::LdNnA,
        0xee => Behavior::XorN,
        0xf9 => Behavior::LdSpHl,
        0xfe => Behavior::CpN,
        0xff => Behavior::Rst38,
        _ => Behavior::Unimplemented,
    };
    let (operand_size, time): (u8, u16) = match f {
        Behavior::Nop => (0, 4),
        Behavior::LdNnSp => (2, 10),
        Behavior::AddHlDe => (0, 4),
        Behavior::JrNz => (1, 4),
        Behavior::LdHliA => (0, 2),
        Behavior::IncHl => (0, 4),
        Behavior::LdSpNn => (2, 12),
        Behavior::LdAN => (1, 4),
        Behavior::SbcAC => (0, 4),
        Behavior::XorA => (0, 4),
        Behavior::LdhNA => (1, 6),
        Behavior::LdNnA => (2, 8),
        Behavior::XorN => (1, 8),
        Behavior::LdSpHl => (0, 4),
        Behavior::CpN => (1, 8),
        Behavior::Rst38 => (0, 16),
        Behavior::Unimplemented => (0, 2),
    };
    OpCode { name: f.name(), operand_size, time, f }
}

} // verus!
