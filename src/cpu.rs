use vstd::prelude::*;
use crate::flags::{Flags, flag_bits_ok, ZERO_BIT, NEGATIVE_BIT, HALFCARRY_BIT, CARRY_BIT};
use crate::memory::{Memory, addr_plus, word_of, lo_byte, hi_byte, write_seq, read_seq};

verus! {

/// The register file, the flags and the two clocks of the CPU.
#[derive(Clone, Copy, Debug)]
pub struct Cpu {
    pub a: u8,
    pub b: u8,
    pub c: u8,
    pub d: u8,
    pub e: u8,
    pub h: u8,
    pub l: u8,
    pub f: Flags,
    pub pc: u16,
    pub sp: u16,
    /// Cycle cost of the instruction being executed; zero means "use the
    /// table's base cost".
    pub int_clk: u16,
    /// Cumulative cycle counter, wrapping at 2^16.
    pub clock: u16,
    pub boot_off: bool,
}

/// `bits` with `flag` set when `cond` holds and cleared otherwise.
pub open spec fn with_flag(bits: u8, flag: u8, cond: bool) -> u8 {
    if cond {
        bits | flag
    } else {
        bits & !flag
    }
}

/// The address `n` bytes below `addr`, wrapping round the 16-bit space.
pub open spec fn addr_minus(addr: u16, n: int) -> u16 {
    ((addr as int - n) % 0x10000) as u16
}

/// Sum of two words truncated to 16 bits.
pub open spec fn add16(to: u16, from: u16) -> u16 {
    ((to as int + from as int) % 0x10000) as u16
}

/// Flags after the 16-bit add of `from` into `to`: CARRY when the sum does
/// not fit in 16 bits, HALFCARRY from the low nibbles of the truncated sum
/// and of `from`, NEGATIVE cleared, ZERO kept.
pub open spec fn add16_flags(f: u8, to: u16, from: u16) -> u8 {
    let carried = with_flag(f, CARRY_BIT, to as int + from as int > 0xffff);
    let sum = add16(to, from);
    with_flag(carried, HALFCARRY_BIT, (sum & 0x0f) + (from & 0x0f) > 0x0f) & !NEGATIVE_BIT
}

/// Flags after a subtract-with-borrow of `op` from `a`.
pub open spec fn sbc_flags(f: u8, a: u8, op: u8) -> u8 {
    let n = f | NEGATIVE_BIT;
    let z = with_flag(n, ZERO_BIT, op == a);
    let c = with_flag(z, CARRY_BIT, op > a);
    with_flag(c, HALFCARRY_BIT, (op & 0x0f) > (a & 0x0f))
}

/// Flags after comparing `a` with `op`: NEGATIVE, together with the first
/// of ZERO (equal), CARRY (`a` below `op`) or HALFCARRY (`op`'s low nibble
/// above `a`'s) that applies.
pub open spec fn cp_flags(a: u8, op: u8) -> u8 {
    if a == op {
        ZERO_BIT | NEGATIVE_BIT
    } else if a < op {
        CARRY_BIT | NEGATIVE_BIT
    } else if (op & 0x0f) > (a & 0x0f) {
        HALFCARRY_BIT | NEGATIVE_BIT
    } else {
        NEGATIVE_BIT
    }
}

/// Flags after an exclusive-or that left `a` in the accumulator.
pub open spec fn xor_flags(a: u8) -> u8 {
    if a == 0 {
        ZERO_BIT
    } else {
        0
    }
}

impl Cpu {
    /// The flag byte keeps its four unused bits clear.
    pub open spec fn wf(self) -> bool {
        flag_bits_ok(self.f.bits)
    }

    /// The state at power-on: everything zero.
    pub open spec fn initial() -> Cpu {
        Cpu {
            a: 0,
            b: 0,
            c: 0,
            d: 0,
            e: 0,
            h: 0,
            l: 0,
            f: Flags { bits: 0 },
            pc: 0,
            sp: 0,
            int_clk: 0,
            clock: 0,
            boot_off: false,
        }
    }

    /// This state with the flag byte replaced.
    pub open spec fn with_bits(self, bits: u8) -> Cpu {
        Cpu { f: Flags { bits }, ..self }
    }

    /// HL as a word: H is the low byte, L the high byte.
    pub open spec fn hl(self) -> u16 {
        word_of(self.h, self.l)
    }

    /// DE as a word: D is the low byte, E the high byte.
    pub open spec fn de(self) -> u16 {
        word_of(self.d, self.e)
    }

    /// This state with HL set to `val` (H takes the low byte).
    pub open spec fn with_hl(self, val: u16) -> Cpu {
        Cpu { h: lo_byte(val), l: hi_byte(val), ..self }
    }

    /// This state with DE set to `val` (D takes the low byte).
    pub open spec fn with_de(self, val: u16) -> Cpu {
        Cpu { d: lo_byte(val), e: hi_byte(val), ..self }
    }

    /// HL += DE, with the flags of the 16-bit add.
    pub open spec fn add_hl_de_spec(self) -> Cpu {
        self.with_hl(add16(self.hl(), self.de())).with_bits(
            add16_flags(self.f.bits, self.hl(), self.de()),
        )
    }

    /// `a ^= v`, then the flags of an exclusive-or.
    pub open spec fn xor_spec(self, v: u8) -> Cpu {
        Cpu { a: self.a ^ v, ..self }.with_bits(xor_flags(self.a ^ v))
    }

    /// The relative jump: taken only when the whole flag byte equals `ctrl`'s.
    pub open spec fn jr_spec(self, ctrl: u8, offset: u8) -> Cpu {
        if ctrl == self.f.bits {
            Cpu { pc: addr_plus(self.pc, offset as int), ..self }
        } else {
            self
        }
    }

    /// Sets `flag` when `cond` holds and clears it otherwise; no other bit
    /// or register changes.
    #[inline]
    pub fn set_flag_or_reset(&mut self, flag: Flags, cond: bool)
        ensures
            *final(self) == old(self).with_bits(with_flag(old(self).f.bits, flag.bits, cond)),
            old(self).wf() && flag.wf() ==> final(self).wf(),
    {
        if cond {
            self.f = self.f.union(flag);
        } else {
            self.f = self.f.difference(flag);
        }
    }

    /// The HL register pair.
    #[inline]
    pub fn r_hl(&self) -> (r: u16)
        ensures
            r == self.hl(),
    {
        self.h as u16 + (self.l as u16) * 256
    }

    /// Stores `val` in the HL register pair.
    #[inline]
    pub fn w_hl(&mut self, val: u16)
        ensures
            *final(self) == old(self).with_hl(val),
    {
        self.h = (val % 256) as u8;
        self.l = (val / 256) as u8;
    }

    /// The DE register pair.
    #[inline]
    pub fn r_de(&mut self) -> (r: u16)
        ensures
            r == old(self).de(),
            *final(self) == *old(self),
    {
        self.d as u16 + (self.e as u16) * 256
    }

    /// Stores `val` in the DE register pair.
    #[inline]
    pub fn w_de(&mut self, val: u16)
        ensures
            *final(self) == old(self).with_de(val),
    {
        self.d = (val % 256) as u8;
        self.e = (val / 256) as u8;
    }

    /// Puts every register, flag and clock back to zero.
    pub fn reset(&mut self)
        ensures
            *final(self) == Cpu::initial(),
    {
        *self = Cpu::new();
    }

    /// The power-on state.
    pub fn new() -> (r: Cpu)
        ensures
            r == Cpu::initial(),
            r.wf(),
    {
        let r = Cpu {
            a: 0,
            b: 0,
            c: 0,
            d: 0,
            e: 0,
            h: 0,
            l: 0,
            f: Flags::empty(),
            pc: 0,
            sp: 0,
            int_clk: 0,
            clock: 0,
            boot_off: false,
        };
        r
    }

    /// Reads `BYTES` bytes at the program counter and moves the program
    /// counter past them (the stack pointer is not used).
    pub fn pop_stack<const BYTES: usize>(&mut self, mem: &mut Memory) -> (r: [u8; BYTES])
        requires
            old(mem).wf(),
        ensures
            r@ == read_seq(old(mem)@, old(self).pc, BYTES as nat),
            *final(self) == (Cpu { pc: addr_plus(old(self).pc, BYTES as int), ..*old(self) }),
            *final(mem) == *old(mem),
    {
        let pc = self.pc;
        self.pc = self.pc.wrapping_add((BYTES % 0x10000) as u16);
        mem.read::<BYTES>(pc)
    }

    /// Writes `val` from the stack pointer on, then moves the stack pointer
    /// down by its length: the stack grows towards lower addresses.
    pub fn push_stack<const BYTES: usize>(&mut self, mem: &mut Memory, val: [u8; BYTES])
        requires
            old(mem).wf(),
        ensures
            final(mem).wf(),
            final(mem)@ == write_seq(old(mem)@, old(self).sp, val@),
            *final(self) == (Cpu { sp: addr_minus(old(self).sp, BYTES as int), ..*old(self) }),
    {
        mem.write(self.sp, val);
        self.sp = self.sp.wrapping_sub((BYTES % 0x10000) as u16);
    }

    /// Pushes the program counter, low byte first.
    pub fn push_pc_stack(&mut self, mem: &mut Memory)
        requires
            old(mem).wf(),
        ensures
            final(mem).wf(),
            final(mem)@ == write_seq(old(mem)@, old(self).sp, seq![lo_byte(old(self).pc), hi_byte(old(self).pc)]),
            *final(self) == (Cpu { sp: addr_minus(old(self).sp, 2), ..*old(self) }),
    {
        let bytes: [u8; 2] = [(self.pc % 256) as u8, (self.pc / 256) as u8];
        assert(bytes@ =~= seq![lo_byte(self.pc), hi_byte(self.pc)]);
        self.push_stack(mem, bytes);
    }

    /// Jumps to `addr`.
    pub fn jmp(&mut self, addr: u16)
        ensures
            *final(self) == (Cpu { pc: addr, ..*old(self) }),
    {
        self.pc = addr;
    }

    /// Adds `from` into `to`: CARRY when the sum overflows 16 bits,
    /// HALFCARRY when the low nibbles of the truncated sum and of `from`
    /// add past 0x0f, NEGATIVE cleared, ZERO untouched.
    pub fn add_u16(&mut self, to: &mut u16, from: u16)
        ensures
            *final(to) == add16(*old(to), from),
            *final(self) == old(self).with_bits(add16_flags(old(self).f.bits, *old(to), from)),
            old(self).wf() ==> final(self).wf(),
    {
        let result: u32 = from as u32 + *to as u32;
        self.set_flag_or_reset(Flags::carry(), result > 0xffff);
        *to = (result % 0x10000) as u16;
        let t: u16 = *to;
        assert(t & 0x0f <= 0x0f && from & 0x0f <= 0x0f) by (bit_vector);
        self.set_flag_or_reset(Flags::halfcarry(), ((*to & 0x0f) + (from & 0x0f)) > 0x0f);
        self.f = self.f.difference(Flags::negative());
    }

    /// Subtract-with-borrow flags of the accumulator against `operand`:
    /// NEGATIVE set, ZERO when equal, CARRY when `operand` is the larger,
    /// HALFCARRY when its low nibble is the larger. The accumulator itself
    /// is left as it was.
    pub fn sbc_a(&mut self, operand: u8)
        ensures
            *final(self) == old(self).with_bits(sbc_flags(old(self).f.bits, old(self).a, operand)),
            old(self).wf() ==> final(self).wf(),
    {
        self.f = self.f.union(Flags::negative());
        let a = self.a;
        self.set_flag_or_reset(Flags::zero(), operand == a);
        self.set_flag_or_reset(Flags::carry(), operand > a);
        self.set_flag_or_reset(Flags::halfcarry(), (operand & 0x0f) > (a & 0x0f));
    }

    /// HL += DE with the flags of the 16-bit add.
    pub fn add_hl_de(&mut self)
        ensures
            *final(self) == old(self).add_hl_de_spec(),
            old(self).wf() ==> final(self).wf(),
    {
        let mut hl = self.r_hl();
        let de = self.r_de();
        self.add_u16(&mut hl, de);
        self.w_hl(hl);
    }

    /// Relative jump: when the whole flag byte equals `ctrl`, the program
    /// counter moves forward by `offset_jmp`, read as unsigned.
    pub fn jr(&mut self, ctrl: Flags, offset_jmp: u8)
        ensures
            *final(self) == old(self).jr_spec(ctrl.bits, offset_jmp),
    {
        if ctrl == self.f {
            let target = self.pc.wrapping_add(offset_jmp as u16);
            self.jmp(target);
        }
    }

    /// Loads a 16-bit value into the stack pointer.
    pub fn ld_sp_nn(&mut self, operands: u16)
        ensures
            *final(self) == (Cpu { sp: operands, ..*old(self) }),
    {
        self.sp = operands;
    }

    /// Exclusive-or of the operand's low byte into the accumulator; every
    /// flag is cleared but ZERO, which is set when the result is zero.
    pub fn xor_n(&mut self, operands: u16)
        ensures
            *final(self) == old(self).xor_spec(operands as u8),
            final(self).wf(),
    {
        self.f = Flags::empty();
        self.a = self.a ^ (operands as u8);
        if self.a == 0 {
            self.f = Flags::zero();
        }
    }

    /// Compares the accumulator with the operand's low byte, keeping the
    /// accumulator: see `cp_flags` for the flags.
    #[inline]
    pub fn cp_n(&mut self, operand: u16)
        ensures
            *final(self) == old(self).with_bits(cp_flags(old(self).a, operand as u8)),
            final(self).wf(),
    {
        let operand = operand as u8;
        self.f = Flags::empty();
        if self.a == operand {
            self.f = self.f.union(Flags::zero());
        } else if self.a < operand {
            self.f = self.f.union(Flags::carry());
        } else if (operand & 0x0f) > self.a & 0x0f {
            self.f = self.f.union(Flags::halfcarry());
        }
        self.f = self.f.union(Flags::negative());
        proof {
            assert(0u8 | 0x80u8 | 0x40u8 == 0x80u8 | 0x40u8) by (bit_vector);
            assert(0u8 | 0x10u8 | 0x40u8 == 0x10u8 | 0x40u8) by (bit_vector);
            assert(0u8 | 0x20u8 | 0x40u8 == 0x20u8 | 0x40u8) by (bit_vector);
            assert(0u8 | 0x40u8 == 0x40u8) by (bit_vector);
        }
    }

    /// Pushes the program counter, then jumps to the reset vector `n`.
    pub fn rst(&mut self, n: u16, mem: &mut Memory)
        requires
            old(mem).wf(),
        ensures
            final(mem).wf(),
            final(mem)@ == write_seq(old(mem)@, old(self).sp, seq![lo_byte(old(self).pc), hi_byte(old(self).pc)]),
            *final(self) == (Cpu { sp: addr_minus(old(self).sp, 2), pc: n, ..*old(self) }),
    {
        self.push_pc_stack(mem);
        self.jmp(n);
    }
}

impl Default for Cpu {
    fn default() -> (r: Cpu)
        ensures
            r == Cpu::initial(),
    {
        Cpu::new()
    }
}

} // verus!
