use vstd::prelude::*;
use crate::cpu::{Cpu, addr_minus};
use crate::flags::{Flags, ZERO_BIT};
use crate::memory::{Memory, addr_plus, word_of, lo_byte, hi_byte, write_seq};
use crate::op_codes::{Behavior, Bytes, behavior_of, lookup};

verus! {

/// Flag pattern under which the JR NZ opcode jumps: every flag but ZERO.
pub open spec fn nz_pattern() -> u8 {
    (!ZERO_BIT) & 0xf0
}

/// An opcode without a defined behaviour, met at `pc`.
#[derive(Clone, Copy, Debug, PartialEq, Eq, Structural)]
pub struct Fault {
    pub opcode: u8,
    pub pc: u16,
}

/// The operand of `len` bytes found at `pc`, as a number.
pub open spec fn operand_at(mem: Seq<u8>, pc: u16, len: u8) -> u16 {
    if len == 1 {
        mem[pc as int] as u16
    } else if len == 2 {
        word_of(mem[pc as int], mem[addr_plus(pc, 1) as int])
    } else {
        0
    }
}

/// What behaviour `b` does to the registers and to memory, given the
/// operand value `v` (its program counter already past the operand).
pub open spec fn execute_spec(b: Behavior, cpu: Cpu, mem: Seq<u8>, v: u16) -> (Cpu, Seq<u8>) {
    match b {
        Behavior::LdNnSp => (
            cpu,
            mem.update(v as int, lo_byte(cpu.sp)).update(addr_plus(v, 1) as int, hi_byte(cpu.sp)),
        ),
        Behavior::AddHlDe => (cpu.add_hl_de_spec(), mem),
        Behavior::JrNz => (cpu.jr_spec(nz_pattern(), v as u8), mem),
        Behavior::LdHliA => (
            cpu.with_hl(addr_plus(cpu.hl(), 1)),
            mem.update(cpu.hl() as int, cpu.a),
        ),
        Behavior::IncHl => (cpu.with_hl(addr_plus(cpu.hl(), 1)), mem),
        Behavior::LdSpNn => (Cpu { sp: v, ..cpu }, mem),
        Behavior::LdAN => (Cpu { a: v as u8, ..cpu }, mem),
        Behavior::SbcAC => (cpu.with_bits(crate::cpu::sbc_flags(cpu.f.bits, cpu.a, cpu.c)), mem),
        Behavior::XorA => (cpu.xor_spec(cpu.a), mem),
        Behavior::LdhNA => (cpu, mem.update(0xff00 + (v as u8) as int, cpu.a)),
        Behavior::LdNnA => (cpu, mem.update(v as int, cpu.a)),
        Behavior::XorN => (cpu.xor_spec(v as u8), mem),
        Behavior::LdSpHl => (Cpu { sp: cpu.hl(), ..cpu }, mem),
        Behavior::CpN => (cpu.with_bits(crate::cpu::cp_flags(cpu.a, v as u8)), mem),
        Behavior::Rst38 => (
            Cpu { sp: addr_minus(cpu.sp, 2), pc: 0x38, ..cpu },
            write_seq(mem, cpu.sp, seq![lo_byte(cpu.pc), hi_byte(cpu.pc)]),
        ),
        _ => (cpu, mem),
    }
}

/// One fetch-decode-execute step from `cpu` over memory `mem`, or `None`
/// when the opcode at the program counter has no behaviour.
pub open spec fn next(cpu: Cpu, mem: Seq<u8>) -> Option<(Cpu, Seq<u8>)> {
    let b = behavior_of(mem[cpu.pc as int]);
    if b == Behavior::Unimplemented {
        None
    } else {
        let pc1 = addr_plus(cpu.pc, 1);
        let v = operand_at(mem, pc1, b.operand_len());
        let ready = Cpu { pc: addr_plus(pc1, b.operand_len() as int), int_clk: 0, ..cpu };
        let (done, mem2) = execute_spec(b, ready, mem, v);
        let cost = if done.int_clk == 0 {
            b.base_cost()
        } else {
            done.int_clk
        };
        Some(
            (Cpu { int_clk: cost, clock: ((done.clock as int + cost as int) % 0x10000) as u16, ..done }, mem2),
        )
    }
}

/// Up to `n` steps from `cpu`: the state reached, and whether it stopped on
/// an opcode without behaviour (the state is then the one before it).
pub open spec fn run_n(cpu: Cpu, mem: Seq<u8>, n: nat) -> (Cpu, Seq<u8>, bool)
    decreases n,
{
    if n == 0 {
        (cpu, mem, false)
    } else {
        match next(cpu, mem) {
            Option::None => (cpu, mem, true),
            Option::Some((c, m)) => run_n(c, m, (n - 1) as nat),
        }
    }
}

impl Cpu {
    /// Runs behaviour `b` with the decoded operand.
    fn execute(&mut self, mem: &mut Memory, b: Behavior, operand: Bytes)
        requires
            old(mem).wf(),
            b.operand_len() == 1 ==> operand is One,
            b.operand_len() == 2 ==> operand is Pair,
        ensures
            final(mem).wf(),
            (*final(self), final(mem)@) == execute_spec(b, *old(self), old(mem)@, operand.value()),
            old(self).wf() ==> final(self).wf(),
    {
        match b {
            Behavior::Nop => {},
            Behavior::LdNnSp => {
                let sp = self.sp;
                mem.ww(operand.get_pair_u16(), sp);
            },
            Behavior::AddHlDe => self.add_hl_de(),
            Behavior::JrNz => {
                let ctrl = Flags::zero().complement();
                self.jr(ctrl, operand.get_one());
            },
            Behavior::LdHliA => {
                let hl = self.r_hl();
                mem.wb(hl, self.a);
                self.w_hl(hl.wrapping_add(1));
            },
            Behavior::IncHl => {
                let hl = self.r_hl();
                self.w_hl(hl.wrapping_add(1));
            },
            Behavior::LdSpNn => self.ld_sp_nn(operand.get_pair_u16()),
            Behavior::LdAN => self.a = operand.get_one(),
            Behavior::SbcAC => {
                let c = self.c;
                self.sbc_a(c);
            },
            Behavior::XorA => {
                let a = self.a;
                self.xor_n(a as u16);
            },
            Behavior::LdhNA => mem.wb(0xff00 + operand.get_one() as u16, self.a),
            Behavior::LdNnA => mem.wb(operand.get_pair_u16(), self.a),
            Behavior::XorN => self.xor_n(operand.get_one() as u16),
            Behavior::LdSpHl => self.sp = self.r_hl(),
            Behavior::CpN => self.cp_n(operand.get_one() as u16),
            Behavior::Rst38 => self.rst(0x38, mem),
            Behavior::Unimplemented => {},
        }
    }

    /// Executes one instruction: fetch the opcode at PC, move PC past it and
    /// its operand, run its behaviour, then add its cycle cost to the clock.
    /// An opcode without behaviour leaves everything as it was and is
    /// reported with the PC it was found at.
    #[verifier::rlimit(60)]
    pub fn step(&mut self, mem: &mut Memory) -> (r: Result<(), Fault>)
        requires
            old(mem).wf(),
        ensures
            final(mem).wf(),
            old(self).wf() ==> final(self).wf(),
            match next(*old(self), old(mem)@) {
                Option::None => r == Err::<(), Fault>(
                    Fault { opcode: old(mem)@[old(self).pc as int], pc: old(self).pc },
                ) && *final(self) == *old(self) && final(mem)@ == old(mem)@,
                Option::Some((c, m)) => r is Ok && *final(self) == c && final(mem)@ == m,
            },
    {
        let op = mem.rb(self.pc);
        let entry = lookup(op);
        if entry.f == Behavior::Unimplemented {
            return Err(Fault { opcode: op, pc: self.pc });
        }
        self.pc = self.pc.wrapping_add(1);
        let operand = if entry.operand_size == 1 {
            Bytes::One(mem.rb(self.pc))
        } else if entry.operand_size == 2 {
            Bytes::Pair(mem.read::<2>(self.pc))
        } else {
            Bytes::Empty
        };
        proof {
            assert(addr_plus(self.pc, 0) == self.pc);
        }
        self.pc = self.pc.wrapping_add(entry.operand_size as u16);
        self.int_clk = 0;
        self.execute(mem, entry.f, operand);
        if self.int_clk == 0 {
            self.int_clk = entry.time;
        }
        self.clock = self.clock.wrapping_add(self.int_clk);
        Ok(())
    }

    /// Executes up to `steps` instructions, stopping at the first opcode
    /// without behaviour, which is returned as the error.
    pub fn run(&mut self, memory: &mut Memory, steps: u64) -> (r: Result<(), Fault>)
        requires
            old(memory).wf(),
        ensures
            final(memory).wf(),
            old(self).wf() ==> final(self).wf(),
            *final(self) == run_n(*old(self), old(memory)@, steps as nat).0,
            final(memory)@ == run_n(*old(self), old(memory)@, steps as nat).1,
            r is Err <==> run_n(*old(self), old(memory)@, steps as nat).2,
            r is Err ==> r == Err::<(), Fault>(
                Fault { opcode: final(memory)@[final(self).pc as int], pc: final(self).pc },
            ),
    {
        let mut i: u64 = 0;
        while i < steps
            invariant
                memory.wf(),
                i <= steps,
                old(self).wf() ==> self.wf(),
                run_n(*old(self), old(memory)@, steps as nat) == run_n(
                    *self,
                    memory@,
                    (steps - i) as nat,
                ),
            decreases steps - i,
        {
            match self.step(memory) {
                Ok(()) => {},
                Err(fault) => {
                    return Err(fault);
                },
            }
            i = i + 1;
        }
        Ok(())
    }
}

} // verus!
