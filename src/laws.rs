use vstd::prelude::*;
use vstd::arithmetic::div_mod::{lemma_add_mod_noop, lemma_add_mod_noop_right};
use crate::cpu::{Cpu, with_flag};
use crate::flags::Flags;
use crate::machine::{next, run_n, execute_spec};
use crate::memory::addr_plus;
use crate::op_codes::{Behavior, behavior_of};

verus! {

/// The opcodes fetched by up to `n` steps from `cpu`, in order, up to the
/// first one without behaviour (left out).
pub open spec fn ops_run(cpu: Cpu, mem: Seq<u8>, n: nat) -> Seq<u8>
    decreases n,
{
    if n == 0 {
        Seq::empty()
    } else {
        match next(cpu, mem) {
            Option::None => Seq::empty(),
            Option::Some((c, m)) => seq![mem[cpu.pc as int]] + ops_run(c, m, (n - 1) as nat),
        }
    }
}

/// Sum of the table's base costs of `ops`.
pub open spec fn sum_costs(ops: Seq<u8>) -> nat
    decreases ops.len(),
{
    if ops.len() == 0 {
        0
    } else {
        behavior_of(ops[0]).base_cost() as nat + sum_costs(ops.drop_first())
    }
}

/// No behaviour touches the cycle override or the clock.
proof fn lemma_execute_keeps_clocks(b: Behavior, cpu: Cpu, mem: Seq<u8>, v: u16)
    ensures
        execute_spec(b, cpu, mem, v).0.int_clk == cpu.int_clk,
        execute_spec(b, cpu, mem, v).0.clock == cpu.clock,
{
}

/// An instruction that does not assign the program counter leaves it just
/// past its opcode and operand bytes; with no operand, one past the opcode.
pub proof fn lemma_fallthrough_pc(cpu: Cpu, mem: Seq<u8>)
    requires
        behavior_of(mem[cpu.pc as int]) != Behavior::Unimplemented,
        !behavior_of(mem[cpu.pc as int]).assigns_pc(),
    ensures
        next(cpu, mem) is Some,
        next(cpu, mem)->Some_0.0.pc == addr_plus(
            cpu.pc,
            1 + behavior_of(mem[cpu.pc as int]).operand_len(),
        ),
        behavior_of(mem[cpu.pc as int]).operand_len() == 0 ==> next(cpu, mem)->Some_0.0.pc
            == addr_plus(cpu.pc, 1),
{
    let len = behavior_of(mem[cpu.pc as int]).operand_len() as int;
    lemma_add_mod_noop(cpu.pc as int + 1, len, 0x10000);
    assert(addr_plus(addr_plus(cpu.pc, 1), len) == addr_plus(cpu.pc, 1 + len));
}

/// The no-op changes no register, flag or memory byte: the program counter
/// moves one past it and the clock advances by its base cost.
pub proof fn lemma_nop(cpu: Cpu, mem: Seq<u8>)
    requires
        behavior_of(mem[cpu.pc as int]) == Behavior::Nop,
    ensures
        next(cpu, mem) == Option::Some(
            (
                Cpu {
                    pc: addr_plus(cpu.pc, 1),
                    int_clk: Behavior::Nop.base_cost(),
                    clock: ((cpu.clock as int + Behavior::Nop.base_cost() as int) % 0x10000) as u16,
                    ..cpu
                },
                mem,
            ),
        ),
{
}

/// Setting or clearing a flag twice is the same as doing it once; clearing
/// a flag clears that flag and keeps every other bit.
pub proof fn lemma_set_or_clear(cpu: Cpu, flag: Flags, cond: bool)
    ensures
        ({
            let once = cpu.with_bits(with_flag(cpu.f.bits, flag.bits, cond));
            once.with_bits(with_flag(once.f.bits, flag.bits, cond)) == once
        }),
        with_flag(cpu.f.bits, flag.bits, false) & flag.bits == 0,
        with_flag(cpu.f.bits, flag.bits, false) & !flag.bits == cpu.f.bits & !flag.bits,
        with_flag(cpu.f.bits, flag.bits, true) & flag.bits == flag.bits,
        with_flag(cpu.f.bits, flag.bits, true) & !flag.bits == cpu.f.bits & !flag.bits,
{
    let b = cpu.f.bits;
    let f = flag.bits;
    assert((b | f) | f == b | f) by (bit_vector);
    assert((b & !f) & !f == b & !f) by (bit_vector);
    assert((b & !f) & f == 0) by (bit_vector);
    assert((b | f) & f == f) by (bit_vector);
    assert((b | f) & !f == b & !f) by (bit_vector);
}

/// The cycle counter after a run is the counter before it plus the base
/// costs of the opcodes executed, modulo 2^16 (no behaviour sets an
/// override).
pub proof fn lemma_clock_accounting(cpu: Cpu, mem: Seq<u8>, n: nat)
    ensures
        run_n(cpu, mem, n).0.clock as int == (cpu.clock as int + sum_costs(ops_run(cpu, mem, n)))
            % 0x10000,
    decreases n,
{
    if n == 0 {
        assert(sum_costs(Seq::<u8>::empty()) == 0);
    } else {
        match next(cpu, mem) {
            Option::None => {
                assert(sum_costs(Seq::<u8>::empty()) == 0);
            },
            Option::Some((c, m)) => {
                let b = behavior_of(mem[cpu.pc as int]);
                let pc1 = addr_plus(cpu.pc, 1);
                let ready = Cpu {
                    pc: addr_plus(pc1, b.operand_len() as int),
                    int_clk: 0,
                    ..cpu
                };
                lemma_execute_keeps_clocks(
                    b,
                    ready,
                    mem,
                    crate::machine::operand_at(mem, pc1, b.operand_len()),
                );
                let cost = b.base_cost() as int;
                assert(c.clock as int == (cpu.clock as int + cost) % 0x10000);
                lemma_clock_accounting(c, m, (n - 1) as nat);
                let rest = ops_run(c, m, (n - 1) as nat);
                let ops = seq![mem[cpu.pc as int]] + rest;
                assert(ops_run(cpu, mem, n) == ops);
                assert(ops.drop_first() =~= rest);
                assert(sum_costs(ops) == cost + sum_costs(rest));
                lemma_add_mod_noop_right(sum_costs(rest) as int, cpu.clock as int + cost, 0x10000);
                assert(run_n(cpu, mem, n) == run_n(c, m, (n - 1) as nat));
            },
        }
    }
}

} // verus!
