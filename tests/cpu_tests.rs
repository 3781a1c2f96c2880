use gbcpu::cpu::Cpu;
use gbcpu::flags::{Flags, CARRY_BIT, HALFCARRY_BIT, NEGATIVE_BIT, ZERO_BIT};
use gbcpu::machine::Fault;
use gbcpu::memory::Memory;
use gbcpu::op_codes::{lookup, Behavior, Bytes};

fn memory_with(program: &[u8]) -> Memory {
    let mut mem = Memory::new();
    mem.load_program(&program.to_vec());
    mem
}

#[test]
fn add_u16_half_carry() {
    let mut cpu = Cpu::new();
    let mut to: u16 = 0x00FF;
    cpu.add_u16(&mut to, 0x0001);
    assert_eq!(to, 0x0100);
    // Half carry is tested on the truncated sum: 0x0 + 0x1 does not pass 0x0f.
    assert!(!cpu.f.contains(Flags::halfcarry()));
    assert!(!cpu.f.contains(Flags::carry()));
    assert!(!cpu.f.contains(Flags::negative()));
}

#[test]
fn add_u16_half_carry_from_truncated_sum() {
    let mut cpu = Cpu::new();
    let mut to: u16 = 0x000F;
    cpu.add_u16(&mut to, 0x000F);
    assert_eq!(to, 0x001E);
    assert!(cpu.f.contains(Flags::halfcarry()));
    assert!(!cpu.f.contains(Flags::carry()));
}

#[test]
fn add_u16_wraps_with_carry() {
    let mut cpu = Cpu::new();
    let mut to: u16 = 0xFFFF;
    cpu.add_u16(&mut to, 0x0001);
    assert_eq!(to, 0x0000);
    assert!(cpu.f.contains(Flags::carry()));
}

#[test]
fn add_u16_keeps_zero_and_clears_negative() {
    let mut cpu = Cpu::new();
    cpu.f = Flags::from_bits_truncate(ZERO_BIT | NEGATIVE_BIT);
    let mut to: u16 = 0x1000;
    cpu.add_u16(&mut to, 0x0234);
    assert_eq!(to, 0x1234);
    assert_eq!(cpu.f.bits(), ZERO_BIT);
}

#[test]
fn xor_to_zero() {
    let mut cpu = Cpu::new();
    cpu.a = 0b1010_1010;
    cpu.f = Flags::from_bits_truncate(0xF0);
    cpu.xor_n(0b1010_1010);
    assert_eq!(cpu.a, 0);
    assert_eq!(cpu.f.bits(), ZERO_BIT);
}

#[test]
fn xor_nonzero() {
    let mut cpu = Cpu::new();
    cpu.a = 0xFF;
    cpu.xor_n(0x0F);
    assert_eq!(cpu.a, 0xF0);
    assert_eq!(cpu.f.bits(), 0);
}

#[test]
fn xor_uses_low_byte_only() {
    let mut cpu = Cpu::new();
    cpu.a = 0x0F;
    cpu.xor_n(0x120F);
    assert_eq!(cpu.a, 0);
    assert_eq!(cpu.f.bits(), ZERO_BIT);
}

#[test]
fn compare_equal() {
    let mut cpu = Cpu::new();
    cpu.a = 0x10;
    cpu.cp_n(0x10);
    assert_eq!(cpu.f.bits(), ZERO_BIT | NEGATIVE_BIT);
    assert_eq!(cpu.a, 0x10);
}

#[test]
fn compare_less() {
    let mut cpu = Cpu::new();
    cpu.a = 0x05;
    cpu.cp_n(0x10);
    assert_eq!(cpu.f.bits(), CARRY_BIT | NEGATIVE_BIT);
    assert_eq!(cpu.a, 0x05);
}

#[test]
fn compare_half_borrow_only() {
    let mut cpu = Cpu::new();
    cpu.a = 0x21;
    cpu.cp_n(0x0F);
    assert_eq!(cpu.f.bits(), HALFCARRY_BIT | NEGATIVE_BIT);
}

#[test]
fn compare_carry_excludes_half_carry() {
    let mut cpu = Cpu::new();
    cpu.a = 0x01;
    cpu.cp_n(0x0F);
    assert_eq!(cpu.f.bits(), CARRY_BIT | NEGATIVE_BIT);
}

#[test]
fn compare_greater_sets_negative_only() {
    let mut cpu = Cpu::new();
    cpu.a = 0x38;
    cpu.cp_n(0x12);
    assert_eq!(cpu.f.bits(), NEGATIVE_BIT);
}

#[test]
fn sbc_sets_flags_and_keeps_a() {
    let mut cpu = Cpu::new();
    cpu.a = 0x10;
    cpu.sbc_a(0x21);
    assert_eq!(cpu.a, 0x10);
    assert_eq!(cpu.f.bits(), NEGATIVE_BIT | CARRY_BIT | HALFCARRY_BIT);
    cpu.sbc_a(0x10);
    assert_eq!(cpu.f.bits(), NEGATIVE_BIT | ZERO_BIT);
}

#[test]
fn set_flag_twice_is_once() {
    let mut cpu = Cpu::new();
    cpu.f = Flags::from_bits_truncate(NEGATIVE_BIT);
    cpu.set_flag_or_reset(Flags::carry(), true);
    let once = cpu;
    cpu.set_flag_or_reset(Flags::carry(), true);
    assert_eq!(cpu.f, once.f);
    assert_eq!(cpu.f.bits(), NEGATIVE_BIT | CARRY_BIT);
}

#[test]
fn clear_flag_clears_only_it() {
    let mut cpu = Cpu::new();
    cpu.f = Flags::from_bits_truncate(0xF0);
    cpu.set_flag_or_reset(Flags::halfcarry(), false);
    assert_eq!(cpu.f.bits(), ZERO_BIT | NEGATIVE_BIT | CARRY_BIT);
}

#[test]
fn register_pairs_put_first_register_low() {
    let mut cpu = Cpu::new();
    cpu.w_hl(0x1234);
    assert_eq!(cpu.h, 0x34);
    assert_eq!(cpu.l, 0x12);
    assert_eq!(cpu.r_hl(), 0x1234);
    cpu.w_de(0xABCD);
    assert_eq!(cpu.d, 0xCD);
    assert_eq!(cpu.e, 0xAB);
    assert_eq!(cpu.r_de(), 0xABCD);
}

#[test]
fn add_hl_de_adds_pairs() {
    let mut cpu = Cpu::new();
    cpu.w_hl(0x0FFF);
    cpu.w_de(0x0001);
    cpu.add_hl_de();
    assert_eq!(cpu.r_hl(), 0x1000);
    assert_eq!(cpu.f.bits(), 0);
}

#[test]
fn jr_jumps_only_on_exact_flag_byte() {
    let mut cpu = Cpu::new();
    cpu.pc = 0x0100;
    cpu.f = Flags::carry();
    cpu.jr(Flags::zero().complement(), 0x05);
    assert_eq!(cpu.pc, 0x0100);
    cpu.f = Flags::from_bits_truncate(NEGATIVE_BIT | HALFCARRY_BIT | CARRY_BIT);
    cpu.jr(Flags::zero().complement(), 0xFE);
    assert_eq!(cpu.pc, 0x01FE);
}

#[test]
fn push_then_pop() {
    let mut cpu = Cpu::new();
    let mut mem = Memory::new();
    cpu.sp = 0xFFFE;
    cpu.push_stack(&mut mem, [0xAA, 0xBB]);
    assert_eq!(cpu.sp, 0xFFFC);
    assert_eq!(mem.rb(0xFFFE), 0xAA);
    assert_eq!(mem.rb(0xFFFF), 0xBB);
    cpu.pc = 0xFFFE;
    let got: [u8; 2] = cpu.pop_stack(&mut mem);
    assert_eq!(got, [0xAA, 0xBB]);
    assert_eq!(cpu.pc, 0x0000);
    assert_eq!(cpu.sp, 0xFFFC);
}

#[test]
fn rst_pushes_pc_and_jumps() {
    let mut cpu = Cpu::new();
    let mut mem = Memory::new();
    cpu.pc = 0x1234;
    cpu.sp = 0x8000;
    cpu.rst(0x38, &mut mem);
    assert_eq!(cpu.pc, 0x0038);
    assert_eq!(cpu.sp, 0x7FFE);
    assert_eq!(mem.rb(0x8000), 0x34);
    assert_eq!(mem.rb(0x8001), 0x12);
}

#[test]
fn ld_sp_nn_and_jmp() {
    let mut cpu = Cpu::new();
    cpu.ld_sp_nn(0xFFFE);
    assert_eq!(cpu.sp, 0xFFFE);
    cpu.jmp(0x0150);
    assert_eq!(cpu.pc, 0x0150);
}

#[test]
fn reset_zeroes_everything() {
    let mut cpu = Cpu::new();
    cpu.a = 7;
    cpu.pc = 0x100;
    cpu.clock = 99;
    cpu.f = Flags::zero();
    cpu.reset();
    let fresh = Cpu::default();
    assert_eq!(cpu.a, 0);
    assert_eq!(cpu.pc, 0);
    assert_eq!(cpu.clock, 0);
    assert_eq!(cpu.f, fresh.f);
}

#[test]
fn bytes_accessors() {
    assert_eq!(Bytes::One(0x42).get_one(), 0x42);
    assert_eq!(Bytes::Pair([0x34, 0x12]).get_pair(), [0x34, 0x12]);
    assert_eq!(Bytes::Pair([0x34, 0x12]).get_pair_u16(), 0x1234);
}

#[test]
fn table_entries() {
    let nop = lookup(0x00);
    assert_eq!(nop.f, Behavior::Nop);
    assert_eq!(nop.operand_size, 0);
    assert_eq!(nop.time, 4);
    let ld_sp = lookup(0x31);
    assert_eq!(ld_sp.f, Behavior::LdSpNn);
    assert_eq!(ld_sp.operand_size, 2);
    assert_eq!(ld_sp.time, 12);
    assert_eq!(lookup(0x3E).operand_size, 1);
    assert_eq!(lookup(0xFF).time, 16);
    assert_eq!(lookup(0x3D).f, Behavior::Unimplemented);
}

#[test]
fn nop_changes_nothing_but_pc_and_clock() {
    let mut cpu = Cpu::new();
    cpu.a = 1;
    cpu.b = 2;
    cpu.sp = 0x1234;
    cpu.f = Flags::carry();
    cpu.pc = 0x10;
    cpu.clock = 0xFFFE;
    let mut mem = Memory::new();
    let before = cpu;
    assert_eq!(cpu.step(&mut mem), Ok(()));
    assert_eq!(cpu.pc, 0x11);
    assert_eq!(cpu.clock, 0x0002);
    assert_eq!(cpu.a, before.a);
    assert_eq!(cpu.b, before.b);
    assert_eq!(cpu.sp, before.sp);
    assert_eq!(cpu.f, before.f);
}

#[test]
fn zero_operand_instruction_advances_pc_by_one() {
    let mut cpu = Cpu::new();
    let mut mem = memory_with(&[0x99, 0x19, 0xF9]);
    for expected in 1u16..=3 {
        assert_eq!(cpu.step(&mut mem), Ok(()));
        assert_eq!(cpu.pc, expected);
    }
}

#[test]
fn end_to_end_load_xor_nop() {
    let mut cpu = Cpu::new();
    let mut mem = memory_with(&[0x3E, 0x05, 0xAF, 0x00]);
    assert_eq!(cpu.run(&mut mem, 3), Ok(()));
    assert_eq!(cpu.a, 0);
    assert_eq!(cpu.f.bits(), ZERO_BIT);
    assert_eq!(cpu.pc, 4);
    let expected = lookup(0x3E).time + lookup(0xAF).time + lookup(0x00).time;
    assert_eq!(cpu.clock, expected);
    assert_eq!(cpu.clock, 12);
}

#[test]
fn clock_sums_base_costs_and_wraps() {
    let mut cpu = Cpu::new();
    cpu.clock = 0xFFF0;
    let mut mem = memory_with(&[0x31, 0x00, 0xD0, 0xEE, 0x01, 0xFE, 0x01, 0x00]);
    assert_eq!(cpu.run(&mut mem, 4), Ok(()));
    assert_eq!(cpu.sp, 0xD000);
    assert_eq!(cpu.clock, (0xFFF0u32 + 12 + 8 + 8 + 4) as u16);
    assert_eq!(cpu.int_clk, 4);
}

#[test]
fn unimplemented_opcode_faults_without_change() {
    let mut cpu = Cpu::new();
    let mut mem = memory_with(&[0x00, 0x3D]);
    let r = cpu.run(&mut mem, 5);
    assert_eq!(r, Err(Fault { opcode: 0x3D, pc: 1 }));
    assert_eq!(cpu.pc, 1);
    assert_eq!(cpu.clock, 4);
}

#[test]
fn rst_opcode_through_step() {
    let mut cpu = Cpu::new();
    cpu.sp = 0xFFFE;
    let mut mem = memory_with(&[0xFF]);
    assert_eq!(cpu.step(&mut mem), Ok(()));
    assert_eq!(cpu.pc, 0x38);
    assert_eq!(cpu.sp, 0xFFFC);
    assert_eq!(mem.rb(0xFFFE), 0x01);
    assert_eq!(mem.rb(0xFFFF), 0x00);
    assert_eq!(cpu.clock, 16);
}

#[test]
fn jr_opcode_offset_from_fallthrough() {
    let mut cpu = Cpu::new();
    cpu.f = Flags::from_bits_truncate(0x70);
    let mut mem = memory_with(&[0x20, 0x10]);
    assert_eq!(cpu.step(&mut mem), Ok(()));
    assert_eq!(cpu.pc, 0x12);
}

#[test]
fn store_opcodes_write_memory() {
    let mut cpu = Cpu::new();
    cpu.a = 0x5A;
    cpu.sp = 0xBEEF;
    let mut mem = memory_with(&[0xE0, 0x40, 0xEA, 0x00, 0xC0, 0x08, 0x10, 0xC0]);
    assert_eq!(cpu.run(&mut mem, 3), Ok(()));
    assert_eq!(mem.rb(0xFF40), 0x5A);
    assert_eq!(mem.rb(0xC000), 0x5A);
    assert_eq!(mem.rw(0xC010), 0xBEEF);
    assert_eq!(cpu.pc, 8);
}

#[test]
fn hl_opcodes() {
    let mut cpu = Cpu::new();
    cpu.a = 0x77;
    cpu.w_hl(0xC000);
    let mut mem = memory_with(&[0x22, 0x23, 0xF9]);
    assert_eq!(cpu.run(&mut mem, 3), Ok(()));
    assert_eq!(mem.rb(0xC000), 0x77);
    assert_eq!(cpu.r_hl(), 0xC002);
    assert_eq!(cpu.sp, 0xC002);
}

#[test]
fn memory_word_wraps_at_top() {
    let mut mem = Memory::new();
    mem.ww(0xFFFF, 0x1234);
    assert_eq!(mem.rb(0xFFFF), 0x34);
    assert_eq!(mem.rb(0x0000), 0x12);
    assert_eq!(mem.rw(0xFFFF), 0x1234);
}
