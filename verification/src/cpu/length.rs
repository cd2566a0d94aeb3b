//! The disassembler's instruction lengths agree with what the CPU fetches.
use vstd::prelude::*;
use crate::disasm::{instr_len, lemma_disasm_operands};
use crate::memory::CpuBus;
use super::{block0_spec, block1_spec, block2_spec, block3_spec, execute_spec, Cpu};

verus! {

/// Opcodes that may set PC elsewhere than the next instruction: JR, JP,
/// CALL, RET, RETI and RST.
pub open spec fn transfers_control(op: u8) -> bool {
    ||| op == 0x18 || op == 0x20 || op == 0x28 || op == 0x30 || op == 0x38
    ||| op == 0xC0 || op == 0xC8 || op == 0xD0 || op == 0xD8
    ||| op == 0xC2 || op == 0xCA || op == 0xD2 || op == 0xDA || op == 0xC3 || op == 0xE9
    ||| op == 0xC4 || op == 0xCC || op == 0xD4 || op == 0xDC || op == 0xCD
    ||| op == 0xC9 || op == 0xD9
    ||| (op >= 0xC0 && op % 8 == 7)
}

/// The PC `n` bytes on (wrapping).
pub open spec fn pc_plus(pc: u16, n: int) -> u16 {
    ((pc + n) % 0x10000) as u16
}

proof fn lemma_block0_len<S, M: CpuBus<S>>(c: Cpu, m: S, op: u8)
    requires
        op < 0x40,
        !transfers_control(op),
    ensures
        block0_spec::<S, M>(c, m, op).0.regs.pc == pc_plus(c.regs.pc, instr_len(op) - 1),
{
    lemma_disasm_operands(op, 0, 0, 0);
}

proof fn lemma_block12_len<S, M: CpuBus<S>>(c: Cpu, m: S, op: u8)
    requires
        0x40 <= op < 0xC0,
    ensures
        op < 0x80 ==> block1_spec::<S, M>(c, m, op).0.regs.pc == pc_plus(c.regs.pc, instr_len(op) - 1),
        op >= 0x80 ==> block2_spec::<S, M>(c, m, op).0.regs.pc == pc_plus(c.regs.pc, instr_len(op) - 1),
{
    lemma_disasm_operands(op, 0, 0, 0);
}

#[verifier::rlimit(80)]
proof fn lemma_block3_len<S, M: CpuBus<S>>(c: Cpu, m: S, op: u8)
    requires
        op >= 0xC0,
        !transfers_control(op),
    ensures
        block3_spec::<S, M>(c, m, op).0.regs.pc == pc_plus(c.regs.pc, instr_len(op) - 1),
{
    lemma_disasm_operands(op, 0, 0, 0);
}

/// For every opcode that does not transfer control, executing it advances
/// PC past exactly the operand bytes the disassembler counts: the CPU
/// fetches `instr_len(op)` bytes in all (the opcode included).
pub proof fn lemma_fetch_matches_length<S, M: CpuBus<S>>(c: Cpu, m: S, op: u8)
    requires
        !transfers_control(op),
    ensures
        execute_spec::<S, M>(c, m, op).0.regs.pc == pc_plus(c.regs.pc, instr_len(op) - 1),
{
    reveal(execute_spec);
    if op < 0x40 {
        lemma_block0_len::<S, M>(c, m, op);
    } else if op < 0xC0 {
        lemma_block12_len::<S, M>(c, m, op);
    } else {
        lemma_block3_len::<S, M>(c, m, op);
    }
}

} // verus!
