//! Laws of the instruction set, proved once and for all against the machine
//! model: what a load-immediate program leaves behind, how the transfer and
//! increment instructions treat the flags, and how indexed addressing wraps.

use vstd::prelude::*;

use crate::cpu::AddressingMode;
use crate::flags::lemma_set_zn;
use crate::flags::negative_flag;
use crate::flags::set_zn;
use crate::flags::zero_flag;
use crate::model::lemma_steps_absorb;
use crate::model::loaded_mem;
use crate::model::mem16;
use crate::model::reaches_halt;
use crate::model::reset_state;
use crate::model::resolve_addr;
use crate::model::halts;
use crate::model::step;
use crate::model::steps;
use crate::model::stopped_within;
use crate::model::wrap_add16;
use crate::model::wrap_add8;
use crate::model::CpuState;
use crate::model::Outcome;

verus! {

/// Running the interpreter on a freshly loaded and reset two-instruction
/// program — load-immediate `v`, then halt — takes exactly two steps and
/// stops cleanly, whatever the rest of memory held before the load. This
/// also discharges the termination obligation of `run` for every program of
/// that shape.
pub proof fn lemma_load_immediate_program_halts(mem: Seq<u8>, v: u8)
    requires
        mem.len() == 0x10000,
    ensures
        steps(reset_state(loaded_mem(mem, seq![0xA9u8, v, 0x00u8])), 2) == Outcome::Halted(
            CpuState {
                a: v,
                x: 0,
                y: 0,
                status: set_zn(0, v),
                pc: 0x8003,
                mem: loaded_mem(mem, seq![0xA9u8, v, 0x00u8]),
            },
        ),
        halts(reset_state(loaded_mem(mem, seq![0xA9u8, v, 0x00u8]))),
{
    reveal_with_fuel(steps, 3);
    let program = seq![0xA9u8, v, 0x00u8];
    let image = loaded_mem(mem, program);
    let start = reset_state(image);
    assert(image.len() == 0x10000);
    assert(image[0xFFFC] == 0x00 && image[0xFFFD] == 0x80);
    assert(mem16(image, 0xFFFC) == 0x8000);
    assert(start.pc == 0x8000);
    assert(image[0x8000] == 0xA9 && image[0x8001] == v && image[0x8002] == 0x00);
    let after_load = CpuState { a: v, status: set_zn(0, v), pc: 0x8002, ..start };
    assert(step(start) == Outcome::Running(after_load));
    let stopped = CpuState { pc: 0x8003, ..after_load };
    assert(step(after_load) == Outcome::Halted(stopped));
    assert(steps(start, 2) == Outcome::Halted(stopped));
    assert(stopped_within(start, 2));
}

/// Every program made of a load-immediate instruction with operand `v`
/// followed by the halt opcode leaves the accumulator holding `v`, the Zero
/// flag set exactly when `v` is zero, and the Negative flag set exactly when
/// bit 7 of `v` is set — whatever the rest of memory held before the load.
pub proof fn lemma_load_immediate_then_halt(mem: Seq<u8>, v: u8, halted: CpuState)
    requires
        mem.len() == 0x10000,
        reaches_halt(reset_state(loaded_mem(mem, seq![0xA9u8, v, 0x00u8])), halted),
    ensures
        halted.a == v,
        zero_flag(halted.status) == (v == 0),
        negative_flag(halted.status) == (v & 0x80 != 0),
{
    let start = reset_state(loaded_mem(mem, seq![0xA9u8, v, 0x00u8]));
    lemma_load_immediate_program_halts(mem, v);
    let stopped = CpuState {
        a: v,
        x: 0,
        y: 0,
        status: set_zn(0, v),
        pc: 0x8003,
        mem: loaded_mem(mem, seq![0xA9u8, v, 0x00u8]),
    };
    let n = choose|n: nat| #[trigger] steps(start, n) == Outcome::Halted(halted);
    if n <= 2 {
        lemma_steps_absorb(start, n, 2);
    } else {
        lemma_steps_absorb(start, 2, n);
    }
    assert(halted == stopped);
    lemma_set_zn(0, v);
}

/// The register-to-register transfer from A to X copies the accumulator into
/// X and re-applies the Zero/Negative policy to the copied value: the new
/// flags depend on A's value alone, not on the flags A's own load had set.
pub proof fn lemma_transfer_a_to_x(s: CpuState)
    requires
        s.mem[s.pc as int] == 0xAA,
    ensures
        step(s) == Outcome::Running(
            CpuState {
                x: s.a,
                status: set_zn(s.status, s.a),
                pc: wrap_add16(s.pc, 1),
                ..s
            },
        ),
        zero_flag(set_zn(s.status, s.a)) == (s.a == 0),
        negative_flag(set_zn(s.status, s.a)) == (s.a & 0x80 != 0),
{
    lemma_set_zn(s.status, s.a);
}

/// The increment of X adds exactly one at every value below 0xFF, wraps 0xFF
/// around to 0x00, and runs the Zero/Negative policy on the new value — so
/// the wrap, and only the wrap, sets the Zero flag.
pub proof fn lemma_increment_x(s: CpuState)
    requires
        s.mem[s.pc as int] == 0xE8,
    ensures
        step(s) == Outcome::Running(
            CpuState {
                x: wrap_add8(s.x, 1),
                status: set_zn(s.status, wrap_add8(s.x, 1)),
                pc: wrap_add16(s.pc, 1),
                ..s
            },
        ),
        s.x == 0xFF ==> wrap_add8(s.x, 1) == 0x00 && zero_flag(set_zn(s.status, wrap_add8(s.x, 1))),
        s.x < 0xFF ==> wrap_add8(s.x, 1) == s.x + 1,
{
    lemma_set_zn(s.status, wrap_add8(s.x, 1));
}

/// Zero-page indexed addressing wraps at 8 bits: the operand byte plus the
/// index register is taken modulo 256, so the effective address always stays
/// inside the zero page and never carries into the next page.
pub proof fn lemma_zero_page_indexed_wraps(s: CpuState)
    ensures
        resolve_addr(AddressingMode::ZeroPage_X, s) == (s.mem[s.pc as int] + s.x) % 0x100,
        resolve_addr(AddressingMode::ZeroPage_X, s) < 0x100,
        resolve_addr(AddressingMode::ZeroPage_Y, s) == (s.mem[s.pc as int] + s.y) % 0x100,
        resolve_addr(AddressingMode::ZeroPage_Y, s) < 0x100,
{
}

/// Absolute indexed addressing wraps at 16 bits: the little-endian operand
/// plus the index register is taken modulo 65536, so a base near the top of
/// the space folds back to the bottom instead of leaving the space.
pub proof fn lemma_absolute_indexed_wraps(s: CpuState)
    ensures
        resolve_addr(AddressingMode::Absolute_X, s) == (mem16(s.mem, s.pc) + s.x) % 0x10000,
        resolve_addr(AddressingMode::Absolute_Y, s) == (mem16(s.mem, s.pc) + s.y) % 0x10000,
{
}

} // verus!
