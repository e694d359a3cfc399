//! The mathematical model of the machine: a ghost state, the effective-address
//! rules, and a step-indexed interpreter that gives the fetch-decode-execute
//! loop its meaning.

use vstd::prelude::*;

use crate::cpu::AddressingMode;
use crate::flags::set_zn;

verus! {

/// The machine as a mathematical value: the three 8-bit registers, the packed
/// status byte, the 16-bit program counter, and the full 64 KiB memory image.
pub struct CpuState {
    pub a: u8,
    pub x: u8,
    pub y: u8,
    pub status: u8,
    pub pc: u16,
    pub mem: Seq<u8>,
}

/// Where one instruction step leaves the machine: still running, cleanly
/// halted by the halt opcode, or stopped by a decode failure. A failure
/// carries the state as of the last completed instruction, the unknown
/// opcode byte, and the program counter that pointed at it.
pub enum Outcome {
    Running(CpuState),
    Halted(CpuState),
    Failed(CpuState, u8, u16),
}

/// 16-bit addition that wraps modulo 65536.
pub open spec fn wrap_add16(x: u16, y: u16) -> u16 {
    if x + y > 0xFFFF {
        (x + y - 0x10000) as u16
    } else {
        (x + y) as u16
    }
}

/// 8-bit addition that wraps modulo 256.
pub open spec fn wrap_add8(x: u8, y: u8) -> u8 {
    if x + y > 0xFF {
        (x + y - 0x100) as u8
    } else {
        (x + y) as u8
    }
}

/// 8-bit subtraction that wraps modulo 256.
pub open spec fn wrap_sub8(x: u8, y: u8) -> u8 {
    if x - y < 0 {
        (x - y + 0x100) as u8
    } else {
        (x - y) as u8
    }
}

/// The 16-bit value with low byte `lo` and high byte `hi`.
pub open spec fn word(lo: u8, hi: u8) -> u16 {
    (hi as u16 * 0x100 + lo as u16) as u16
}

/// The low byte of a 16-bit value.
pub open spec fn lo8(value: u16) -> u8 {
    (value % 0x100) as u8
}

/// The high byte of a 16-bit value.
pub open spec fn hi8(value: u16) -> u8 {
    (value / 0x100) as u8
}

/// The little-endian 16-bit value stored at `addr`: low byte at `addr`, high
/// byte at the following address, which wraps around the top of the space.
pub open spec fn mem16(mem: Seq<u8>, addr: u16) -> u16 {
    word(mem[addr as int], mem[wrap_add16(addr, 1) as int])
}

/// The effective operand address for `mode` in state `s`, with `s.pc` already
/// pointing at the operand bytes (one past the opcode). `NoneAddressing`
/// never names an address; it is mapped to zero here and every user of this
/// function rules it out.
pub open spec fn resolve_addr(mode: AddressingMode, s: CpuState) -> u16 {
    match mode {
        AddressingMode::Immediate => s.pc,
        AddressingMode::ZeroPage => s.mem[s.pc as int] as u16,
        AddressingMode::ZeroPage_X => wrap_add8(s.mem[s.pc as int], s.x) as u16,
        AddressingMode::ZeroPage_Y => wrap_add8(s.mem[s.pc as int], s.y) as u16,
        AddressingMode::Absolute => mem16(s.mem, s.pc),
        AddressingMode::Absolute_X => wrap_add16(mem16(s.mem, s.pc), s.x as u16),
        AddressingMode::Absolute_Y => wrap_add16(mem16(s.mem, s.pc), s.y as u16),
        AddressingMode::Indirect_X => {
            let ptr = wrap_add8(s.mem[s.pc as int], s.x);
            word(s.mem[ptr as int], s.mem[wrap_add8(ptr, 1) as int])
        },
        AddressingMode::Indirect_Y => {
            let base = s.mem[s.pc as int];
            let deref_base = word(s.mem[base as int], s.mem[wrap_add8(base, 1) as int]);
            wrap_add16(deref_base, s.y as u16)
        },
        AddressingMode::NoneAddressing => 0,
    }
}

/// The state after a load-accumulator instruction whose opcode sits at
/// `s.pc`: the operand address is resolved with the counter advanced past the
/// opcode, the byte there lands in A, the Zero/Negative policy runs on it,
/// and the counter moves past the `width` operand bytes.
pub open spec fn lda_step(s: CpuState, mode: AddressingMode, width: u16) -> CpuState {
    let pc1 = wrap_add16(s.pc, 1);
    let at_operand = CpuState { pc: pc1, ..s };
    let addr = resolve_addr(mode, at_operand);
    let value = s.mem[addr as int];
    CpuState { a: value, status: set_zn(s.status, value), pc: wrap_add16(pc1, width), ..s }
}

/// One turn of the fetch-decode-execute loop from state `s`: fetch the opcode
/// at the program counter, decode it, execute its handler, and advance the
/// counter past the operand bytes. The halt opcode (0x00) stops the machine
/// cleanly with the counter moved past it; a byte with no instruction
/// descriptor stops it abnormally with the state untouched.
pub open spec fn step(s: CpuState) -> Outcome {
    let code = s.mem[s.pc as int];
    let pc1 = wrap_add16(s.pc, 1);
    if code == 0xA9 {
        Outcome::Running(lda_step(s, AddressingMode::Immediate, 1))
    } else if code == 0xA5 {
        Outcome::Running(lda_step(s, AddressingMode::ZeroPage, 1))
    } else if code == 0xAD {
        Outcome::Running(lda_step(s, AddressingMode::Absolute, 2))
    } else if code == 0xAA {
        Outcome::Running(CpuState { x: s.a, status: set_zn(s.status, s.a), pc: pc1, ..s })
    } else if code == 0xC0 {
        // compare Y with the operand: Carry iff Y >= operand, and Zero and
        // Negative from the 8-bit difference through the uniform policy
        let param = s.mem[pc1 as int];
        let diff = wrap_sub8(s.y, param);
        let with_carry = if s.y >= param {
            s.status | 0x01
        } else {
            s.status & 0xFE
        };
        Outcome::Running(
            CpuState { status: set_zn(with_carry, diff), pc: wrap_add16(pc1, 1), ..s },
        )
    } else if code == 0xE8 {
        let incremented = wrap_add8(s.x, 1);
        Outcome::Running(
            CpuState { x: incremented, status: set_zn(s.status, incremented), pc: pc1, ..s },
        )
    } else if code == 0x00 {
        Outcome::Halted(CpuState { pc: pc1, ..s })
    } else {
        Outcome::Failed(s, code, s.pc)
    }
}

/// The machine after `n` turns of the loop from `s`; a halted or failed
/// machine stays halted or failed.
pub open spec fn steps(s: CpuState, n: nat) -> Outcome
    decreases n,
{
    if n == 0 {
        Outcome::Running(s)
    } else {
        match step(s) {
            Outcome::Running(next) => steps(next, (n - 1) as nat),
            stopped => stopped,
        }
    }
}

/// True when the machine started at `s` is no longer running after `n` turns.
pub open spec fn stopped_within(s: CpuState, n: nat) -> bool {
    !(steps(s, n) matches Outcome::Running(_))
}

/// True when the machine started at `s` eventually leaves the run loop, by
/// the halt opcode or by a decode failure.
pub open spec fn halts(s: CpuState) -> bool {
    exists|n: nat| stopped_within(s, n)
}

/// True when the loop started at `s` ends with a clean halt in state `f`.
pub open spec fn reaches_halt(s: CpuState, f: CpuState) -> bool {
    exists|n: nat| #[trigger] steps(s, n) == Outcome::Halted(f)
}

/// True when the loop started at `s` ends with a decode failure in state
/// `f`, on opcode byte `code` fetched from address `pc`.
pub open spec fn reaches_failure(s: CpuState, f: CpuState, code: u8, pc: u16) -> bool {
    exists|n: nat| #[trigger] steps(s, n) == Outcome::Failed(f, code, pc)
}

/// Unrolling the interpreter from the far end: `n + 1` turns are `n` turns
/// followed by one more step of whatever state they reached.
pub proof fn lemma_steps_snoc(s: CpuState, n: nat)
    ensures
        steps(s, n + 1) == (match steps(s, n) {
            Outcome::Running(reached) => step(reached),
            stopped => stopped,
        }),
    decreases n,
{
    reveal_with_fuel(steps, 2);
    if n > 0 {
        match step(s) {
            Outcome::Running(next) => {
                lemma_steps_snoc(next, (n - 1) as nat);
            },
            _ => {},
        }
    }
}

/// A machine that has stopped within `n` turns shows the same outcome at
/// every later turn count.
pub proof fn lemma_steps_absorb(s: CpuState, n: nat, m: nat)
    requires
        n <= m,
        stopped_within(s, n),
    ensures
        steps(s, m) == steps(s, n),
    decreases m,
{
    if n < m {
        match step(s) {
            Outcome::Running(next) => {
                lemma_steps_absorb(next, (n - 1) as nat, (m - 1) as nat);
            },
            _ => {},
        }
    }
}

/// The run loop is deterministic: however many turns it takes to see the
/// machine stop, the stopping outcome — clean halt or decode failure, and
/// the state it carries — is the same.
pub proof fn lemma_stop_unique(s: CpuState, n1: nat, n2: nat)
    requires
        stopped_within(s, n1),
        stopped_within(s, n2),
    ensures
        steps(s, n1) == steps(s, n2),
{
    if n1 <= n2 {
        lemma_steps_absorb(s, n1, n2);
    } else {
        lemma_steps_absorb(s, n2, n1);
    }
}

/// A single start state reaches at most one clean halt state.
pub proof fn lemma_halt_unique(s: CpuState, f1: CpuState, f2: CpuState)
    requires
        reaches_halt(s, f1),
        reaches_halt(s, f2),
    ensures
        f1 == f2,
{
    let n1 = choose|n: nat| #[trigger] steps(s, n) == Outcome::Halted(f1);
    let n2 = choose|n: nat| #[trigger] steps(s, n) == Outcome::Halted(f2);
    lemma_stop_unique(s, n1, n2);
}

/// One productive turn of the run loop, seen from its start: if `n` turns
/// from `init` reach `prev` still running, and one more step takes `prev` to
/// `cur`, then `n + 1` turns reach `cur` — and the loop has not yet used up
/// the `total` turns within which the machine is known to stop.
pub proof fn lemma_run_advance(init: CpuState, n: nat, total: nat, prev: CpuState, cur: CpuState)
    requires
        steps(init, n) == Outcome::Running(prev),
        step(prev) == Outcome::Running(cur),
        stopped_within(init, total),
    ensures
        steps(init, n + 1) == Outcome::Running(cur),
        n + 1 <= total,
{
    lemma_steps_snoc(init, n);
    if n + 1 > total {
        lemma_steps_absorb(init, total, n + 1);
    }
}

/// The memory image after a program is installed: the program bytes occupy
/// the region starting at 0x8000, everything else keeps its old contents,
/// and the reset vector at 0xFFFC/0xFFFD is pointed at 0x8000.
pub open spec fn loaded_mem(mem: Seq<u8>, program: Seq<u8>) -> Seq<u8> {
    let with_program = Seq::new(
        mem.len(),
        |i: int|
            if 0x8000 <= i && i < 0x8000 + program.len() {
                program[i - 0x8000]
            } else {
                mem[i]
            },
    );
    with_program.update(0xFFFC, 0x00).update(0xFFFD, 0x80)
}

/// The machine right after a reset over memory `mem`: registers and status
/// cleared, program counter read from the reset vector.
pub open spec fn reset_state(mem: Seq<u8>) -> CpuState {
    CpuState { a: 0, x: 0, y: 0, status: 0, pc: mem16(mem, 0xFFFC), mem }
}

} // verus!
