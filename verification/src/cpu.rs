//! The execution engine: the register file, the memory bus, and the
//! fetch-decode-execute loop.

use vstd::prelude::*;

use crate::flags::lemma_set_zn;
use crate::flags::negative_flag;
use crate::flags::set_zn;
use crate::flags::zero_flag;
use crate::model::halts;
use crate::model::hi8;
use crate::model::lo8;
use crate::model::loaded_mem;
use crate::model::mem16;
use crate::model::reaches_failure;
use crate::model::reaches_halt;
use crate::model::reset_state;
use crate::model::resolve_addr;
use crate::model::step;
use crate::model::steps;
use crate::model::stopped_within;
use crate::model::lemma_run_advance;
use crate::model::lemma_steps_snoc;
use crate::model::CpuState;
use crate::model::Outcome;

verus! {

/// How an instruction locates its operand. Zero-page indexed modes wrap at
/// 8 bits (they stay inside the zero page); absolute indexed modes wrap at
/// 16 bits; the indirect modes go through a zero-page pointer whose second
/// byte also wraps within the zero page.
#[derive(Debug)]
#[allow(non_camel_case_types)]
pub enum AddressingMode {
    Immediate,
    ZeroPage,
    ZeroPage_X,
    ZeroPage_Y,
    Absolute,
    Absolute_X,
    Absolute_Y,
    Indirect_X,
    Indirect_Y,
    NoneAddressing,
}

/// Why installing a program image failed: the image is longer than the
/// space between the program-region base and the top of the address space,
/// so copying it would overflow. Carries the offending length.
#[derive(Debug, Clone, Copy, PartialEq, Eq, Structural)]
pub struct LoadError {
    pub program_len: usize,
}

/// An addressing-mode resolution was requested under `NoneAddressing`,
/// which never names an address. This signals a malformed instruction
/// descriptor — a programming error, reported rather than crashed on.
#[derive(Debug, Clone, Copy, PartialEq, Eq, Structural)]
pub struct InvalidAddressingMode;

/// Why a run stopped abnormally: the fetched byte had no instruction
/// descriptor. Carries the opcode byte and the program counter that pointed
/// at it, so the caller can diagnose the fault without the process crashing.
#[derive(Debug, Clone, Copy, PartialEq, Eq, Structural)]
pub struct DecodeError {
    pub opcode: u8,
    pub pc: u16,
}

/// The execution engine: three 8-bit registers, the packed status byte, the
/// 16-bit program counter, and the full 64 KiB address space. The engine is
/// the sole owner and sole mutator of both the register file and the memory.
pub struct CPU {
    pub register_a: u8,
    pub register_x: u8,
    pub register_y: u8,
    pub status: u8,
    pub program_counter: u16,
    pub memory: Vec<u8>,
}

impl View for CPU {
    type V = CpuState;

    open spec fn view(&self) -> CpuState {
        CpuState {
            a: self.register_a,
            x: self.register_x,
            y: self.register_y,
            status: self.status,
            pc: self.program_counter,
            mem: self.memory@,
        }
    }
}

impl CPU {
    /// The memory covers every 16-bit address, 0x0000 through 0xFFFF
    /// inclusive; undersizing it would make the top byte and the high half of
    /// the reset vector unreachable.
    pub open spec fn wf(&self) -> bool {
        self.memory@.len() == 0x10000
    }

    /// A fresh machine: registers, status, and program counter cleared, the
    /// whole address space zero-filled.
    pub fn new() -> (cpu: CPU)
        ensures
            cpu.wf(),
            cpu@.a == 0,
            cpu@.x == 0,
            cpu@.y == 0,
            cpu@.status == 0,
            cpu@.pc == 0,
            forall|i: int| 0 <= i < 0x10000 ==> cpu@.mem[i] == 0,
    {
        let mut memory: Vec<u8> = Vec::new();
        while memory.len() < 0x10000
            invariant
                memory@.len() <= 0x10000,
                forall|i: int| 0 <= i < memory@.len() ==> memory@[i] == 0,
            decreases 0x10000 - memory@.len(),
        {
            memory.push(0);
        }
        CPU { register_a: 0, register_x: 0, register_y: 0, status: 0, program_counter: 0, memory }
    }

    /// Read the byte at `addr`; every 16-bit address is valid.
    pub fn mem_read(&self, addr: u16) -> (value: u8)
        requires
            self.wf(),
        ensures
            value == self@.mem[addr as int],
    {
        self.memory[addr as usize]
    }

    /// Overwrite the byte at `addr`; every 16-bit address is valid.
    pub fn mem_write(&mut self, addr: u16, data: u8)
        requires
            old(self).wf(),
        ensures
            final(self).wf(),
            final(self)@ == (CpuState {
                mem: old(self)@.mem.update(addr as int, data),
                ..old(self)@
            }),
    {
        self.memory[addr as usize] = data;
    }

    /// Read the little-endian 16-bit value at `pos`: low byte at `pos`, high
    /// byte at the following address (wrapping at the top of the space).
    pub fn mem_read_u16(&self, pos: u16) -> (value: u16)
        requires
            self.wf(),
        ensures
            value == mem16(self@.mem, pos),
    {
        let lo = self.mem_read(pos);
        let hi = self.mem_read(pos.wrapping_add(1));
        (hi as u16) * 0x100 + (lo as u16)
    }

    /// Store `data` at `pos` in little-endian order: low byte at `pos`, high
    /// byte at `pos + 1`.
    pub fn mem_write_u16(&mut self, pos: u16, data: u16)
        requires
            old(self).wf(),
            pos < 0xFFFF,
        ensures
            final(self).wf(),
            final(self)@ == (CpuState {
                mem: old(self)@.mem.update(pos as int, lo8(data)).update(
                    pos as int + 1,
                    hi8(data),
                ),
                ..old(self)@
            }),
    {
        let hi = (data >> 8) as u8;
        let lo = (data & 0xFF) as u8;
        proof {
            assert(data >> 8 == data / 0x100 && data & 0xFF == data % 0x100) by (bit_vector);
        }
        self.mem_write(pos, lo);
        self.mem_write(pos + 1, hi);
    }

    /// Install a program image: copy its bytes into the region reserved for
    /// program ROM, starting at 0x8000, and point the reset vector at that
    /// base. An image longer than the space above the base would overflow
    /// the address space; it is rejected, and the machine is left untouched.
    pub fn load(&mut self, program: Vec<u8>) -> (r: Result<(), LoadError>)
        requires
            old(self).wf(),
        ensures
            final(self).wf(),
            (match r {
                Ok(_) => program@.len() <= 0x8000 && final(self)@ == (CpuState {
                    mem: loaded_mem(old(self)@.mem, program@),
                    ..old(self)@
                }),
                Err(e) => program@.len() > 0x8000 && final(self)@ == old(self)@
                    && e.program_len == program@.len(),
            }),
    {
        if program.len() > 0x8000 {
            return Err(LoadError { program_len: program.len() });
        }
        let ghost initial_mem = self@.mem;
        let ghost start = *self;
        let mut i: usize = 0;
        proof {
            assert(self@.mem =~= Seq::new(
                initial_mem.len(),
                |j: int|
                    if 0x8000 <= j && j < 0x8000 + i {
                        program@[j - 0x8000]
                    } else {
                        initial_mem[j]
                    },
            ));
        }
        while i < program.len()
            invariant
                self.wf(),
                i <= program@.len(),
                program@.len() <= 0x8000,
                self@ == (CpuState {
                    mem: Seq::new(
                        initial_mem.len(),
                        |j: int|
                            if 0x8000 <= j && j < 0x8000 + i {
                                program@[j - 0x8000]
                            } else {
                                initial_mem[j]
                            },
                    ),
                    ..start@
                }),
                initial_mem.len() == 0x10000,
            decreases program@.len() - i,
        {
            self.mem_write(0x8000 + (i as u16), program[i]);
            i = i + 1;
            proof {
                assert(self@.mem =~= Seq::new(
                    initial_mem.len(),
                    |j: int|
                        if 0x8000 <= j && j < 0x8000 + i {
                            program@[j - 0x8000]
                        } else {
                            initial_mem[j]
                        },
                ));
            }
        }
        self.mem_write_u16(0xFFFC, 0x8000);
        proof {
            assert(self@.mem =~= loaded_mem(initial_mem, program@));
        }
        Ok(())
    }

    /// Restore the power-on register state: clear A, X, Y, and the status
    /// byte, and fetch the program counter from the reset vector at 0xFFFC.
    pub fn reset(&mut self)
        requires
            old(self).wf(),
        ensures
            final(self).wf(),
            final(self)@ == reset_state(old(self)@.mem),
    {
        self.register_a = 0;
        self.register_x = 0;
        self.register_y = 0;
        self.status = 0;
        self.program_counter = self.mem_read_u16(0xFFFC);
    }

    /// Resolve the effective operand address for `mode`, with the program
    /// counter already pointing at the operand bytes. Register-only
    /// instructions never resolve an address: a request under
    /// `NoneAddressing` means a malformed instruction descriptor and is
    /// reported as an error rather than resolved.
    pub fn get_operand_address(&self, mode: &AddressingMode) -> (r: Result<
        u16,
        InvalidAddressingMode,
    >)
        requires
            self.wf(),
        ensures
            (match r {
                Ok(addr) => !(*mode matches AddressingMode::NoneAddressing) && addr
                    == resolve_addr(*mode, self@),
                Err(_) => *mode matches AddressingMode::NoneAddressing,
            }),
    {
        match mode {
            AddressingMode::Immediate => Ok(self.program_counter),
            AddressingMode::ZeroPage => Ok(self.mem_read(self.program_counter) as u16),
            AddressingMode::Absolute => Ok(self.mem_read_u16(self.program_counter)),
            AddressingMode::ZeroPage_X => {
                let pos = self.mem_read(self.program_counter);
                let addr = pos.wrapping_add(self.register_x) as u16;
                Ok(addr)
            },
            AddressingMode::ZeroPage_Y => {
                let pos = self.mem_read(self.program_counter);
                let addr = pos.wrapping_add(self.register_y) as u16;
                Ok(addr)
            },
            AddressingMode::Absolute_X => {
                let base = self.mem_read_u16(self.program_counter);
                let addr = base.wrapping_add(self.register_x as u16);
                Ok(addr)
            },
            AddressingMode::Absolute_Y => {
                let base = self.mem_read_u16(self.program_counter);
                let addr = base.wrapping_add(self.register_y as u16);
                Ok(addr)
            },
            AddressingMode::Indirect_X => {
                let base = self.mem_read(self.program_counter);
                let ptr: u8 = base.wrapping_add(self.register_x);
                let lo = self.mem_read(ptr as u16);
                let hi = self.mem_read(ptr.wrapping_add(1) as u16);
                Ok((hi as u16) * 0x100 + (lo as u16))
            },
            AddressingMode::Indirect_Y => {
                let base = self.mem_read(self.program_counter);
                let lo = self.mem_read(base as u16);
                let hi = self.mem_read(base.wrapping_add(1) as u16);
                let deref_base = (hi as u16) * 0x100 + (lo as u16);
                let deref = deref_base.wrapping_add(self.register_y as u16);
                Ok(deref)
            },
            AddressingMode::NoneAddressing => Err(InvalidAddressingMode),
        }
    }

    /// Load the accumulator from the operand named by `mode` and run the
    /// Zero/Negative policy on the value.
    fn lda(&mut self, mode: &AddressingMode)
        requires
            old(self).wf(),
            !(*mode matches AddressingMode::NoneAddressing),
        ensures
            final(self).wf(),
            ({
                let value = old(self)@.mem[resolve_addr(*mode, old(self)@) as int];
                final(self)@ == (CpuState {
                    a: value,
                    status: set_zn(old(self)@.status, value),
                    ..old(self)@
                })
            }),
    {
        let addr = match self.get_operand_address(mode) {
            Ok(addr) => addr,
            Err(_) => vstd::pervasive::unreached(),
        };
        let value = self.mem_read(addr);
        self.register_a = value;
        self.update_zero_and_negative_flags(self.register_a);
    }

    /// Copy the accumulator into X and run the Zero/Negative policy on the
    /// copied value: the new flags come from the value alone, whatever Zero
    /// and Negative bits the old status held, and the source register is
    /// left intact.
    fn tax(&mut self)
        ensures
            final(self)@ == (CpuState {
                x: old(self)@.a,
                status: set_zn(old(self)@.status, old(self)@.a),
                ..old(self)@
            }),
            final(self).register_x == old(self).register_a,
            final(self).register_a == old(self).register_a,
            final(self).register_y == old(self).register_y,
            zero_flag(final(self).status) == (old(self).register_a == 0),
            negative_flag(final(self).status) == (old(self).register_a & 0x80 != 0),
            final(self).wf() == old(self).wf(),
    {
        self.register_x = self.register_a;
        self.update_zero_and_negative_flags(self.register_x);
        proof {
            lemma_set_zn(old(self).status, old(self).register_a);
        }
    }

    /// The shared post-state of every instruction documented as "affects
    /// Z/N": set or clear Zero and Negative from the result byte, leaving the
    /// other status bits alone.
    fn update_zero_and_negative_flags(&mut self, result: u8)
        ensures
            final(self)@ == (CpuState { status: set_zn(old(self)@.status, result), ..old(self)@ }),
            final(self).wf() == old(self).wf(),
    {
        if result == 0 {
            self.status = self.status | 0b0000_0010;
        } else {
            self.status = self.status & 0b1111_1101;
        }
        if result & 0b1000_0000 != 0 {
            self.status = self.status | 0b1000_0000;
        } else {
            self.status = self.status & 0b0111_1111;
        }
    }

    /// Drive the fetch-decode-execute loop from the current state until the
    /// halt opcode stops it cleanly (`Ok`) or a byte with no instruction
    /// descriptor stops it abnormally (`Err`, with the opcode and the program
    /// counter at fault; registers, flags, and memory are left as of the last
    /// completed instruction). The outcome is exactly what the step-indexed
    /// interpreter of the model reaches from the starting state.
    #[verifier::loop_isolation(false)]
    pub fn run(&mut self) -> (r: Result<(), DecodeError>)
        requires
            old(self).wf(),
            halts(old(self)@),
        ensures
            final(self).wf(),
            (match r {
                Ok(_) => reaches_halt(old(self)@, final(self)@),
                Err(e) => reaches_failure(old(self)@, final(self)@, e.opcode, e.pc),
            }),
    {
        let ghost init = self@;
        let ghost total: nat = choose|k: nat| stopped_within(init, k);
        let ghost mut n: nat = 0;
        loop
            invariant
                self.wf(),
                steps(init, n) == Outcome::Running(self@),
                stopped_within(init, total),
                n <= total,
            decreases total - n,
        {
            let ghost prev = self@;
            let code = self.mem_read(self.program_counter);
            match code {
                0xA9 => {
                    self.program_counter = self.program_counter.wrapping_add(1);
                    self.lda(&AddressingMode::Immediate);
                    self.program_counter = self.program_counter.wrapping_add(1);
                    proof {
                        assert(step(prev) == Outcome::Running(self@));
                        lemma_run_advance(init, n, total, prev, self@);
                        n = n + 1;
                    }
                },
                0xA5 => {
                    self.program_counter = self.program_counter.wrapping_add(1);
                    self.lda(&AddressingMode::ZeroPage);
                    self.program_counter = self.program_counter.wrapping_add(1);
                    proof {
                        assert(step(prev) == Outcome::Running(self@));
                        lemma_run_advance(init, n, total, prev, self@);
                        n = n + 1;
                    }
                },
                0xAD => {
                    self.program_counter = self.program_counter.wrapping_add(1);
                    self.lda(&AddressingMode::Absolute);
                    self.program_counter = self.program_counter.wrapping_add(2);
                    proof {
                        assert(step(prev) == Outcome::Running(self@));
                        lemma_run_advance(init, n, total, prev, self@);
                        n = n + 1;
                    }
                },
                0xAA => {
                    self.program_counter = self.program_counter.wrapping_add(1);
                    self.tax();
                    proof {
                        assert(step(prev) == Outcome::Running(self@));
                        lemma_run_advance(init, n, total, prev, self@);
                        n = n + 1;
                    }
                },
                0xC0 => {
                    self.program_counter = self.program_counter.wrapping_add(1);
                    let param = self.mem_read(self.program_counter);
                    self.program_counter = self.program_counter.wrapping_add(1);
                    let diff = self.register_y.wrapping_sub(param);
                    if self.register_y >= param {
                        self.set_carry_flag();
                    } else {
                        self.status = self.status & 0b1111_1110;
                    }
                    self.update_zero_and_negative_flags(diff);
                    proof {
                        assert(step(prev) == Outcome::Running(self@));
                        lemma_run_advance(init, n, total, prev, self@);
                        n = n + 1;
                    }
                },
                0xE8 => {
                    self.program_counter = self.program_counter.wrapping_add(1);
                    if self.register_x < 0xFF {
                        self.register_x = self.register_x + 1;
                    } else {
                        self.register_x = 0x00;
                    }
                    let incremented = self.register_x;
                    self.update_zero_and_negative_flags(incremented);
                    proof {
                        assert(step(prev) == Outcome::Running(self@));
                        lemma_run_advance(init, n, total, prev, self@);
                        n = n + 1;
                    }
                },
                0x00 => {
                    self.program_counter = self.program_counter.wrapping_add(1);
                    proof {
                        assert(step(prev) == Outcome::Halted(self@));
                        lemma_steps_snoc(init, n);
                        assert(steps(init, n + 1) == Outcome::Halted(self@));
                    }
                    return Ok(());
                },
                _ => {
                    proof {
                        assert(step(prev) == Outcome::Failed(self@, code, self@.pc));
                        lemma_steps_snoc(init, n);
                        assert(steps(init, n + 1) == Outcome::Failed(
                            self@,
                            code,
                            self@.pc,
                        ));
                    }
                    return Err(DecodeError { opcode: code, pc: self.program_counter });
                },
            }
        }
    }

    /// Install a program image, reset the machine so the program counter
    /// lands on it, and run it to completion.
    pub fn load_and_run(&mut self, program: Vec<u8>) -> (r: Result<(), DecodeError>)
        requires
            old(self).wf(),
            program@.len() <= 0x8000,
            halts(reset_state(loaded_mem(old(self)@.mem, program@))),
        ensures
            final(self).wf(),
            (match r {
                Ok(_) => reaches_halt(
                    reset_state(loaded_mem(old(self)@.mem, program@)),
                    final(self)@,
                ),
                Err(e) => reaches_failure(
                    reset_state(loaded_mem(old(self)@.mem, program@)),
                    final(self)@,
                    e.opcode,
                    e.pc,
                ),
            }),
    {
        match self.load(program) {
            Ok(_) => {},
            Err(_) => {
                return vstd::pervasive::unreached();
            },
        }
        self.reset();
        self.run()
    }

    /// Set the Carry bit of the status register, leaving the rest alone.
    fn set_carry_flag(&mut self)
        ensures
            final(self)@ == (CpuState { status: old(self)@.status | 0x01, ..old(self)@ }),
            final(self).wf() == old(self).wf(),
    {
        self.status = self.status | 0b0000_0001;
    }
}

} // verus!
