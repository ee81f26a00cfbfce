use vstd::prelude::*;

use crate::lda::{
    lda_absolute_outcome, lda_absolute_x_outcome, lda_absolute_y_outcome,
    lda_immediate_outcome, lda_indirect_x_outcome, lda_indirect_y_outcome,
    lda_zero_page_outcome, lda_zero_page_x_outcome,
};
use crate::memory::{Memory, MEMORY_SIZE};
use crate::status::{lemma_with_bit, lemma_zero_has_no_flags, with_bit, StatusRegister, StatusRegisterBitFlag};
use crate::types::{Byte, ToWord, Word};

verus! {

/// Address of the low byte of the reset vector; the high byte follows it.
pub const RESET_VECTOR: u16 = 0xFFFC;

/// Power-on value of the stack pointer.
pub const STACK_POINTER_INIT: u8 = 0xFF;

/// The abstract state of the processor: its registers and the contents of its memory.
pub struct CpuView {
    pub acc: u8,
    pub x: u8,
    pub y: u8,
    pub pc: u16,
    pub sp: u8,
    pub status: u8,
    pub mem: Seq<u8>,
}

/// `a` taken modulo the 64 KiB address space.
pub open spec fn wrap16(a: int) -> u16 {
    (a % 0x10000) as u16
}

/// The word whose low byte is `lo` and high byte is `hi`.
pub open spec fn le_word(lo: u8, hi: u8) -> u16 {
    (hi as int * 256 + lo as int) as u16
}

/// The byte at `address` in `s`'s memory.
pub open spec fn byte_at(s: CpuView, address: int) -> u8 {
    s.mem[address]
}

/// The little-endian word at `address` and the byte after it, modulo the address space.
pub open spec fn word_at(s: CpuView, address: u16) -> u16 {
    le_word(s.mem[address as int], s.mem[wrap16(address + 1) as int])
}

/// `s` after the program counter moved on by `n` bytes.
pub open spec fn advanced(s: CpuView, n: int) -> CpuView {
    CpuView { pc: wrap16(s.pc + n), ..s }
}

/// `status` after a load of `value`: Zero set iff the value is zero, Negative set iff its
/// bit 7 is set, every other bit kept.
pub open spec fn with_zn(status: u8, value: u8) -> u8 {
    with_bit(with_bit(status, StatusRegisterBitFlag::Z.bit(), value == 0), StatusRegisterBitFlag::N.bit(), value >= 0x80)
}

/// `s` after `value` was loaded into the accumulator.
pub open spec fn loaded(s: CpuView, value: u8) -> CpuView {
    CpuView { acc: value, status: with_zn(s.status, value), ..s }
}

/// A load sets Zero exactly when the value is zero and Negative exactly when its bit 7 is
/// set, and leaves the other flags as they were.
pub proof fn lemma_load_flags(status: u8, value: u8)
    ensures
        StatusRegister::flag(with_zn(status, value), StatusRegisterBitFlag::Z) == (value == 0),
        StatusRegister::flag(with_zn(status, value), StatusRegisterBitFlag::N) == (value >= 0x80),
        forall|f: StatusRegisterBitFlag|
            f != StatusRegisterBitFlag::Z && f != StatusRegisterBitFlag::N ==> StatusRegister::flag(
                #[trigger] with_zn(status, value),
                f,
            ) == StatusRegister::flag(status, f),
{
    let once = with_bit(status, 1, value == 0);
    lemma_with_bit(status, 1, value == 0);
    lemma_with_bit(once, 7, value >= 0x80);
}

/// The state that `reset` leaves: registers zeroed, flags clear, stack pointer at its
/// power-on value and the program counter taken from the reset vector.
pub open spec fn reset_state(s: CpuView) -> CpuView {
    CpuView {
        acc: 0,
        x: 0,
        y: 0,
        pc: word_at(s, RESET_VECTOR),
        sp: STACK_POINTER_INIT,
        status: 0,
        mem: s.mem,
    }
}

/// Why the engine stopped: a fatal condition, after which execution must not go on.
#[derive(Clone, Copy, Debug, PartialEq, Eq, Structural)]
pub enum CpuError {
    /// No instruction is registered for `opcode`, fetched at `address`.
    UnknownOpcode { opcode: u8, address: u16 },
}

/// An instruction's outcome as the outcome of a step.
pub open spec fn completed(o: (CpuView, u8)) -> (CpuView, Result<u8, CpuError>) {
    (o.0, Ok(o.1))
}

/// One fetch-decode-execute step from `s`: the state after it and the cycles consumed, or
/// the fatal error with the state left after the opcode fetch.
pub open spec fn step_outcome(s: CpuView) -> (CpuView, Result<u8, CpuError>) {
    let opcode = s.mem[s.pc as int];
    let t = advanced(s, 1);
    match opcode {
        0xA9 => completed(lda_immediate_outcome(t)),
        0xA5 => completed(lda_zero_page_outcome(t)),
        0xB5 => completed(lda_zero_page_x_outcome(t)),
        0xAD => completed(lda_absolute_outcome(t)),
        0xBD => completed(lda_absolute_x_outcome(t)),
        0xB9 => completed(lda_absolute_y_outcome(t)),
        0xA1 => completed(lda_indirect_x_outcome(t)),
        0xB1 => completed(lda_indirect_y_outcome(t)),
        _ => (t, Err(CpuError::UnknownOpcode { opcode, address: s.pc })),
    }
}

/// Whatever the addressing mode, a completed load leaves Zero set exactly when the loaded
/// value is zero and Negative set exactly when its bit 7 is set.
pub proof fn lemma_step_load_flags(s: CpuView)
    requires
        step_outcome(s).1 is Ok,
    ensures
        StatusRegister::flag(step_outcome(s).0.status, StatusRegisterBitFlag::Z) == (
        step_outcome(s).0.acc == 0),
        StatusRegister::flag(step_outcome(s).0.status, StatusRegisterBitFlag::N) == (
        step_outcome(s).0.acc >= 0x80),
{
    lemma_load_flags(s.status, step_outcome(s).0.acc);
}

/// An unknown opcode stops the step with every register and the memory as they were, but for
/// the program counter, which has moved past the opcode.
pub proof fn lemma_unknown_opcode_changes_only_pc(s: CpuView)
    requires
        step_outcome(s).1 is Err,
    ensures
        step_outcome(s).0 == advanced(s, 1),
        step_outcome(s).1 == Err::<u8, CpuError>(
            CpuError::UnknownOpcode { opcode: s.mem[s.pc as int], address: s.pc },
        ),
{
}

/// The one-line summary of the stack pointer, program counter, data registers and status
/// byte, as std's formatting writes it.
pub uninterp spec fn context_line(sp: u8, pc: u16, acc: u8, x: u8, y: u8, status: u8) -> Seq<char>;

/// Relies on std's `format!`: writes the six values in decimal after their labels; the text
/// depends on the values alone.
#[verifier::external_body]
fn format_context(sp: u8, pc: u16, acc: u8, x: u8, y: u8, status: u8) -> (r: String)
    ensures
        r@ == context_line(sp, pc, acc, x, y, status),
{
    format!("SP={}, PC={}, REG_A={}, REG_X={}, REG_Y={}, STATUS_REG={}", sp, pc, acc, x, y, status)
}

/// The execution engine: register file, status register and the memory it owns.
pub struct CPU {
    pub(crate) status_reg: StatusRegister,
    pub(crate) acc: Byte,
    pub(crate) x_reg: Byte,
    pub(crate) y_reg: Byte,
    pub(crate) program_counter: Word,
    pub(crate) stack_ptr: Byte,
    pub(crate) memory: Memory,
}

impl View for CPU {
    type V = CpuView;

    closed spec fn view(&self) -> CpuView {
        CpuView {
            acc: self.acc,
            x: self.x_reg,
            y: self.y_reg,
            pc: self.program_counter,
            sp: self.stack_ptr,
            status: self.status_reg@,
            mem: self.memory@,
        }
    }
}

impl CPU {
    /// The memory spans the whole address space.
    pub open spec fn wf(&self) -> bool {
        self@.mem.len() == MEMORY_SIZE
    }

    /// A processor with every register zero over a zero-filled memory.
    pub fn new() -> (r: CPU)
        ensures
            r.wf(),
            r@.acc == 0 && r@.x == 0 && r@.y == 0 && r@.pc == 0 && r@.sp == 0 && r@.status == 0,
            forall|i: int| 0 <= i < MEMORY_SIZE ==> #[trigger] r@.mem[i] == 0,
    {
        CPU::with_memory(Memory::new())
    }

    /// A processor with every register zero over the given memory.
    pub fn with_memory(memory: Memory) -> (r: CPU)
        requires
            memory.wf(),
        ensures
            r.wf(),
            r@ == (CpuView { acc: 0, x: 0, y: 0, pc: 0, sp: 0, status: 0, mem: memory@ }),
    {
        CPU {
            program_counter: 0x0000,
            stack_ptr: 0x00,
            acc: 0x00,
            x_reg: 0x00,
            y_reg: 0x00,
            status_reg: StatusRegister::new(),
            memory,
        }
    }

    /// Sets the program counter to the reset vector's word, the stack pointer to its
    /// power-on value, and clears the flags and the data registers.
    pub fn reset(&mut self)
        requires
            old(self).wf(),
        ensures
            final(self).wf(),
            final(self)@ == reset_state(old(self)@),
            forall|f: StatusRegisterBitFlag| !StatusRegister::flag(#[trigger] final(self)@.status, f),
    {
        self.program_counter = self.read_word(RESET_VECTOR);
        self.stack_ptr = STACK_POINTER_INIT;
        self.status_reg.clear();
        self.acc = 0x00;
        self.x_reg = 0x00;
        self.y_reg = 0x00;
        assert forall|f: StatusRegisterBitFlag| !StatusRegister::flag(self.status_reg@, f) by {
            lemma_zero_has_no_flags(f);
        }
    }

    /// Runs one instruction: fetches the opcode at the program counter, dispatches it and
    /// returns the cycles it consumed. An unknown opcode is fatal: it is reported with the
    /// registers left as the opcode fetch left them.
    pub fn execute_loop(&mut self) -> (r: Result<Byte, CpuError>)
        requires
            old(self).wf(),
        ensures
            final(self).wf(),
            (final(self)@, r) == step_outcome(old(self)@),
    {
        let address = self.program_counter;
        let opcode = self.fetch_byte();
        match opcode {
            0xA9 => Ok(self.lda_immediate()),
            0xA5 => Ok(self.lda_zero_page()),
            0xB5 => Ok(self.lda_zero_page_x()),
            0xAD => Ok(self.lda_absolute()),
            0xBD => Ok(self.lda_absolute_x()),
            0xB9 => Ok(self.lda_absolute_y()),
            0xA1 => Ok(self.lda_indirect_x()),
            0xB1 => Ok(self.lda_indirect_y()),
            _ => Err(CpuError::UnknownOpcode { opcode, address }),
        }
    }

    /// Reads the byte at the program counter and moves the counter on by one.
    pub fn fetch_byte(&mut self) -> (r: Byte)
        requires
            old(self).wf(),
        ensures
            final(self).wf(),
            r == byte_at(old(self)@, old(self)@.pc as int),
            final(self)@ == advanced(old(self)@, 1),
    {
        let value = self.read_byte(self.program_counter);
        self.program_counter = self.program_counter.wrapping_add(1);
        value
    }

    /// Reads the little-endian word at the program counter and moves the counter on by two.
    pub fn fetch_word(&mut self) -> (r: Word)
        requires
            old(self).wf(),
        ensures
            final(self).wf(),
            r == le_word(
                byte_at(old(self)@, old(self)@.pc as int),
                byte_at(old(self)@, wrap16(old(self)@.pc + 1) as int),
            ),
            final(self)@ == advanced(old(self)@, 2),
    {
        let low_byte = self.fetch_byte().to_word();
        let high_byte = self.fetch_byte().to_word();
        assert((high_byte << 8) | low_byte == high_byte * 256 + low_byte) by (bit_vector)
            requires
                high_byte < 256,
                low_byte < 256,
        ;
        (high_byte << 8) | low_byte
    }

    /// The byte at `addr`.
    pub fn read_byte(&self, addr: Word) -> (r: Byte)
        requires
            self.wf(),
        ensures
            r == byte_at(self@, addr as int),
    {
        match self.memory.read(addr) {
            Ok(value) => value,
            Err(_) => {
                // every 16-bit address lies inside a well-formed memory
                proof {
                    assert(false);
                }
                0
            },
        }
    }

    /// The little-endian word at `addr`; the high byte's address wraps past the top of memory.
    pub fn read_word(&self, addr: Word) -> (r: Word)
        requires
            self.wf(),
        ensures
            r == word_at(self@, addr),
    {
        let low_byte = self.read_byte(addr).to_word();
        let high_byte = self.read_byte(addr.wrapping_add(1)).to_word();
        assert((high_byte << 8) | low_byte == high_byte * 256 + low_byte) by (bit_vector)
            requires
                high_byte < 256,
                low_byte < 256,
        ;
        (high_byte << 8) | low_byte
    }

    /// Stores `value` in the accumulator and sets Zero and Negative from it.
    pub fn load_accumulator(&mut self, value: Byte)
        requires
            old(self).wf(),
        ensures
            final(self).wf(),
            final(self)@ == loaded(old(self)@, value),
    {
        self.acc = value;
        self.status_reg.set_val(StatusRegisterBitFlag::Z, value == 0x00);
        self.status_reg.set_val(StatusRegisterBitFlag::N, (value & 0x80) != 0);
        assert(((value & 0x80) != 0) == (value >= 0x80)) by (bit_vector);
    }

    /// A one-line summary of the registers, for diagnostics.
    pub fn get_ctx(&self) -> (r: String)
        ensures
            r@ == context_line(self@.sp, self@.pc, self@.acc, self@.x, self@.y, self@.status),
    {
        format_context(
            self.stack_ptr,
            self.program_counter,
            self.acc,
            self.x_reg,
            self.y_reg,
            self.status_reg.bits(),
        )
    }

    /// The accumulator.
    pub fn accumulator(&self) -> (r: Byte)
        ensures
            r == self@.acc,
    {
        self.acc
    }

    /// The X index register.
    pub fn index_x(&self) -> (r: Byte)
        ensures
            r == self@.x,
    {
        self.x_reg
    }

    /// The Y index register.
    pub fn index_y(&self) -> (r: Byte)
        ensures
            r == self@.y,
    {
        self.y_reg
    }

    /// The program counter.
    pub fn program_counter(&self) -> (r: Word)
        ensures
            r == self@.pc,
    {
        self.program_counter
    }

    /// The stack pointer.
    pub fn stack_pointer(&self) -> (r: Byte)
        ensures
            r == self@.sp,
    {
        self.stack_ptr
    }

    /// The status register.
    pub fn status(&self) -> (r: &StatusRegister)
        ensures
            r@ == self@.status,
    {
        &self.status_reg
    }

    /// The memory.
    pub fn memory(&self) -> (r: &Memory)
        ensures
            r@ == self@.mem,
    {
        &self.memory
    }

    /// Sets the X index register.
    pub fn set_index_x(&mut self, value: Byte)
        ensures
            final(self)@ == (CpuView { x: value, ..old(self)@ }),
    {
        self.x_reg = value;
    }

    /// Sets the Y index register.
    pub fn set_index_y(&mut self, value: Byte)
        ensures
            final(self)@ == (CpuView { y: value, ..old(self)@ }),
    {
        self.y_reg = value;
    }

    /// Sets the program counter.
    pub fn set_program_counter(&mut self, value: Word)
        ensures
            final(self)@ == (CpuView { pc: value, ..old(self)@ }),
    {
        self.program_counter = value;
    }
}

} // verus!
