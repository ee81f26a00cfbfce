use vstd::prelude::*;

use crate::cpu::{advanced, le_word, wrap16, CpuView, CPU};
use crate::types::{Byte, ToWord, Word};

verus! {

/// The `k`-th operand byte after the program counter of `s`.
pub open spec fn operand(s: CpuView, k: int) -> u8 {
    s.mem[wrap16(s.pc + k) as int]
}

/// `base + index`, modulo the address space.
pub open spec fn indexed(base: u16, index: u8) -> u16 {
    wrap16(base + index)
}

/// Whether two addresses lie in different 256-byte pages.
pub open spec fn page_crossed(base: u16, target: u16) -> bool {
    base / 256 != target / 256
}

/// The sum of a zero-page byte and an index, wrapped within page zero.
pub open spec fn zero_page_sum(b: u8, index: u8) -> u8 {
    ((b + index) % 256) as u8
}

/// The little-endian word held in page zero at `p` and at the byte after it, which wraps
/// within page zero.
pub open spec fn zero_page_word(s: CpuView, p: u8) -> u16 {
    le_word(s.mem[p as int], s.mem[zero_page_sum(p, 1) as int])
}

/// Zero page: the operand byte is the address.
pub open spec fn zero_page_addr(s: CpuView) -> u16 {
    operand(s, 0) as u16
}

/// Zero Page,X: the operand byte plus X, wrapped within page zero.
pub open spec fn zero_page_x_addr(s: CpuView) -> u16 {
    zero_page_sum(operand(s, 0), s.x) as u16
}

/// Absolute: the two operand bytes, little-endian.
pub open spec fn absolute_addr(s: CpuView) -> u16 {
    le_word(operand(s, 0), operand(s, 1))
}

/// Indirect,X: the zero-page pointer, operand byte plus X wrapped within page zero.
pub open spec fn indirect_x_pointer(s: CpuView) -> u8 {
    zero_page_sum(operand(s, 0), s.x)
}

/// Indirect,X: the word that the zero-page pointer designates.
pub open spec fn indirect_x_addr(s: CpuView) -> u16 {
    zero_page_word(s, indirect_x_pointer(s))
}

/// Indirect,Y: the word in page zero at the operand byte, before Y is added.
pub open spec fn indirect_y_base(s: CpuView) -> u16 {
    zero_page_word(s, operand(s, 0))
}

/// Zero Page,X and Indirect,X never leave page zero, however large the operand byte and X:
/// the effective zero-page address, the pointer and the pointer's successor all stay below 0x100.
pub proof fn lemma_zero_page_indexing_stays_in_page(s: CpuView)
    ensures
        zero_page_x_addr(s) <= 0xFF,
        indirect_x_pointer(s) <= 0xFF,
        zero_page_sum(indirect_x_pointer(s), 1) <= 0xFF,
        zero_page_x_addr(s) == (operand(s, 0) + s.x) % 256,
        indirect_x_pointer(s) == (operand(s, 0) + s.x) % 256,
{
}

proof fn lemma_wrapping_add_u8(a: u8, b: u8)
    ensures
        a.wrapping_add(b) == zero_page_sum(a, b),
{
    if a + b > 255 {
        assert((a + b) % 256 == a + b - 256) by (nonlinear_arith)
            requires
                256 <= a + b < 512,
        ;
    }
}

proof fn lemma_wrapping_add_u16(a: u16, b: u16)
    ensures
        a.wrapping_add(b) == wrap16(a + b),
{
    if a + b > 0xFFFF {
        assert((a + b) % 0x10000 == a + b - 0x10000) by (nonlinear_arith)
            requires
                0x10000 <= a + b < 0x20000,
        ;
    }
}

proof fn lemma_page_bits(base: u16, target: u16)
    ensures
        (base & 0xFF00u16 != target & 0xFF00u16) == page_crossed(base, target),
{
    assert((base & 0xFF00u16 != target & 0xFF00u16) == (base / 256 != target / 256)) by (bit_vector);
}

impl CPU {
    /// Zero Page: consumes one byte and zero-extends it.
    pub fn zero_page_address(&mut self) -> (r: Word)
        requires
            old(self).wf(),
        ensures
            final(self).wf(),
            r == zero_page_addr(old(self)@),
            final(self)@ == advanced(old(self)@, 1),
    {
        self.fetch_byte().to_word()
    }

    /// Zero Page,X: consumes one byte and adds X within page zero.
    pub fn zero_page_x_address(&mut self) -> (r: Word)
        requires
            old(self).wf(),
        ensures
            final(self).wf(),
            r == zero_page_x_addr(old(self)@),
            r <= 0xFF,
            final(self)@ == advanced(old(self)@, 1),
    {
        let base: Byte = self.fetch_byte();
        let index = self.index_x();
        proof {
            lemma_wrapping_add_u8(base, index);
        }
        base.wrapping_add(index).to_word()
    }

    /// Absolute: consumes two bytes, low then high.
    pub fn absolute_address(&mut self) -> (r: Word)
        requires
            old(self).wf(),
        ensures
            final(self).wf(),
            r == absolute_addr(old(self)@),
            final(self)@ == advanced(old(self)@, 2),
    {
        self.fetch_word()
    }

    /// Absolute with an index: consumes two bytes and adds `index`; reports whether the
    /// target lies in another page than the base.
    fn absolute_indexed_address(&mut self, index: Byte) -> (r: (Word, bool))
        requires
            old(self).wf(),
        ensures
            final(self).wf(),
            r.0 == indexed(absolute_addr(old(self)@), index),
            r.1 == page_crossed(absolute_addr(old(self)@), r.0),
            final(self)@ == advanced(old(self)@, 2),
    {
        let base = self.fetch_word();
        let target = base.wrapping_add(index.to_word());
        proof {
            lemma_wrapping_add_u16(base, index as u16);
            lemma_page_bits(base, target);
        }
        (target, base & 0xFF00 != target & 0xFF00)
    }

    /// Absolute,X: the absolute word plus X, and whether that crossed a page.
    pub fn absolute_x_address(&mut self) -> (r: (Word, bool))
        requires
            old(self).wf(),
        ensures
            final(self).wf(),
            r.0 == indexed(absolute_addr(old(self)@), old(self)@.x),
            r.1 == page_crossed(absolute_addr(old(self)@), r.0),
            final(self)@ == advanced(old(self)@, 2),
    {
        let index = self.index_x();
        self.absolute_indexed_address(index)
    }

    /// Absolute,Y: the absolute word plus Y, and whether that crossed a page.
    pub fn absolute_y_address(&mut self) -> (r: (Word, bool))
        requires
            old(self).wf(),
        ensures
            final(self).wf(),
            r.0 == indexed(absolute_addr(old(self)@), old(self)@.y),
            r.1 == page_crossed(absolute_addr(old(self)@), r.0),
            final(self)@ == advanced(old(self)@, 2),
    {
        let index = self.index_y();
        self.absolute_indexed_address(index)
    }

    /// The little-endian word in page zero at `pointer`; the high byte's address wraps
    /// within page zero.
    fn read_zero_page_word(&self, pointer: Byte) -> (r: Word)
        requires
            self.wf(),
        ensures
            r == zero_page_word(self@, pointer),
    {
        proof {
            lemma_wrapping_add_u8(pointer, 1);
        }
        let low = self.read_byte(pointer.to_word()).to_word();
        let high = self.read_byte(pointer.wrapping_add(1).to_word()).to_word();
        assert((high << 8) | low == high * 256 + low) by (bit_vector)
            requires
                high < 256,
                low < 256,
        ;
        (high << 8) | low
    }

    /// Indirect,X: consumes one byte, adds X within page zero, and reads the word there.
    pub fn indirect_x_address(&mut self) -> (r: Word)
        requires
            old(self).wf(),
        ensures
            final(self).wf(),
            r == indirect_x_addr(old(self)@),
            final(self)@ == advanced(old(self)@, 1),
    {
        let base: Byte = self.fetch_byte();
        let index = self.index_x();
        let pointer = base.wrapping_add(index);
        proof {
            lemma_wrapping_add_u8(base, index);
        }
        self.read_zero_page_word(pointer)
    }

    /// Indirect,Y: consumes one byte, reads the word in page zero there and adds Y; reports
    /// whether that crossed a page.
    pub fn indirect_y_address(&mut self) -> (r: (Word, bool))
        requires
            old(self).wf(),
        ensures
            final(self).wf(),
            r.0 == indexed(indirect_y_base(old(self)@), old(self)@.y),
            r.1 == page_crossed(indirect_y_base(old(self)@), r.0),
            final(self)@ == advanced(old(self)@, 1),
    {
        let pointer: Byte = self.fetch_byte();
        let base = self.read_zero_page_word(pointer);
        let index = self.index_y();
        let target = base.wrapping_add(index.to_word());
        proof {
            lemma_wrapping_add_u16(base, index as u16);
            lemma_page_bits(base, target);
        }
        (target, base & 0xFF00 != target & 0xFF00)
    }
}

} // verus!
