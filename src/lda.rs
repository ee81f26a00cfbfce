use vstd::prelude::*;

use crate::addressing::{
    absolute_addr, indexed, indirect_x_addr, indirect_y_base, operand, page_crossed,
    zero_page_addr, zero_page_x_addr,
};
use crate::cpu::{advanced, loaded, CpuView, CPU};
use crate::types::Byte;

verus! {

/// LDA #$nn: the state after the instruction and its cycle count; `s.pc` is at the operand.
pub open spec fn lda_immediate_outcome(s: CpuView) -> (CpuView, u8) {
    (loaded(advanced(s, 1), operand(s, 0)), 2)
}

/// LDA $nn.
pub open spec fn lda_zero_page_outcome(s: CpuView) -> (CpuView, u8) {
    (loaded(advanced(s, 1), s.mem[zero_page_addr(s) as int]), 3)
}

/// LDA $nn,X.
pub open spec fn lda_zero_page_x_outcome(s: CpuView) -> (CpuView, u8) {
    (loaded(advanced(s, 1), s.mem[zero_page_x_addr(s) as int]), 4)
}

/// LDA $nnnn.
pub open spec fn lda_absolute_outcome(s: CpuView) -> (CpuView, u8) {
    (loaded(advanced(s, 2), s.mem[absolute_addr(s) as int]), 4)
}

/// LDA $nnnn,X: one extra cycle when indexing crosses a page.
pub open spec fn lda_absolute_x_outcome(s: CpuView) -> (CpuView, u8) {
    let target = indexed(absolute_addr(s), s.x);
    (
        loaded(advanced(s, 2), s.mem[target as int]),
        if page_crossed(absolute_addr(s), target) { 5 } else { 4 },
    )
}

/// LDA $nnnn,Y: one extra cycle when indexing crosses a page.
pub open spec fn lda_absolute_y_outcome(s: CpuView) -> (CpuView, u8) {
    let target = indexed(absolute_addr(s), s.y);
    (
        loaded(advanced(s, 2), s.mem[target as int]),
        if page_crossed(absolute_addr(s), target) { 5 } else { 4 },
    )
}

/// LDA ($nn,X): six cycles whatever page the pointer designates.
pub open spec fn lda_indirect_x_outcome(s: CpuView) -> (CpuView, u8) {
    (loaded(advanced(s, 1), s.mem[indirect_x_addr(s) as int]), 6)
}

/// LDA ($nn),Y: one extra cycle when indexing crosses a page.
pub open spec fn lda_indirect_y_outcome(s: CpuView) -> (CpuView, u8) {
    let target = indexed(indirect_y_base(s), s.y);
    (
        loaded(advanced(s, 1), s.mem[target as int]),
        if page_crossed(indirect_y_base(s), target) { 6 } else { 5 },
    )
}

impl CPU {
    /// LDA #$nn: loads the operand byte itself.
    pub fn lda_immediate(&mut self) -> (cycles: Byte)
        requires
            old(self).wf(),
        ensures
            final(self).wf(),
            (final(self)@, cycles) == lda_immediate_outcome(old(self)@),
    {
        let value = self.fetch_byte();
        self.load_accumulator(value);
        2
    }

    /// LDA $nn: loads from page zero.
    pub fn lda_zero_page(&mut self) -> (cycles: Byte)
        requires
            old(self).wf(),
        ensures
            final(self).wf(),
            (final(self)@, cycles) == lda_zero_page_outcome(old(self)@),
    {
        let address = self.zero_page_address();
        let value = self.read_byte(address);
        self.load_accumulator(value);
        3
    }

    /// LDA $nn,X: loads from page zero, indexed by X within the page.
    pub fn lda_zero_page_x(&mut self) -> (cycles: Byte)
        requires
            old(self).wf(),
        ensures
            final(self).wf(),
            (final(self)@, cycles) == lda_zero_page_x_outcome(old(self)@),
    {
        let address = self.zero_page_x_address();
        let value = self.read_byte(address);
        self.load_accumulator(value);
        4
    }

    /// LDA $nnnn: loads from a full address.
    pub fn lda_absolute(&mut self) -> (cycles: Byte)
        requires
            old(self).wf(),
        ensures
            final(self).wf(),
            (final(self)@, cycles) == lda_absolute_outcome(old(self)@),
    {
        let address = self.absolute_address();
        let value = self.read_byte(address);
        self.load_accumulator(value);
        4
    }

    /// LDA $nnnn,X: loads from a full address plus X.
    pub fn lda_absolute_x(&mut self) -> (cycles: Byte)
        requires
            old(self).wf(),
        ensures
            final(self).wf(),
            (final(self)@, cycles) == lda_absolute_x_outcome(old(self)@),
    {
        let (address, crossed) = self.absolute_x_address();
        let value = self.read_byte(address);
        self.load_accumulator(value);
        if crossed {
            5
        } else {
            4
        }
    }

    /// LDA $nnnn,Y: loads from a full address plus Y.
    pub fn lda_absolute_y(&mut self) -> (cycles: Byte)
        requires
            old(self).wf(),
        ensures
            final(self).wf(),
            (final(self)@, cycles) == lda_absolute_y_outcome(old(self)@),
    {
        let (address, crossed) = self.absolute_y_address();
        let value = self.read_byte(address);
        self.load_accumulator(value);
        if crossed {
            5
        } else {
            4
        }
    }

    /// LDA ($nn,X): loads through a pointer in page zero chosen by the operand plus X.
    pub fn lda_indirect_x(&mut self) -> (cycles: Byte)
        requires
            old(self).wf(),
        ensures
            final(self).wf(),
            (final(self)@, cycles) == lda_indirect_x_outcome(old(self)@),
    {
        let address = self.indirect_x_address();
        let value = self.read_byte(address);
        self.load_accumulator(value);
        6
    }

    /// LDA ($nn),Y: loads through a pointer in page zero, plus Y.
    pub fn lda_indirect_y(&mut self) -> (cycles: Byte)
        requires
            old(self).wf(),
        ensures
            final(self).wf(),
            (final(self)@, cycles) == lda_indirect_y_outcome(old(self)@),
    {
        let (address, crossed) = self.indirect_y_address();
        let value = self.read_byte(address);
        self.load_accumulator(value);
        if crossed {
            6
        } else {
            5
        }
    }
}

} // verus!
