use vstd::prelude::*;

verus! {

/// An 8-bit data value.
pub type Byte = u8;

/// A 16-bit address or data word.
pub type Word = u16;

/// Widening of a value to one byte.
pub trait ToByte: Sized {
    spec fn byte_value(self) -> Byte;

    fn to_byte(self) -> (r: Byte)
        ensures
            r == self.byte_value(),
    ;
}

/// Widening of a value to one word.
pub trait ToWord: Sized {
    spec fn word_value(self) -> Word;

    fn to_word(self) -> (r: Word)
        ensures
            r == self.word_value(),
    ;
}

impl ToByte for bool {
    open spec fn byte_value(self) -> Byte {
        if self { 1 } else { 0 }
    }

    fn to_byte(self) -> (r: Byte) {
        if self { 1 } else { 0 }
    }
}

impl ToWord for bool {
    open spec fn word_value(self) -> Word {
        if self { 1 } else { 0 }
    }

    fn to_word(self) -> (r: Word) {
        if self { 1 } else { 0 }
    }
}

impl ToWord for u8 {
    open spec fn word_value(self) -> Word {
        self as Word
    }

    fn to_word(self) -> (r: Word) {
        self as Word
    }
}

} // verus!
