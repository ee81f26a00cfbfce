use vstd::prelude::*;

use crate::types::Byte;

verus! {

/// The named condition flags of the status register. Bit 5 is reserved and has no flag.
#[derive(Clone, Copy, Debug, PartialEq, Eq, Structural)]
pub enum StatusRegisterBitFlag {
    C,
    Z,
    I,
    D,
    B,
    V,
    N,
}

impl StatusRegisterBitFlag {
    /// The fixed bit position of each flag: C 0, Z 1, I 2, D 3, B 4, V 6, N 7.
    pub open spec fn bit(self) -> u8 {
        match self {
            StatusRegisterBitFlag::C => 0,
            StatusRegisterBitFlag::Z => 1,
            StatusRegisterBitFlag::I => 2,
            StatusRegisterBitFlag::D => 3,
            StatusRegisterBitFlag::B => 4,
            StatusRegisterBitFlag::V => 6,
            StatusRegisterBitFlag::N => 7,
        }
    }

    /// The bit position of this flag.
    pub fn bit_index(self) -> (r: u8)
        ensures
            r == self.bit(),
    {
        match self {
            StatusRegisterBitFlag::C => 0,
            StatusRegisterBitFlag::Z => 1,
            StatusRegisterBitFlag::I => 2,
            StatusRegisterBitFlag::D => 3,
            StatusRegisterBitFlag::B => 4,
            StatusRegisterBitFlag::V => 6,
            StatusRegisterBitFlag::N => 7,
        }
    }

    /// The flag stored at a bit position; the reserved bit 5 and positions past 7 have none.
    pub fn from_bit(bit: u8) -> (r: Option<StatusRegisterBitFlag>)
        ensures
            r matches Some(f) ==> f.bit() == bit,
            r is None <==> (bit == 5 || bit > 7),
    {
        match bit {
            0 => Some(StatusRegisterBitFlag::C),
            1 => Some(StatusRegisterBitFlag::Z),
            2 => Some(StatusRegisterBitFlag::I),
            3 => Some(StatusRegisterBitFlag::D),
            4 => Some(StatusRegisterBitFlag::B),
            6 => Some(StatusRegisterBitFlag::V),
            7 => Some(StatusRegisterBitFlag::N),
            _ => None,
        }
    }
}

impl From<StatusRegisterBitFlag> for u8 {
    fn from(flag: StatusRegisterBitFlag) -> (r: u8) {
        flag.bit_index()
    }
}

impl vstd::std_specs::convert::FromSpecImpl<StatusRegisterBitFlag> for u8 {
    open spec fn obeys_from_spec() -> bool {
        true
    }

    open spec fn from_spec(flag: StatusRegisterBitFlag) -> u8 {
        flag.bit()
    }
}

/// Whether bit `i` of `b` is set.
pub open spec fn bit_set(b: u8, i: u8) -> bool {
    (b >> i) & 1u8 == 1u8
}

/// `b` with bit `i` set to `value` and every other bit kept.
pub open spec fn with_bit(b: u8, i: u8, value: bool) -> u8 {
    if value {
        b | (1u8 << i)
    } else {
        b & !(1u8 << i)
    }
}

/// Setting one bit changes that bit alone.
pub proof fn lemma_with_bit(b: u8, i: u8, value: bool)
    requires
        i < 8,
    ensures
        bit_set(with_bit(b, i, value), i) == value,
        forall|j: u8| j < 8 && j != i ==> bit_set(#[trigger] with_bit(b, i, value), j) == bit_set(b, j),
{
    if value {
        assert(bit_set(b | (1u8 << i), i)) by (bit_vector)
            requires
                i < 8,
        ;
        assert forall|j: u8| j < 8 && j != i implies bit_set(b | (1u8 << i), j) == bit_set(b, j) by {
            assert(bit_set(b | (1u8 << i), j) == bit_set(b, j)) by (bit_vector)
                requires
                    i < 8,
                    j < 8,
                    j != i,
            ;
        }
    } else {
        assert(!bit_set(b & !(1u8 << i), i)) by (bit_vector)
            requires
                i < 8,
        ;
        assert forall|j: u8| j < 8 && j != i implies bit_set(b & !(1u8 << i), j) == bit_set(b, j) by {
            assert(bit_set(b & !(1u8 << i), j) == bit_set(b, j)) by (bit_vector)
                requires
                    i < 8,
                    j < 8,
                    j != i,
            ;
        }
    }
}

/// The 8-bit processor status register: seven named flags at fixed bit positions.
pub struct StatusRegister {
    data: Byte,
}

impl View for StatusRegister {
    type V = u8;

    closed spec fn view(&self) -> u8 {
        self.data
    }
}

impl StatusRegister {
    /// Whether `flag` is set in the register value `s`.
    pub open spec fn flag(s: u8, flag: StatusRegisterBitFlag) -> bool {
        bit_set(s, flag.bit())
    }

    /// A register with every bit clear.
    pub fn new() -> (r: StatusRegister)
        ensures
            r@ == 0,
    {
        StatusRegister { data: 0 }
    }

    /// A register holding the raw byte `bits`.
    pub fn from_byte(bits: Byte) -> (r: StatusRegister)
        ensures
            r@ == bits,
    {
        StatusRegister { data: bits }
    }

    /// The raw byte of the register.
    pub fn bits(&self) -> (r: Byte)
        ensures
            r == self@,
    {
        self.data
    }

    /// Sets or clears exactly the bit of `bit`, leaving every other bit untouched.
    pub fn set_val(&mut self, bit: StatusRegisterBitFlag, value: bool)
        ensures
            final(self)@ == with_bit(old(self)@, bit.bit(), value),
            StatusRegister::flag(final(self)@, bit) == value,
            forall|j: u8| j < 8 && j != bit.bit() ==> bit_set(final(self)@, j) == bit_set(old(self)@, j),
    {
        let shift = bit.bit_index();
        proof {
            lemma_with_bit(self.data, shift, value);
        }
        if value {
            self.data = self.data | (1u8 << shift);
        } else {
            self.data = self.data & !(1u8 << shift);
        }
    }

    /// Whether the flag `bit` is set.
    pub fn get_val(&self, bit: StatusRegisterBitFlag) -> (r: bool)
        ensures
            r == StatusRegister::flag(self@, bit),
    {
        let shift = bit.bit_index();
        (self.data >> shift) & 1u8 == 1u8
    }

    /// Zeroes the whole register, the reserved bit included.
    pub fn clear(&mut self)
        ensures
            final(self)@ == 0,
    {
        self.data = 0;
    }
}

/// A cleared register has no flag set.
pub proof fn lemma_zero_has_no_flags(flag: StatusRegisterBitFlag)
    ensures
        !StatusRegister::flag(0, flag),
{
    let i = flag.bit();
    assert(!bit_set(0u8, i)) by (bit_vector);
}

} // verus!
