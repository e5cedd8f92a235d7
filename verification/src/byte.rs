//! A byte that knows whether it is to be read as a signed number.
//!
//! A signed byte holds a number that is not negative as itself, from 0 to 127,
//! and a negative number by its distance from zero: 128 stands for -1 and 255
//! for -128.

use vstd::prelude::*;
use vstd::std_specs::convert::FromSpecImpl;
use vstd::std_specs::ops::{AddSpecImpl, BitAndSpecImpl};

verus! {

/// A set of the bits of a byte.
#[derive(Debug, Clone, Copy, PartialEq, Eq, Structural)]
pub struct Bit {
    pub bits: u8,
}

impl Bit {
    pub const B0: u8 = 1;

    pub const B1: u8 = 2;

    pub const B2: u8 = 4;

    pub const B3: u8 = 8;

    pub const B4: u8 = 16;

    pub const B5: u8 = 32;

    pub const B6: u8 = 64;

    pub const B7: u8 = 128;

    /// The set that holds no bit.
    pub fn empty() -> (r: Self)
        ensures
            r.bits == 0,
    {
        Bit { bits: 0 }
    }

    /// The set that holds exactly the bits that are set in `bits`. Every bit of
    /// a byte can be held, so there is always such a set.
    pub fn from_bits(bits: u8) -> (r: Option<Self>)
        ensures
            r == Some(Bit { bits }),
    {
        Some(Bit { bits })
    }

    /// The bits of the set, as a byte.
    pub fn bits(&self) -> (r: u8)
        ensures
            r == self.bits,
    {
        self.bits
    }

    /// Whether the set holds every bit of `other`.
    pub fn contains(&self, other: Bit) -> (r: bool)
        ensures
            r == (self.bits & other.bits == other.bits),
    {
        self.bits & other.bits == other.bits
    }

    /// The set with the bits of `other` held, where `value` holds, or not held.
    pub fn set(&mut self, other: Bit, value: bool)
        ensures
            final(self).bits == (if value {
                old(self).bits | other.bits
            } else {
                old(self).bits & !other.bits
            }),
    {
        if value {
            self.bits = self.bits | other.bits;
        } else {
            self.bits = self.bits & !other.bits;
        }
    }
}

/// The number that a signed byte holding `value` stands for.
pub open spec fn signed_number(value: u8) -> int {
    if value > 127 {
        127 - value
    } else {
        value as int
    }
}

/// What a signed byte holds to stand for `number`.
pub open spec fn signed_encoding(number: i8) -> u8 {
    if number < 0 {
        (127 - number) as u8
    } else {
        number as u8
    }
}

/// A signed byte that is made from a number stands for that number.
pub proof fn lemma_signed_round_trip(number: i8)
    ensures
        signed_number(signed_encoding(number)) == number,
{
}

/// A byte, together with whether it is to be read as a signed number.
#[derive(Debug, Clone, Copy, PartialEq, Eq, Structural, Hash, PartialOrd, Ord)]
pub struct Byte {
    pub value: u8,
    pub signed: bool,
}

impl From<u8> for Byte {
    /// The unsigned byte that holds `val`.
    fn from(val: u8) -> (r: Self) {
        Byte::new(val, false)
    }
}

impl FromSpecImpl<u8> for Byte {
    open spec fn obeys_from_spec() -> bool {
        true
    }

    open spec fn from_spec(val: u8) -> Self {
        Byte { value: val, signed: false }
    }
}

impl From<i8> for Byte {
    /// The signed byte that stands for `val`.
    fn from(val: i8) -> (r: Self) {
        let byte: u8 = if val < 0 {
            (127 - val as i16) as u8
        } else {
            val as u8
        };
        Byte::new(byte, true)
    }
}

impl FromSpecImpl<i8> for Byte {
    open spec fn obeys_from_spec() -> bool {
        true
    }

    open spec fn from_spec(val: i8) -> Self {
        Byte { value: signed_encoding(val), signed: true }
    }
}

impl Byte {
    /// Whether a sum with this byte on one side and `rhs` on the other is
    /// taken over the numbers that the two stand for as signed bytes: one of
    /// them is signed and one of them holds more than 127.
    pub open spec fn adds_signed(self, rhs: Byte) -> bool {
        (self.signed || rhs.signed) && (self.value > 127 || rhs.value > 127)
    }

    /// Whether the sum of this byte and `rhs` can be held: a signed sum lies
    /// between -128 and 127, an unsigned sum is at most 255.
    pub open spec fn sum_fits(self, rhs: Byte) -> bool {
        if self.adds_signed(rhs) {
            -128 <= signed_number(self.value) + signed_number(rhs.value) <= 127
        } else {
            self.value + rhs.value <= 255
        }
    }

    /// The sum of this byte and `rhs`: where the sum is taken over signed
    /// numbers, the signed byte that stands for it; otherwise the unsigned byte
    /// that holds the sum of the two values.
    pub open spec fn sum(self, rhs: Byte) -> Byte {
        if self.adds_signed(rhs) {
            Byte {
                value: signed_encoding(
                    (signed_number(self.value) + signed_number(rhs.value)) as i8,
                ),
                signed: true,
            }
        } else {
            Byte { value: (self.value + rhs.value) as u8, signed: false }
        }
    }

    /// The byte that holds `val`, signed or not.
    pub fn new(val: u8, signed: bool) -> (r: Self)
        ensures
            r == (Byte { value: val, signed }),
    {
        Byte { value: val, signed }
    }

    /// The unsigned byte that holds zero.
    pub fn empty() -> (r: Self)
        ensures
            r == (Byte { value: 0, signed: false }),
    {
        Byte { value: 0, signed: false }
    }

    /// The signed byte that holds zero.
    pub fn empty_signed() -> (r: Self)
        ensures
            r == (Byte { value: 0, signed: true }),
    {
        Byte { value: 0, signed: true }
    }

    /// Whether the byte is to be read as a signed number.
    pub fn is_signed(&self) -> (r: bool)
        ensures
            r == self.signed,
    {
        self.signed
    }

    /// The number that the byte stands for when it is read as a signed byte.
    pub fn to_signed(&self) -> (r: i8)
        ensures
            r == signed_number(self.value),
    {
        if self.value > 127 {
            (127 - self.value as i16) as i8
        } else {
            self.value as i8
        }
    }

    /// What the byte holds.
    pub fn get_value(&self) -> (r: u8)
        ensures
            r == self.value,
    {
        self.value
    }

    /// Lets the byte hold `val`; whether it is signed stays.
    pub fn set_value(&mut self, val: u8)
        ensures
            *final(self) == (Byte { value: val, ..*old(self) }),
    {
        self.value = val;
    }

    /// Sets the bits of `bit`.
    pub fn insert_bit(&mut self, bit: Bit)
        ensures
            *final(self) == (Byte { value: old(self).value | bit.bits, ..*old(self) }),
    {
        self.value = self.value | bit.bits;
    }

    /// Clears the bits of `bit`.
    pub fn remove_bit(&mut self, bit: Bit)
        ensures
            *final(self) == (Byte { value: old(self).value & !bit.bits, ..*old(self) }),
    {
        self.value = self.value & !bit.bits;
    }

    /// Inverts the bits of `bit`.
    pub fn toggle_bit(&mut self, bit: Bit)
        ensures
            *final(self) == (Byte { value: old(self).value ^ bit.bits, ..*old(self) }),
    {
        self.value = self.value ^ bit.bits;
    }

    /// Sets the bits of `bit` where `value` holds, and clears them otherwise.
    pub fn set_bit(&mut self, bit: Bit, value: bool)
        ensures
            *final(self) == (Byte {
                value: if value {
                    old(self).value | bit.bits
                } else {
                    old(self).value & !bit.bits
                },
                ..*old(self)
            }),
    {
        if value {
            self.insert_bit(bit);
        } else {
            self.remove_bit(bit);
        }
    }
}

impl core::ops::Add<Byte> for Byte {
    type Output = Byte;

    fn add(self, rhs: Byte) -> (r: Byte) {
        if (self.signed || rhs.signed) && (self.value > 127 || rhs.value > 127) {
            Byte::from(self.to_signed() + rhs.to_signed())
        } else {
            Byte::from(self.value + rhs.value)
        }
    }
}

impl AddSpecImpl<Byte> for Byte {
    open spec fn obeys_add_spec() -> bool {
        true
    }

    open spec fn add_req(self, rhs: Byte) -> bool {
        self.sum_fits(rhs)
    }

    open spec fn add_spec(self, rhs: Byte) -> Byte {
        self.sum(rhs)
    }
}

impl core::ops::Add<u8> for Byte {
    type Output = Byte;

    fn add(self, rhs: u8) -> (r: Byte) {
        self + Byte::from(rhs)
    }
}

impl AddSpecImpl<u8> for Byte {
    open spec fn obeys_add_spec() -> bool {
        true
    }

    open spec fn add_req(self, rhs: u8) -> bool {
        self.sum_fits(Byte { value: rhs, signed: false })
    }

    open spec fn add_spec(self, rhs: u8) -> Byte {
        self.sum(Byte { value: rhs, signed: false })
    }
}

impl core::ops::Add<i8> for Byte {
    type Output = Byte;

    fn add(self, rhs: i8) -> (r: Byte) {
        self + Byte::from(rhs)
    }
}

impl AddSpecImpl<i8> for Byte {
    open spec fn obeys_add_spec() -> bool {
        true
    }

    open spec fn add_req(self, rhs: i8) -> bool {
        self.sum_fits(Byte { value: signed_encoding(rhs), signed: true })
    }

    open spec fn add_spec(self, rhs: i8) -> Byte {
        self.sum(Byte { value: signed_encoding(rhs), signed: true })
    }
}

impl core::ops::BitAnd<Byte> for Byte {
    type Output = Byte;

    fn bitand(self, rhs: Byte) -> (r: Byte) {
        Byte::from(self.value & rhs.value)
    }
}

impl BitAndSpecImpl<Byte> for Byte {
    open spec fn obeys_bitand_spec() -> bool {
        true
    }

    open spec fn bitand_req(self, rhs: Byte) -> bool {
        true
    }

    open spec fn bitand_spec(self, rhs: Byte) -> Byte {
        Byte { value: self.value & rhs.value, signed: false }
    }
}

impl core::ops::BitAnd<u8> for Byte {
    type Output = Byte;

    fn bitand(self, rhs: u8) -> (r: Byte) {
        Byte::from(self.value & rhs)
    }
}

impl BitAndSpecImpl<u8> for Byte {
    open spec fn obeys_bitand_spec() -> bool {
        true
    }

    open spec fn bitand_req(self, rhs: u8) -> bool {
        true
    }

    open spec fn bitand_spec(self, rhs: u8) -> Byte {
        Byte { value: self.value & rhs, signed: false }
    }
}

impl core::ops::AddAssign<Byte> for Byte {
    fn add_assign(&mut self, rhs: Byte)
        requires
            old(self).sum_fits(rhs),
        ensures
            *final(self) == old(self).sum(rhs),
    {
        *self = *self + rhs;
    }
}

impl core::ops::AddAssign<u8> for Byte {
    fn add_assign(&mut self, rhs: u8)
        requires
            old(self).sum_fits(Byte { value: rhs, signed: false }),
        ensures
            *final(self) == old(self).sum(Byte { value: rhs, signed: false }),
    {
        *self = *self + rhs;
    }
}

impl core::ops::AddAssign<i8> for Byte {
    fn add_assign(&mut self, rhs: i8)
        requires
            old(self).sum_fits(Byte { value: signed_encoding(rhs), signed: true }),
        ensures
            *final(self) == old(self).sum(Byte { value: signed_encoding(rhs), signed: true }),
    {
        *self = *self + rhs;
    }
}

} // verus!
