//! Single bits of a byte: what it means for a bit to be set, how a byte changes
//! when one bit is written, and the bit operations on `u8`.

use vstd::prelude::*;

verus! {

/// Whether bit `index` of `byte` is set; bit 0 is the least significant.
pub open spec fn bit_is_set(byte: u8, index: u8) -> bool
    recommends
        index < 8,
{
    byte & (1u8 << index) != 0
}

/// `byte` with bit `index` set to `value` and every other bit as it was.
pub open spec fn with_bit(byte: u8, index: u8, value: bool) -> u8
    recommends
        index < 8,
{
    if value {
        byte | (1u8 << index)
    } else {
        byte & !(1u8 << index)
    }
}

/// The byte read as a two's-complement number.
pub open spec fn signed_value(byte: u8) -> int {
    if byte < 128 {
        byte as int
    } else {
        byte as int - 256
    }
}

/// Whether a byte of internal data has bits with addresses of their own: the
/// sixteen bytes from 0x20, and every special function register whose address
/// is a multiple of eight.
pub open spec fn bit_addressable(addr: u8) -> bool {
    (0x20 <= addr < 0x30) || (addr >= 0x80 && addr % 8 == 0)
}

/// Calls `bit_field::BitField::get_bit` on a `u8`. The crate tests the byte
/// against the mask `1 << index` and panics for an index of 8 or more, which
/// the precondition leaves out.
#[verifier::external_body]
pub(crate) fn get_bit(byte: u8, index: usize) -> (r: bool)
    requires
        index < 8,
    ensures
        r == bit_is_set(byte, index as u8),
{
    bit_field::BitField::get_bit(&byte, index)
}

/// Calls `bit_field::BitField::set_bit` on a copy of the byte and returns the
/// copy. The crate ors the mask `1 << index` in for `true` and ands its
/// complement for `false`; it panics for an index of 8 or more, which the
/// precondition leaves out.
#[verifier::external_body]
pub(crate) fn set_bit(byte: u8, index: usize, value: bool) -> (r: u8)
    requires
        index < 8,
    ensures
        r == with_bit(byte, index as u8, value),
{
    let mut b = byte;
    bit_field::BitField::set_bit(&mut b, index, value);
    b
}

/// Writing one bit sets that bit to the value written and changes no other.
pub proof fn lemma_with_bit(byte: u8, index: u8, value: bool)
    requires
        index < 8,
    ensures
        bit_is_set(with_bit(byte, index, value), index) == value,
        forall|other: u8|
            other < 8 && other != index ==> bit_is_set(
                #[trigger] with_bit(byte, index, value),
                other,
            ) == #[trigger] bit_is_set(byte, other),
{
    assert(bit_is_set(byte | (1u8 << index), index) && !bit_is_set(byte & !(1u8 << index), index))
        by (bit_vector)
        requires
            index < 8,
    ;
    assert forall|other: u8| other < 8 && other != index implies bit_is_set(
        #[trigger] with_bit(byte, index, value),
        other,
    ) == #[trigger] bit_is_set(byte, other) by {
        assert(bit_is_set(byte | (1u8 << index), other) == bit_is_set(byte, other)
            && bit_is_set(byte & !(1u8 << index), other) == bit_is_set(byte, other))
            by (bit_vector)
            requires
                index < 8,
                other < 8,
                other != index,
        ;
    }
}

/// The top bit of a byte is its sign, and the low bits of a byte are its
/// remainders.
pub proof fn lemma_bit_arithmetic(byte: u8)
    ensures
        bit_is_set(byte, 7) == (byte >= 128),
        byte & 0x0F == byte % 16,
        byte & 0x7F == byte % 128,
{
    assert(bit_is_set(byte, 7) == (byte >= 128) && byte & 0x0F == byte % 16 && byte & 0x7F == byte
        % 128) by (bit_vector);
}

/// The bit operations of the emulator on a plain byte.
pub trait BitOps: Sized {
    /// The byte that the operations work on.
    spec fn byte(&self) -> u8;

    /// Bit `bit` of the byte, as 0 or 1.
    fn get_bit(self, bit: u8) -> (r: u8)
        requires
            bit < 8,
        ensures
            r == (if bit_is_set(self.byte(), bit) { 1u8 } else { 0u8 }),
    ;

    /// Sets bit `bit`.
    fn set_bit(&mut self, bit: u8)
        requires
            bit < 8,
        ensures
            final(self).byte() == with_bit(old(self).byte(), bit, true),
    ;

    /// Clears bit `bit`.
    fn clear_bit(&mut self, bit: u8)
        requires
            bit < 8,
        ensures
            final(self).byte() == with_bit(old(self).byte(), bit, false),
    ;

    /// The byte with every bit outside `bits` cleared; the end of the range is
    /// not part of it.
    fn get_bits_exclusive(self, bits: core::ops::Range<u8>) -> (r: u8)
        requires
            bits.end <= 8,
        ensures
            forall|j: u8|
                j < 8 ==> #[trigger] bit_is_set(r, j) == (bits.start <= j < bits.end && bit_is_set(
                    self.byte(),
                    j,
                )),
    ;

    /// The byte with every bit outside `first..=last` cleared.
    fn get_bits_inclusive(self, first: u8, last: u8) -> (r: u8)
        requires
            last < 8,
        ensures
            forall|j: u8|
                j < 8 ==> #[trigger] bit_is_set(r, j) == (first <= j <= last && bit_is_set(
                    self.byte(),
                    j,
                )),
    ;

    /// Whether the byte, read as an address of internal data, is bit-addressable.
    fn is_bit_addressable(self) -> (r: bool)
        ensures
            r == bit_addressable(self.byte()),
    ;

    /// Whether bit `bit` is set.
    fn is_bit_set(self, bit: u8) -> (r: bool)
        requires
            bit < 8,
        ensures
            r == bit_is_set(self.byte(), bit),
    ;

    /// The byte read as a two's-complement number.
    fn to_signed(self) -> (r: i32)
        ensures
            r == signed_value(self.byte()),
    ;
}

/// One step of collecting the bits of a range: or-ing bit `index` of `source`
/// into `acc` adds that bit and changes no other.
proof fn lemma_collect_bit(acc: u8, source: u8, index: u8)
    requires
        index < 8,
    ensures
        forall|j: u8|
            j < 8 ==> #[trigger] bit_is_set(acc | (source & (1u8 << index)), j) == (bit_is_set(
                acc,
                j,
            ) || (j == index && bit_is_set(source, j))),
{
    assert forall|j: u8| j < 8 implies #[trigger] bit_is_set(
        acc | (source & (1u8 << index)),
        j,
    ) == (bit_is_set(acc, j) || (j == index && bit_is_set(source, j))) by {
        assert(bit_is_set(acc | (source & (1u8 << index)), j) == (bit_is_set(acc, j) || (j == index
            && bit_is_set(source, j)))) by (bit_vector)
            requires
                index < 8,
                j < 8,
        ;
    }
}

proof fn lemma_no_bit_set()
    ensures
        forall|j: u8| j < 8 ==> !#[trigger] bit_is_set(0u8, j),
{
    assert forall|j: u8| j < 8 implies !#[trigger] bit_is_set(0u8, j) by {
        assert(!bit_is_set(0u8, j)) by (bit_vector)
            requires
                j < 8,
        ;
    }
}

/// The bits of `source` from `first` up to, not including, `end`.
fn collect_bits(source: u8, first: u8, end: u8) -> (r: u8)
    requires
        end <= 8,
    ensures
        forall|j: u8|
            j < 8 ==> #[trigger] bit_is_set(r, j) == (first <= j < end && bit_is_set(source, j)),
{
    let mut res: u8 = 0;
    let mut i: u8 = first;
    proof {
        lemma_no_bit_set();
    }
    while i < end
        invariant
            end <= 8,
            first <= i,
            forall|j: u8|
                j < 8 ==> #[trigger] bit_is_set(res, j) == (first <= j < i && j < end && bit_is_set(
                    source,
                    j,
                )),
        decreases end - i,
    {
        proof {
            lemma_collect_bit(res, source, i);
        }
        res = res | (source & (1u8 << i));
        i = i + 1;
    }
    res
}

impl BitOps for u8 {
    open spec fn byte(&self) -> u8 {
        *self
    }

    fn get_bit(self, bit: u8) -> (r: u8) {
        if self::get_bit(self, bit as usize) {
            1
        } else {
            0
        }
    }

    fn set_bit(&mut self, bit: u8) {
        *self = self::set_bit(*self, bit as usize, true);
    }

    fn clear_bit(&mut self, bit: u8) {
        *self = self::set_bit(*self, bit as usize, false);
    }

    fn get_bits_exclusive(self, bits: core::ops::Range<u8>) -> (r: u8) {
        collect_bits(self, bits.start, bits.end)
    }

    fn get_bits_inclusive(self, first: u8, last: u8) -> (r: u8) {
        collect_bits(self, first, last + 1)
    }

    fn is_bit_addressable(self) -> (r: bool) {
        (self >= 32 && self <= 47) || (self >= 128 && self % 8 == 0)
    }

    fn is_bit_set(self, bit: u8) -> (r: bool) {
        self::get_bit(self, bit as usize)
    }

    fn to_signed(self) -> (r: i32) {
        let data = self as i32;
        if data <= 127 {
            data
        } else {
            data - 256
        }
    }
}

} // verus!
