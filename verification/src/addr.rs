//! Typed addresses: a cell of internal data, a cell of code or external data,
//! and a single bit of a bit-addressable byte.

use vstd::prelude::*;
use vstd::std_specs::convert::FromSpecImpl;
use vstd::std_specs::ops::{
    AddSpecImpl, BitAndSpecImpl, BitOrSpecImpl, ShlSpecImpl, ShrSpecImpl, SubSpecImpl,
};
use crate::bits::bit_addressable;
use crate::error::{ErrorType, RuntimeError};

verus! {

/// The byte of internal data that holds the bit with address `bit_addr`: the
/// lower half of the bit addresses covers the sixteen bytes from 0x20, the upper
/// half the special function registers at multiples of eight.
pub open spec fn decoded_byte(bit_addr: u8) -> u8 {
    if bit_addr <= 127 {
        (bit_addr / 8 + 0x20) as u8
    } else {
        (bit_addr - bit_addr % 8) as u8
    }
}

/// The position, within its byte, of the bit with address `bit_addr`.
pub open spec fn decoded_index(bit_addr: u8) -> u8 {
    bit_addr % 8
}

/// Every bit address names a bit of a bit-addressable byte.
pub proof fn lemma_decoded_byte_is_bit_addressable(bit_addr: u8)
    ensures
        bit_addressable(decoded_byte(bit_addr)),
        decoded_index(bit_addr) < 8,
{
}

/// Two bit addresses that name the same bit are the same address.
pub proof fn lemma_decoding_is_injective(a: u8, b: u8)
    requires
        decoded_byte(a) == decoded_byte(b),
        decoded_index(a) == decoded_index(b),
    ensures
        a == b,
{
}

/// The address of one bit: the byte that holds it and its position there.
#[derive(Debug, Clone, Copy)]
pub struct BitAddr {
    byte: u8,
    index: u8,
}

impl BitAddr {
    #[verifier::type_invariant]
    spec fn well_formed(self) -> bool {
        self.index < 8
    }

    /// The address of the byte that holds the bit.
    pub closed spec fn byte_addr(self) -> u8 {
        self.byte
    }

    /// The position of the bit within its byte; bit 0 is the least significant.
    pub closed spec fn bit_index(self) -> u8 {
        self.index
    }

    /// Decodes a bit address. Fails with `InvalidBitAddr` exactly when the byte
    /// that the address decodes to is not bit-addressable.
    pub fn try_new(addr: u8) -> (r: Result<BitAddr, RuntimeError>)
        ensures
            bit_addressable(decoded_byte(addr)) ==> r is Ok && r.unwrap().byte_addr()
                == decoded_byte(addr) && r.unwrap().bit_index() == decoded_index(addr),
            !bit_addressable(decoded_byte(addr)) ==> r == Err::<BitAddr, RuntimeError>(
                RuntimeError { error_type: ErrorType::InvalidBitAddr },
            ),
    {
        let index = addr % 8;
        let byte = if addr <= 127 {
            addr / 8 + 32
        } else {
            addr - index
        };
        let bit_addr = BitAddr { byte, index };
        if !bit_addr.is_bit_addressable() {
            return Err(RuntimeError::new(ErrorType::InvalidBitAddr));
        }
        Ok(bit_addr)
    }

    /// Bit 0 of byte 0, which is not bit-addressable.
    pub fn zero() -> (r: Self)
        ensures
            r.byte_addr() == 0,
            r.bit_index() == 0,
    {
        BitAddr { byte: 0, index: 0 }
    }

    /// The address of the byte that holds the bit.
    pub fn as_u8(&self) -> (r: u8)
        ensures
            r == self.byte_addr(),
    {
        self.byte
    }

    /// The address of the byte that holds the bit.
    pub fn as_addr8(&self) -> (r: Addr8)
        ensures
            r@ == self.byte_addr(),
    {
        Addr8(self.byte)
    }

    /// The address of the byte that holds the bit.
    pub fn as_usize(&self) -> (r: usize)
        ensures
            r == self.byte_addr(),
    {
        self.byte as usize
    }

    /// Whether the byte that holds the bit is at address 0.
    pub fn is_null(&self) -> (r: bool)
        ensures
            r == (self.byte_addr() == 0),
    {
        self.byte == 0
    }

    /// The position of the bit within its byte.
    pub fn index(&self) -> (r: u8)
        ensures
            r == self.bit_index(),
            r < 8,
    {
        proof {
            use_type_invariant(self);
        }
        self.index
    }

    /// The mask that selects the bit within its byte.
    pub fn bit(&self) -> (r: u8)
        ensures
            r == 1u8 << self.bit_index(),
    {
        proof {
            use_type_invariant(self);
        }
        1u8 << self.index
    }

    /// Whether the byte that holds the bit is bit-addressable.
    pub fn is_bit_addressable(&self) -> (r: bool)
        ensures
            r == bit_addressable(self.byte_addr()),
    {
        (self.byte >= 0x20 && self.byte < 0x30) || (self.byte >= 0x80 && self.byte % 8 == 0)
    }
}

/// The address of a cell of internal data.
#[derive(Debug, Clone, Copy)]
pub struct Addr8(pub u8);

impl View for Addr8 {
    type V = u8;

    open spec fn view(&self) -> u8 {
        self.0
    }
}

impl Addr8 {
    /// The address `addr`.
    pub fn new(addr: u8) -> (r: Self)
        ensures
            r@ == addr,
    {
        Self(addr)
    }

    /// The address 0.
    pub fn zero() -> (r: Self)
        ensures
            r@ == 0,
    {
        Self(0)
    }

    /// The address as a number.
    pub fn as_u8(&self) -> (r: u8)
        ensures
            r == self@,
    {
        self.0
    }

    /// The address as an index.
    pub fn as_usize(&self) -> (r: usize)
        ensures
            r == self@,
    {
        self.0 as usize
    }

    /// Whether this is the address 0.
    pub fn is_null(&self) -> (r: bool)
        ensures
            r == (self@ == 0),
    {
        self.0 == 0
    }

    /// Whether the byte at this address has bits with addresses of their own.
    pub fn is_bit_addressable(&self) -> (r: bool)
        ensures
            r == bit_addressable(self@),
    {
        (self.0 >= 0x20 && self.0 < 0x30) || (self.0 >= 0x80 && self.0 % 8 == 0)
    }
}

/// The address of a cell of code memory or of external data.
#[derive(Debug, Clone, Copy)]
pub struct Addr16(pub u16);

impl View for Addr16 {
    type V = u16;

    open spec fn view(&self) -> u16 {
        self.0
    }
}

impl Addr16 {
    /// The address `addr`.
    pub fn new(addr: u16) -> (r: Self)
        ensures
            r@ == addr,
    {
        Self(addr)
    }

    /// The address 0.
    pub fn zero() -> (r: Self)
        ensures
            r@ == 0,
    {
        Self(0)
    }

    /// The low byte of the address.
    pub fn as_u8(&self) -> (r: u8)
        ensures
            r == self@ % 256,
    {
        (self.0 % 256) as u8
    }

    /// The address as a number.
    pub fn as_u16(&self) -> (r: u16)
        ensures
            r == self@,
    {
        self.0
    }

    /// The address as an index.
    pub fn as_usize(&self) -> (r: usize)
        ensures
            r == self@,
    {
        self.0 as usize
    }

    /// Whether this is the address 0.
    pub fn is_null(&self) -> (r: bool)
        ensures
            r == (self@ == 0),
    {
        self.0 == 0
    }
}

impl From<Addr8> for u8 {
    fn from(addr: Addr8) -> (r: u8) {
        addr.as_u8()
    }
}

impl FromSpecImpl<Addr8> for u8 {
    open spec fn obeys_from_spec() -> bool {
        true
    }

    open spec fn from_spec(addr: Addr8) -> u8 {
        addr.0
    }
}

impl From<u8> for Addr8 {
    fn from(addr: u8) -> (r: Addr8) {
        Addr8(addr)
    }
}

impl FromSpecImpl<u8> for Addr8 {
    open spec fn obeys_from_spec() -> bool {
        true
    }

    open spec fn from_spec(addr: u8) -> Addr8 {
        Addr8(addr)
    }
}

impl From<Addr16> for u16 {
    fn from(addr: Addr16) -> (r: u16) {
        addr.as_u16()
    }
}

impl FromSpecImpl<Addr16> for u16 {
    open spec fn obeys_from_spec() -> bool {
        true
    }

    open spec fn from_spec(addr: Addr16) -> u16 {
        addr.0
    }
}

/// The sum of two addresses of internal data, which lies in internal data.
impl core::ops::Add<Addr8> for Addr8 {
    type Output = Addr8;

    fn add(self, rhs: Addr8) -> (r: Addr8) {
        Addr8(self.0 + rhs.0)
    }
}

impl AddSpecImpl<Addr8> for Addr8 {
    open spec fn obeys_add_spec() -> bool {
        true
    }

    open spec fn add_req(self, rhs: Addr8) -> bool {
        self.0 + rhs.0 <= u8::MAX
    }

    open spec fn add_spec(self, rhs: Addr8) -> Addr8 {
        Addr8((self.0 + rhs.0) as u8)
    }
}

/// The address `rhs` cells behind this one, which lies in internal data.
impl core::ops::Add<u8> for Addr8 {
    type Output = Addr8;

    fn add(self, rhs: u8) -> (r: Addr8) {
        Addr8(self.0 + rhs)
    }
}

impl AddSpecImpl<u8> for Addr8 {
    open spec fn obeys_add_spec() -> bool {
        true
    }

    open spec fn add_req(self, rhs: u8) -> bool {
        self.0 + rhs <= u8::MAX
    }

    open spec fn add_spec(self, rhs: u8) -> Addr8 {
        Addr8((self.0 + rhs) as u8)
    }
}

impl core::ops::AddAssign<Addr8> for Addr8 {
    fn add_assign(&mut self, rhs: Addr8)
        requires
            old(self)@ + rhs@ <= u8::MAX,
        ensures
            final(self)@ == old(self)@ + rhs@,
    {
        self.0 = self.0 + rhs.0;
    }
}

impl core::ops::AddAssign<u8> for Addr8 {
    fn add_assign(&mut self, rhs: u8)
        requires
            old(self)@ + rhs <= u8::MAX,
        ensures
            final(self)@ == old(self)@ + rhs,
    {
        self.0 = self.0 + rhs;
    }
}

/// The distance between two addresses of internal data, the second not above
/// the first.
impl core::ops::Sub<Addr8> for Addr8 {
    type Output = Addr8;

    fn sub(self, rhs: Addr8) -> (r: Addr8) {
        Addr8(self.0 - rhs.0)
    }
}

impl SubSpecImpl<Addr8> for Addr8 {
    open spec fn obeys_sub_spec() -> bool {
        true
    }

    open spec fn sub_req(self, rhs: Addr8) -> bool {
        rhs.0 <= self.0
    }

    open spec fn sub_spec(self, rhs: Addr8) -> Addr8 {
        Addr8((self.0 - rhs.0) as u8)
    }
}

/// The address `rhs` cells before this one, which lies in internal data.
impl core::ops::Sub<u8> for Addr8 {
    type Output = Addr8;

    fn sub(self, rhs: u8) -> (r: Addr8) {
        Addr8(self.0 - rhs)
    }
}

impl SubSpecImpl<u8> for Addr8 {
    open spec fn obeys_sub_spec() -> bool {
        true
    }

    open spec fn sub_req(self, rhs: u8) -> bool {
        rhs <= self.0
    }

    open spec fn sub_spec(self, rhs: u8) -> Addr8 {
        Addr8((self.0 - rhs) as u8)
    }
}

impl core::ops::SubAssign<Addr8> for Addr8 {
    fn sub_assign(&mut self, rhs: Addr8)
        requires
            rhs@ <= old(self)@,
        ensures
            final(self)@ == old(self)@ - rhs@,
    {
        self.0 = self.0 - rhs.0;
    }
}

impl core::ops::SubAssign<u8> for Addr8 {
    fn sub_assign(&mut self, rhs: u8)
        requires
            rhs <= old(self)@,
        ensures
            final(self)@ == old(self)@ - rhs,
    {
        self.0 = self.0 - rhs;
    }
}

/// The sum of two 16-bit addresses, which lies in the address space.
impl core::ops::Add<Addr16> for Addr16 {
    type Output = Addr16;

    fn add(self, rhs: Addr16) -> (r: Addr16) {
        Addr16(self.0 + rhs.0)
    }
}

impl AddSpecImpl<Addr16> for Addr16 {
    open spec fn obeys_add_spec() -> bool {
        true
    }

    open spec fn add_req(self, rhs: Addr16) -> bool {
        self.0 + rhs.0 <= u16::MAX
    }

    open spec fn add_spec(self, rhs: Addr16) -> Addr16 {
        Addr16((self.0 + rhs.0) as u16)
    }
}

/// The address `rhs` cells behind this one, which lies in the address space.
impl core::ops::Add<u16> for Addr16 {
    type Output = Addr16;

    fn add(self, rhs: u16) -> (r: Addr16) {
        Addr16(self.0 + rhs)
    }
}

impl AddSpecImpl<u16> for Addr16 {
    open spec fn obeys_add_spec() -> bool {
        true
    }

    open spec fn add_req(self, rhs: u16) -> bool {
        self.0 + rhs <= u16::MAX
    }

    open spec fn add_spec(self, rhs: u16) -> Addr16 {
        Addr16((self.0 + rhs) as u16)
    }
}

impl core::ops::AddAssign<Addr16> for Addr16 {
    fn add_assign(&mut self, rhs: Addr16)
        requires
            old(self)@ + rhs@ <= u16::MAX,
        ensures
            final(self)@ == old(self)@ + rhs@,
    {
        self.0 = self.0 + rhs.0;
    }
}

impl core::ops::AddAssign<u16> for Addr16 {
    fn add_assign(&mut self, rhs: u16)
        requires
            old(self)@ + rhs <= u16::MAX,
        ensures
            final(self)@ == old(self)@ + rhs,
    {
        self.0 = self.0 + rhs;
    }
}

/// Moves the address on by the low 16 bits of `rhs`.
impl core::ops::AddAssign<usize> for Addr16 {
    fn add_assign(&mut self, rhs: usize)
        requires
            old(self)@ + rhs % 0x10000 <= u16::MAX,
        ensures
            final(self)@ == old(self)@ + rhs % 0x10000,
    {
        self.0 = self.0 + (rhs % 0x10000) as u16;
    }
}

/// Moves the address on by the low 16 bits of `rhs`, as a two's-complement
/// number has them.
impl core::ops::AddAssign<i32> for Addr16 {
    fn add_assign(&mut self, rhs: i32)
        requires
            old(self)@ + rhs % 0x10000 <= u16::MAX,
        ensures
            final(self)@ == old(self)@ + rhs % 0x10000,
    {
        let low: u16 = if rhs >= 0 {
            (rhs % 0x10000) as u16
        } else {
            let below: i64 = -(rhs as i64);
            ((0x10000 - below % 0x10000) % 0x10000) as u16
        };
        self.0 = self.0 + low;
    }
}

/// The bits of the address that are set in `rhs` too.
impl core::ops::BitAnd<u16> for Addr16 {
    type Output = Addr16;

    fn bitand(self, rhs: u16) -> (r: Addr16) {
        Addr16(self.0 & rhs)
    }
}

impl BitAndSpecImpl<u16> for Addr16 {
    open spec fn obeys_bitand_spec() -> bool {
        true
    }

    open spec fn bitand_req(self, rhs: u16) -> bool {
        true
    }

    open spec fn bitand_spec(self, rhs: u16) -> Addr16 {
        Addr16(self.0 & rhs)
    }
}

impl core::ops::BitAndAssign<u16> for Addr16 {
    fn bitand_assign(&mut self, rhs: u16)
        ensures
            final(self)@ == old(self)@ & rhs,
    {
        self.0 = self.0 & rhs;
    }
}

/// The bits of the address together with those of `rhs`.
impl core::ops::BitOr<u16> for Addr16 {
    type Output = Addr16;

    fn bitor(self, rhs: u16) -> (r: Addr16) {
        Addr16(self.0 | rhs)
    }
}

impl BitOrSpecImpl<u16> for Addr16 {
    open spec fn obeys_bitor_spec() -> bool {
        true
    }

    open spec fn bitor_req(self, rhs: u16) -> bool {
        true
    }

    open spec fn bitor_spec(self, rhs: u16) -> Addr16 {
        Addr16(self.0 | rhs)
    }
}

impl core::ops::BitOrAssign<u16> for Addr16 {
    fn bitor_assign(&mut self, rhs: u16)
        ensures
            final(self)@ == old(self)@ | rhs,
    {
        self.0 = self.0 | rhs;
    }
}

/// The address shifted left by fewer than 16 bits.
impl core::ops::Shl<u16> for Addr16 {
    type Output = Addr16;

    fn shl(self, rhs: u16) -> (r: Addr16) {
        Addr16(self.0 << rhs)
    }
}

impl ShlSpecImpl<u16> for Addr16 {
    open spec fn obeys_shl_spec() -> bool {
        true
    }

    open spec fn shl_req(self, rhs: u16) -> bool {
        rhs < 16
    }

    open spec fn shl_spec(self, rhs: u16) -> Addr16 {
        Addr16(self.0 << rhs)
    }
}

/// The address shifted right by fewer than 16 bits.
impl core::ops::Shr<u16> for Addr16 {
    type Output = Addr16;

    fn shr(self, rhs: u16) -> (r: Addr16) {
        Addr16(self.0 >> rhs)
    }
}

impl ShrSpecImpl<u16> for Addr16 {
    open spec fn obeys_shr_spec() -> bool {
        true
    }

    open spec fn shr_req(self, rhs: u16) -> bool {
        rhs < 16
    }

    open spec fn shr_spec(self, rhs: u16) -> Addr16 {
        Addr16(self.0 >> rhs)
    }
}

/// The 16-bit address with `addr1` as its high byte and `addr2` as its low byte.
pub fn addr16(addr1: Addr8, addr2: Addr8) -> (r: Addr16)
    ensures
        r@ == addr1@ * 256 + addr2@,
{
    Addr16(addr1.as_u8() as u16 * 256 + addr2.as_u8() as u16)
}

} // verus!
