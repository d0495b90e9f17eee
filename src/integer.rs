use core::cmp::Ordering;
use core::num::TryFromIntError;
use vstd::prelude::*;

use crate::error::{is_conversion_message, lift, ConvertError};
use crate::model::{canonical_len_of, canonical_order, in_integer_range, int_cmp};
use crate::number::N;

verus! {

/// The width in bytes of a 128-bit integer's big-endian form.
const I128_BYTES: usize = 16;

/// An abstract integer value.
///
/// It holds an integer that the format can encode without resorting to the
/// big integer encoding: anything from -2^64 to 2^64 - 1. Whatever native
/// width stores it, it compares, orders and hashes as its value.
#[derive(Copy, Clone, Debug)]
pub struct Integer {
    number: N,
}

impl View for Integer {
    type V = int;

    /// The mathematical value held.
    closed spec fn view(&self) -> int {
        self.number.value()
    }
}

impl Integer {
    #[verifier::type_invariant]
    spec fn inv(self) -> bool {
        in_integer_range(self.number.value())
    }

    /// Holds a `u8` as it is.
    pub fn from_u8(value: u8) -> (r: Integer)
        ensures
            r@ == value as int,
    {
        Integer { number: N::U8(value) }
    }

    /// Holds a `u16` as it is.
    pub fn from_u16(value: u16) -> (r: Integer)
        ensures
            r@ == value as int,
    {
        Integer { number: N::U16(value) }
    }

    /// Holds a `u32` as it is.
    pub fn from_u32(value: u32) -> (r: Integer)
        ensures
            r@ == value as int,
    {
        Integer { number: N::U32(value) }
    }

    /// Holds a `u64` as it is.
    pub fn from_u64(value: u64) -> (r: Integer)
        ensures
            r@ == value as int,
    {
        Integer { number: N::U64(value) }
    }

    /// Holds a `i8` as it is.
    pub fn from_i8(value: i8) -> (r: Integer)
        ensures
            r@ == value as int,
    {
        Integer { number: N::I8(value) }
    }

    /// Holds a `i16` as it is.
    pub fn from_i16(value: i16) -> (r: Integer)
        ensures
            r@ == value as int,
    {
        Integer { number: N::I16(value) }
    }

    /// Holds a `i32` as it is.
    pub fn from_i32(value: i32) -> (r: Integer)
        ensures
            r@ == value as int,
    {
        Integer { number: N::I32(value) }
    }

    /// Holds a `i64` as it is.
    pub fn from_i64(value: i64) -> (r: Integer)
        ensures
            r@ == value as int,
    {
        Integer { number: N::I64(value) }
    }

    /// Holds a `usize` as it is.
    pub fn from_usize(value: usize) -> (r: Integer)
        ensures
            r@ == value as int,
    {
        Integer { number: N::USIZE(value) }
    }

    /// Holds a `isize` as it is.
    pub fn from_isize(value: isize) -> (r: Integer)
        ensures
            r@ == value as int,
    {
        Integer { number: N::ISIZE(value) }
    }

    /// Holds a 128-bit signed value, which succeeds exactly when it lies
    /// from -2^64 to 2^64 - 1: a negative `v` fits when `-1 - v` fits in 64
    /// unsigned bits.
    pub fn try_from_i128(value: i128) -> (r: Result<Integer, TryFromIntError>)
        ensures
            r is Ok <==> in_integer_range(value as int),
            r matches Ok(i) ==> i@ == value as int,
    {
        let magnitude: i128 = if value < 0 {
            -1 - value
        } else {
            value
        };
        match u64::try_from(magnitude) {
            Ok(_) => Ok(Integer { number: N::I128(value) }),
            Err(e) => Err(e),
        }
    }

    /// Holds a 128-bit unsigned value, which succeeds exactly when it fits
    /// in 64 bits.
    pub fn try_from_u128(value: u128) -> (r: Result<Integer, TryFromIntError>)
        ensures
            r is Ok <==> value <= u64::MAX,
            r matches Ok(i) ==> i@ == value as int,
    {
        match u64::try_from(value) {
            Ok(x) => Ok(Integer::from_u64(x)),
            Err(e) => Err(e),
        }
    }

    /// Returns the value as a `u8`, or an error where it does not fit.
    pub fn to_u8(&self) -> (r: Result<u8, ConvertError>)
        ensures
            r is Ok <==> u8::MIN <= self@ <= u8::MAX,
            r matches Ok(x) ==> x as int == self@,
            r matches Err(e) ==> is_conversion_message(e@),
    {
        lift(u8::try_from(self.as_i128()))
    }

    /// Returns the value as a `u16`, or an error where it does not fit.
    pub fn to_u16(&self) -> (r: Result<u16, ConvertError>)
        ensures
            r is Ok <==> u16::MIN <= self@ <= u16::MAX,
            r matches Ok(x) ==> x as int == self@,
            r matches Err(e) ==> is_conversion_message(e@),
    {
        lift(u16::try_from(self.as_i128()))
    }

    /// Returns the value as a `u32`, or an error where it does not fit.
    pub fn to_u32(&self) -> (r: Result<u32, ConvertError>)
        ensures
            r is Ok <==> u32::MIN <= self@ <= u32::MAX,
            r matches Ok(x) ==> x as int == self@,
            r matches Err(e) ==> is_conversion_message(e@),
    {
        lift(u32::try_from(self.as_i128()))
    }

    /// Returns the value as a `u64`, or an error where it does not fit.
    pub fn to_u64(&self) -> (r: Result<u64, ConvertError>)
        ensures
            r is Ok <==> u64::MIN <= self@ <= u64::MAX,
            r matches Ok(x) ==> x as int == self@,
            r matches Err(e) ==> is_conversion_message(e@),
    {
        lift(u64::try_from(self.as_i128()))
    }

    /// Returns the value as a `i8`, or an error where it does not fit.
    pub fn to_i8(&self) -> (r: Result<i8, ConvertError>)
        ensures
            r is Ok <==> i8::MIN <= self@ <= i8::MAX,
            r matches Ok(x) ==> x as int == self@,
            r matches Err(e) ==> is_conversion_message(e@),
    {
        lift(i8::try_from(self.as_i128()))
    }

    /// Returns the value as a `i16`, or an error where it does not fit.
    pub fn to_i16(&self) -> (r: Result<i16, ConvertError>)
        ensures
            r is Ok <==> i16::MIN <= self@ <= i16::MAX,
            r matches Ok(x) ==> x as int == self@,
            r matches Err(e) ==> is_conversion_message(e@),
    {
        lift(i16::try_from(self.as_i128()))
    }

    /// Returns the value as a `i32`, or an error where it does not fit.
    pub fn to_i32(&self) -> (r: Result<i32, ConvertError>)
        ensures
            r is Ok <==> i32::MIN <= self@ <= i32::MAX,
            r matches Ok(x) ==> x as int == self@,
            r matches Err(e) ==> is_conversion_message(e@),
    {
        lift(i32::try_from(self.as_i128()))
    }

    /// Returns the value as a `i64`, or an error where it does not fit.
    pub fn to_i64(&self) -> (r: Result<i64, ConvertError>)
        ensures
            r is Ok <==> i64::MIN <= self@ <= i64::MAX,
            r matches Ok(x) ==> x as int == self@,
            r matches Err(e) ==> is_conversion_message(e@),
    {
        lift(i64::try_from(self.as_i128()))
    }

    /// Returns the value as a `usize`, or an error where it does not fit.
    pub fn to_usize(&self) -> (r: Result<usize, ConvertError>)
        ensures
            r is Ok <==> usize::MIN <= self@ <= usize::MAX,
            r matches Ok(x) ==> x as int == self@,
            r matches Err(e) ==> is_conversion_message(e@),
    {
        lift(usize::try_from(self.as_i128()))
    }

    /// Returns the value as a `isize`, or an error where it does not fit.
    pub fn to_isize(&self) -> (r: Result<isize, ConvertError>)
        ensures
            r is Ok <==> isize::MIN <= self@ <= isize::MAX,
            r matches Ok(x) ==> x as int == self@,
            r matches Err(e) ==> is_conversion_message(e@),
    {
        lift(isize::try_from(self.as_i128()))
    }

    /// Returns the value as a `u128`, or an error where it is negative.
    pub fn to_u128(&self) -> (r: Result<u128, TryFromIntError>)
        ensures
            r is Ok <==> self@ >= 0,
            r matches Ok(x) ==> x as int == self@,
    {
        self.number.to_u128()
    }

    /// Compares by mathematical value, whatever the widths that hold the two.
    pub fn numeric_cmp(&self, other: &Integer) -> (r: Ordering)
        ensures
            r == int_cmp(self@, other@),
    {
        self.number.compare(&other.number)
    }

    /// Returns whether the value is below zero.
    pub fn is_negative(&self) -> (r: bool)
        ensures
            r == (self@ < 0),
    {
        match self.number {
            N::U8(_) | N::U16(_) | N::U32(_) | N::U64(_) | N::USIZE(_) => false,
            N::I8(x) => x < 0,
            N::I16(x) => x < 0,
            N::I32(x) => x < 0,
            N::I64(x) => x < 0,
            N::I128(x) => x < 0,
            N::ISIZE(x) => x < 0,
        }
    }

    /// Returns the value as a 128-bit signed integer, which holds every value.
    pub fn as_i128(&self) -> (r: i128)
        ensures
            r as int == self@,
            in_integer_range(self@),
    {
        proof {
            use_type_invariant(self);
        }
        self.number.to_i128()
    }

    /// Returns the value cast to 64 bits unsigned: the value itself where it
    /// is non-negative, else its two's complement truncated to 64 bits.
    pub fn as_u64(&self) -> (r: u64)
        ensures
            r == self@ as u64,
            self@ >= 0 ==> r as int == self@,
    {
        proof {
            use_type_invariant(self);
        }
        match self.number {
            N::U8(x) => x as u64,
            N::U16(x) => x as u64,
            N::U32(x) => x as u64,
            N::U64(x) => x,
            N::USIZE(x) => x as u64,
            N::I8(x) => x as u64,
            N::I16(x) => x as u64,
            N::I32(x) => x as u64,
            N::I64(x) => x as u64,
            N::I128(x) => x as u64,
            N::ISIZE(x) => x as u64,
        }
    }

    /// Returns the length in bytes of this integer's canonical encoding,
    /// without encoding it. It serves canonical comparison.
    pub fn canonical_len(&self) -> (r: usize)
        ensures
            r as int == canonical_len_of(self@),
    {
        let x = self.as_i128();
        if let Ok(b) = u8::try_from(x) {
            if b < 24 {
                1
            } else {
                2
            }
        } else if let Ok(b) = i8::try_from(x) {
            if b >= -24i8 {
                1
            } else {
                2
            }
        } else if u16::try_from(x).is_ok() || i16::try_from(x).is_ok() {
            3
        } else if u32::try_from(x).is_ok() || i32::try_from(x).is_ok() {
            5
        } else if u64::try_from(x).is_ok() || i64::try_from(x).is_ok() {
            9
        } else {
            // Beyond 64 bits the value goes out as a tagged 128-bit form.
            I128_BYTES + 1
        }
    }

    /// Compares two integers as their canonical encodings would compare
    /// byte by byte, without encoding them.
    pub fn canonical_cmp(&self, other: &Self) -> (r: Ordering)
        ensures
            r == canonical_order(self@, other@),
    {
        match self.canonical_len().cmp(&other.canonical_len()) {
            Ordering::Equal => {
                // A negative number is written with a higher major type.
                match (self.is_negative(), other.is_negative()) {
                    (false, true) => Ordering::Less,
                    (true, false) => Ordering::Greater,
                    (true, true) => {
                        // A negative n is written as -1 - n, so the order is
                        // reversed: -1 sorts before -2.
                        match self.as_i128().cmp(&other.as_i128()) {
                            Ordering::Less => Ordering::Greater,
                            Ordering::Equal => Ordering::Equal,
                            Ordering::Greater => Ordering::Less,
                        }
                    },
                    (false, false) => self.as_u64().cmp(&other.as_u64()),
                }
            },
            x => x,
        }
    }
}

impl PartialEq for Integer {
    fn eq(&self, other: &Integer) -> (r: bool) {
        self.number == other.number
    }
}

impl vstd::std_specs::cmp::PartialEqSpecImpl for Integer {
    open spec fn obeys_eq_spec() -> bool {
        true
    }

    open spec fn eq_spec(&self, other: &Integer) -> bool {
        self@ == other@
    }
}

impl Eq for Integer {}

impl PartialOrd for Integer {
    fn partial_cmp(&self, other: &Integer) -> (r: Option<Ordering>) {
        Some(self.numeric_cmp(other))
    }
}

impl vstd::std_specs::cmp::PartialOrdSpecImpl for Integer {
    open spec fn obeys_partial_cmp_spec() -> bool {
        true
    }

    open spec fn partial_cmp_spec(&self, other: &Integer) -> Option<Ordering> {
        Some(int_cmp(self@, other@))
    }
}

/// Hashes the value widened to 128 bits, so that equal integers hash alike.
impl core::hash::Hash for Integer {
    fn hash<H: core::hash::Hasher>(&self, state: &mut H) {
        self.number.hash(state);
    }
}

impl From<u8> for Integer {
    fn from(value: u8) -> (r: Integer)
        ensures
            r@ == value as int,
    {
        Integer { number: N::U8(value) }
    }
}

impl vstd::std_specs::convert::FromSpecImpl<u8> for Integer {
    open spec fn obeys_from_spec() -> bool {
        true
    }

    closed spec fn from_spec(v: u8) -> Integer {
        Integer { number: N::U8(v) }
    }
}

impl TryFrom<Integer> for u8 {
    type Error = ConvertError;

    fn try_from(value: Integer) -> (r: Result<u8, ConvertError>)
        ensures
            r is Ok <==> u8::MIN <= value@ <= u8::MAX,
            r matches Ok(x) ==> x as int == value@,
            r matches Err(e) ==> is_conversion_message(e@),
    {
        value.to_u8()
    }
}

impl vstd::std_specs::convert::TryFromSpecImpl<Integer> for u8 {
    open spec fn obeys_try_from_spec() -> bool {
        false
    }

    open spec fn try_from_spec(v: Integer) -> Result<u8, ConvertError> {
        arbitrary()
    }
}

impl From<u16> for Integer {
    fn from(value: u16) -> (r: Integer)
        ensures
            r@ == value as int,
    {
        Integer { number: N::U16(value) }
    }
}

impl vstd::std_specs::convert::FromSpecImpl<u16> for Integer {
    open spec fn obeys_from_spec() -> bool {
        true
    }

    closed spec fn from_spec(v: u16) -> Integer {
        Integer { number: N::U16(v) }
    }
}

impl TryFrom<Integer> for u16 {
    type Error = ConvertError;

    fn try_from(value: Integer) -> (r: Result<u16, ConvertError>)
        ensures
            r is Ok <==> u16::MIN <= value@ <= u16::MAX,
            r matches Ok(x) ==> x as int == value@,
            r matches Err(e) ==> is_conversion_message(e@),
    {
        value.to_u16()
    }
}

impl vstd::std_specs::convert::TryFromSpecImpl<Integer> for u16 {
    open spec fn obeys_try_from_spec() -> bool {
        false
    }

    open spec fn try_from_spec(v: Integer) -> Result<u16, ConvertError> {
        arbitrary()
    }
}

impl From<u32> for Integer {
    fn from(value: u32) -> (r: Integer)
        ensures
            r@ == value as int,
    {
        Integer { number: N::U32(value) }
    }
}

impl vstd::std_specs::convert::FromSpecImpl<u32> for Integer {
    open spec fn obeys_from_spec() -> bool {
        true
    }

    closed spec fn from_spec(v: u32) -> Integer {
        Integer { number: N::U32(v) }
    }
}

impl TryFrom<Integer> for u32 {
    type Error = ConvertError;

    fn try_from(value: Integer) -> (r: Result<u32, ConvertError>)
        ensures
            r is Ok <==> u32::MIN <= value@ <= u32::MAX,
            r matches Ok(x) ==> x as int == value@,
            r matches Err(e) ==> is_conversion_message(e@),
    {
        value.to_u32()
    }
}

impl vstd::std_specs::convert::TryFromSpecImpl<Integer> for u32 {
    open spec fn obeys_try_from_spec() -> bool {
        false
    }

    open spec fn try_from_spec(v: Integer) -> Result<u32, ConvertError> {
        arbitrary()
    }
}

impl From<u64> for Integer {
    fn from(value: u64) -> (r: Integer)
        ensures
            r@ == value as int,
    {
        Integer { number: N::U64(value) }
    }
}

impl vstd::std_specs::convert::FromSpecImpl<u64> for Integer {
    open spec fn obeys_from_spec() -> bool {
        true
    }

    closed spec fn from_spec(v: u64) -> Integer {
        Integer { number: N::U64(v) }
    }
}

impl TryFrom<Integer> for u64 {
    type Error = ConvertError;

    fn try_from(value: Integer) -> (r: Result<u64, ConvertError>)
        ensures
            r is Ok <==> u64::MIN <= value@ <= u64::MAX,
            r matches Ok(x) ==> x as int == value@,
            r matches Err(e) ==> is_conversion_message(e@),
    {
        value.to_u64()
    }
}

impl vstd::std_specs::convert::TryFromSpecImpl<Integer> for u64 {
    open spec fn obeys_try_from_spec() -> bool {
        false
    }

    open spec fn try_from_spec(v: Integer) -> Result<u64, ConvertError> {
        arbitrary()
    }
}

impl From<i8> for Integer {
    fn from(value: i8) -> (r: Integer)
        ensures
            r@ == value as int,
    {
        Integer { number: N::I8(value) }
    }
}

impl vstd::std_specs::convert::FromSpecImpl<i8> for Integer {
    open spec fn obeys_from_spec() -> bool {
        true
    }

    closed spec fn from_spec(v: i8) -> Integer {
        Integer { number: N::I8(v) }
    }
}

impl TryFrom<Integer> for i8 {
    type Error = ConvertError;

    fn try_from(value: Integer) -> (r: Result<i8, ConvertError>)
        ensures
            r is Ok <==> i8::MIN <= value@ <= i8::MAX,
            r matches Ok(x) ==> x as int == value@,
            r matches Err(e) ==> is_conversion_message(e@),
    {
        value.to_i8()
    }
}

impl vstd::std_specs::convert::TryFromSpecImpl<Integer> for i8 {
    open spec fn obeys_try_from_spec() -> bool {
        false
    }

    open spec fn try_from_spec(v: Integer) -> Result<i8, ConvertError> {
        arbitrary()
    }
}

impl From<i16> for Integer {
    fn from(value: i16) -> (r: Integer)
        ensures
            r@ == value as int,
    {
        Integer { number: N::I16(value) }
    }
}

impl vstd::std_specs::convert::FromSpecImpl<i16> for Integer {
    open spec fn obeys_from_spec() -> bool {
        true
    }

    closed spec fn from_spec(v: i16) -> Integer {
        Integer { number: N::I16(v) }
    }
}

impl TryFrom<Integer> for i16 {
    type Error = ConvertError;

    fn try_from(value: Integer) -> (r: Result<i16, ConvertError>)
        ensures
            r is Ok <==> i16::MIN <= value@ <= i16::MAX,
            r matches Ok(x) ==> x as int == value@,
            r matches Err(e) ==> is_conversion_message(e@),
    {
        value.to_i16()
    }
}

impl vstd::std_specs::convert::TryFromSpecImpl<Integer> for i16 {
    open spec fn obeys_try_from_spec() -> bool {
        false
    }

    open spec fn try_from_spec(v: Integer) -> Result<i16, ConvertError> {
        arbitrary()
    }
}

impl From<i32> for Integer {
    fn from(value: i32) -> (r: Integer)
        ensures
            r@ == value as int,
    {
        Integer { number: N::I32(value) }
    }
}

impl vstd::std_specs::convert::FromSpecImpl<i32> for Integer {
    open spec fn obeys_from_spec() -> bool {
        true
    }

    closed spec fn from_spec(v: i32) -> Integer {
        Integer { number: N::I32(v) }
    }
}

impl TryFrom<Integer> for i32 {
    type Error = ConvertError;

    fn try_from(value: Integer) -> (r: Result<i32, ConvertError>)
        ensures
            r is Ok <==> i32::MIN <= value@ <= i32::MAX,
            r matches Ok(x) ==> x as int == value@,
            r matches Err(e) ==> is_conversion_message(e@),
    {
        value.to_i32()
    }
}

impl vstd::std_specs::convert::TryFromSpecImpl<Integer> for i32 {
    open spec fn obeys_try_from_spec() -> bool {
        false
    }

    open spec fn try_from_spec(v: Integer) -> Result<i32, ConvertError> {
        arbitrary()
    }
}

impl From<i64> for Integer {
    fn from(value: i64) -> (r: Integer)
        ensures
            r@ == value as int,
    {
        Integer { number: N::I64(value) }
    }
}

impl vstd::std_specs::convert::FromSpecImpl<i64> for Integer {
    open spec fn obeys_from_spec() -> bool {
        true
    }

    closed spec fn from_spec(v: i64) -> Integer {
        Integer { number: N::I64(v) }
    }
}

impl TryFrom<Integer> for i64 {
    type Error = ConvertError;

    fn try_from(value: Integer) -> (r: Result<i64, ConvertError>)
        ensures
            r is Ok <==> i64::MIN <= value@ <= i64::MAX,
            r matches Ok(x) ==> x as int == value@,
            r matches Err(e) ==> is_conversion_message(e@),
    {
        value.to_i64()
    }
}

impl vstd::std_specs::convert::TryFromSpecImpl<Integer> for i64 {
    open spec fn obeys_try_from_spec() -> bool {
        false
    }

    open spec fn try_from_spec(v: Integer) -> Result<i64, ConvertError> {
        arbitrary()
    }
}

impl From<usize> for Integer {
    fn from(value: usize) -> (r: Integer)
        ensures
            r@ == value as int,
    {
        Integer { number: N::USIZE(value) }
    }
}

impl vstd::std_specs::convert::FromSpecImpl<usize> for Integer {
    open spec fn obeys_from_spec() -> bool {
        true
    }

    closed spec fn from_spec(v: usize) -> Integer {
        Integer { number: N::USIZE(v) }
    }
}

impl TryFrom<Integer> for usize {
    type Error = ConvertError;

    fn try_from(value: Integer) -> (r: Result<usize, ConvertError>)
        ensures
            r is Ok <==> usize::MIN <= value@ <= usize::MAX,
            r matches Ok(x) ==> x as int == value@,
            r matches Err(e) ==> is_conversion_message(e@),
    {
        value.to_usize()
    }
}

impl vstd::std_specs::convert::TryFromSpecImpl<Integer> for usize {
    open spec fn obeys_try_from_spec() -> bool {
        false
    }

    open spec fn try_from_spec(v: Integer) -> Result<usize, ConvertError> {
        arbitrary()
    }
}

impl From<isize> for Integer {
    fn from(value: isize) -> (r: Integer)
        ensures
            r@ == value as int,
    {
        Integer { number: N::ISIZE(value) }
    }
}

impl vstd::std_specs::convert::FromSpecImpl<isize> for Integer {
    open spec fn obeys_from_spec() -> bool {
        true
    }

    closed spec fn from_spec(v: isize) -> Integer {
        Integer { number: N::ISIZE(v) }
    }
}

impl TryFrom<Integer> for isize {
    type Error = ConvertError;

    fn try_from(value: Integer) -> (r: Result<isize, ConvertError>)
        ensures
            r is Ok <==> isize::MIN <= value@ <= isize::MAX,
            r matches Ok(x) ==> x as int == value@,
            r matches Err(e) ==> is_conversion_message(e@),
    {
        value.to_isize()
    }
}

impl vstd::std_specs::convert::TryFromSpecImpl<Integer> for isize {
    open spec fn obeys_try_from_spec() -> bool {
        false
    }

    open spec fn try_from_spec(v: Integer) -> Result<isize, ConvertError> {
        arbitrary()
    }
}

impl TryFrom<i128> for Integer {
    type Error = TryFromIntError;

    fn try_from(value: i128) -> (r: Result<Integer, TryFromIntError>)
        ensures
            r is Ok <==> in_integer_range(value as int),
            r matches Ok(i) ==> i@ == value as int,
    {
        Integer::try_from_i128(value)
    }
}

impl vstd::std_specs::convert::TryFromSpecImpl<i128> for Integer {
    open spec fn obeys_try_from_spec() -> bool {
        false
    }

    open spec fn try_from_spec(v: i128) -> Result<Integer, TryFromIntError> {
        arbitrary()
    }
}

impl TryFrom<u128> for Integer {
    type Error = TryFromIntError;

    fn try_from(value: u128) -> (r: Result<Integer, TryFromIntError>)
        ensures
            r is Ok <==> value <= u64::MAX,
            r matches Ok(i) ==> i@ == value as int,
    {
        Integer::try_from_u128(value)
    }
}

impl vstd::std_specs::convert::TryFromSpecImpl<u128> for Integer {
    open spec fn obeys_try_from_spec() -> bool {
        false
    }

    open spec fn try_from_spec(v: u128) -> Result<Integer, TryFromIntError> {
        arbitrary()
    }
}

impl From<Integer> for i128 {
    fn from(value: Integer) -> (r: i128)
        ensures
            r as int == value@,
    {
        value.as_i128()
    }
}

impl vstd::std_specs::convert::FromSpecImpl<Integer> for i128 {
    open spec fn obeys_from_spec() -> bool {
        true
    }

    open spec fn from_spec(v: Integer) -> i128 {
        v@ as i128
    }
}

impl TryFrom<Integer> for u128 {
    type Error = TryFromIntError;

    fn try_from(value: Integer) -> (r: Result<u128, TryFromIntError>)
        ensures
            r is Ok <==> value@ >= 0,
            r matches Ok(x) ==> x as int == value@,
    {
        value.to_u128()
    }
}

impl vstd::std_specs::convert::TryFromSpecImpl<Integer> for u128 {
    open spec fn obeys_try_from_spec() -> bool {
        false
    }

    open spec fn try_from_spec(v: Integer) -> Result<u128, TryFromIntError> {
        arbitrary()
    }
}

} // verus!
