use core::cmp::Ordering;
use core::num::TryFromIntError;
use vstd::prelude::*;

use crate::model::int_cmp;

verus! {

/// The native storage of an integer: exactly one of the supported widths.
#[derive(Copy, Clone, Debug)]
pub enum N {
    U8(u8),
    U16(u16),
    U32(u32),
    U64(u64),
    I8(i8),
    I16(i16),
    I32(i32),
    I64(i64),
    I128(i128),
    USIZE(usize),
    ISIZE(isize),
}

impl N {
    /// The mathematical value held, whatever the width.
    pub open spec fn value(self) -> int {
        match self {
            N::U8(x) => x as int,
            N::U16(x) => x as int,
            N::U32(x) => x as int,
            N::U64(x) => x as int,
            N::I8(x) => x as int,
            N::I16(x) => x as int,
            N::I32(x) => x as int,
            N::I64(x) => x as int,
            N::I128(x) => x as int,
            N::USIZE(x) => x as int,
            N::ISIZE(x) => x as int,
        }
    }

    /// Widens to the largest signed width, which holds every value of every
    /// variant.
    pub(crate) fn to_i128(&self) -> (r: i128)
        ensures
            r as int == self.value(),
    {
        match *self {
            N::U8(x) => x as i128,
            N::U16(x) => x as i128,
            N::U32(x) => x as i128,
            N::U64(x) => x as i128,
            N::I8(x) => x as i128,
            N::I16(x) => x as i128,
            N::I32(x) => x as i128,
            N::I64(x) => x as i128,
            N::I128(x) => x,
            N::USIZE(x) => x as i128,
            N::ISIZE(x) => x as i128,
        }
    }

    /// Widens to the largest unsigned width, which fails exactly on negative
    /// values.
    pub(crate) fn to_u128(&self) -> (r: Result<u128, TryFromIntError>)
        ensures
            r is Ok <==> self.value() >= 0,
            r matches Ok(x) ==> x as int == self.value(),
    {
        match *self {
            N::U8(x) => Ok(x as u128),
            N::U16(x) => Ok(x as u128),
            N::U32(x) => Ok(x as u128),
            N::U64(x) => Ok(x as u128),
            N::I8(x) => u128::try_from(x),
            N::I16(x) => u128::try_from(x),
            N::I32(x) => u128::try_from(x),
            N::I64(x) => u128::try_from(x),
            N::I128(x) => u128::try_from(x),
            N::USIZE(x) => u128::try_from(x),
            N::ISIZE(x) => u128::try_from(x),
        }
    }

    /// Compares by mathematical value: as unsigned where both sides widen to
    /// the largest unsigned width, else as signed.
    pub(crate) fn compare(&self, other: &N) -> (r: Ordering)
        ensures
            r == int_cmp(self.value(), other.value()),
    {
        if let Ok(x) = self.to_u128() {
            if let Ok(y) = other.to_u128() {
                return x.cmp(&y);
            }
        }
        let x = self.to_i128();
        let y = other.to_i128();
        x.cmp(&y)
    }
}

impl PartialEq for N {
    fn eq(&self, other: &N) -> (r: bool) {
        if let Ok(x) = self.to_u128() {
            if let Ok(y) = other.to_u128() {
                return x == y;
            }
        }
        self.to_i128() == other.to_i128()
    }
}

impl vstd::std_specs::cmp::PartialEqSpecImpl for N {
    open spec fn obeys_eq_spec() -> bool {
        true
    }

    open spec fn eq_spec(&self, other: &N) -> bool {
        self.value() == other.value()
    }
}

impl Eq for N {}

impl PartialOrd for N {
    fn partial_cmp(&self, other: &N) -> (r: Option<Ordering>) {
        Some(self.compare(other))
    }
}

impl vstd::std_specs::cmp::PartialOrdSpecImpl for N {
    open spec fn obeys_partial_cmp_spec() -> bool {
        true
    }

    open spec fn partial_cmp_spec(&self, other: &N) -> Option<Ordering> {
        Some(int_cmp(self.value(), other.value()))
    }
}

/// Relies on std's `Hash` for `i128`, which feeds the value to the hasher;
/// nothing is claimed of what the hasher then holds.
pub assume_specification<H: core::hash::Hasher>[ <i128 as core::hash::Hash>::hash::<H> ](
    data: &i128,
    state: &mut H,
);

/// Hashes the widened value, so that equal values held in different widths
/// hash alike.
impl core::hash::Hash for N {
    fn hash<H: core::hash::Hasher>(&self, state: &mut H) {
        let v: i128 = self.to_i128();
        v.hash(state);
    }
}

} // verus!
