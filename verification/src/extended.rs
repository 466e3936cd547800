//! The extended range: Greek numerals for values from 0 to 999,999.

use vstd::prelude::*;

use crate::render;

pub use crate::OutOfRangeError;

verus! {

/// The value of the smallest Greek numeral
pub const MIN: u32 = 0;

/// The value of the largest Greek numeral
pub const MAX: u32 = 999_999;

/// A Greek numeral
///
/// Values from 0 to 999,999 are supported
#[derive(Debug, Clone, Copy, Eq, PartialEq, Ord, PartialOrd, Hash, Structural)]
pub struct GreekNumeral(u32);

impl View for GreekNumeral {
    type V = int;

    closed spec fn view(&self) -> int {
        self.0 as int
    }
}

impl GreekNumeral {
    /// No numeral outside the representable range may exist.
    #[verifier::type_invariant]
    spec fn in_range(self) -> bool {
        self.0 <= MAX
    }

    /// The numeral that stores `value`, as a specification-level value.
    pub closed spec fn spec_from(value: u32) -> GreekNumeral {
        GreekNumeral(value)
    }

    /// Creates a ``GreekNumeral`` for any value in range. 0 is acceptable.
    /// Values above ``MAX`` are rejected with ``OutOfRangeError``.
    pub fn new(value: u32) -> (r: Result<Self, OutOfRangeError>)
        ensures
            r == (if value <= MAX {
                Result::<GreekNumeral, OutOfRangeError>::Ok(GreekNumeral::spec_from(value))
            } else {
                Result::<GreekNumeral, OutOfRangeError>::Err(OutOfRangeError)
            }),
            value <= MAX <==> r is Ok,
            r matches Ok(g) ==> g@ == value as int,
    {
        if value <= MAX {
            Ok(Self(value))
        } else {
            Err(OutOfRangeError)
        }
    }

    /// Return the value of this ``GreekNumeral`` as a ``u32``.
    #[must_use]
    pub fn as_u32(self) -> (r: u32)
        ensures
            r as int == self@,
    {
        self.0
    }

    /// Converts a ``GreekNumeral`` to an uppercase string.
    #[must_use]
    pub fn to_uppercase(self) -> (r: String)
        ensures
            r@ == render::spec_render(self@, true),
    {
        render::render(self.0, true)
    }

    /// Converts a ``GreekNumeral`` to a lowercase string.
    #[must_use]
    pub fn to_lowercase(self) -> (r: String)
        ensures
            r@ == render::spec_render(self@, false),
    {
        render::render(self.0, false)
    }
}

/// A numeral is determined by its value: conversions that agree on the
/// stored value yield the identical numeral.
pub proof fn lemma_value_determines_numeral(a: GreekNumeral, b: GreekNumeral)
    requires
        a@ == b@,
    ensures
        a == b,
{
}

impl TryFrom<u8> for GreekNumeral {
    type Error = OutOfRangeError;

    /// Creates a ``GreekNumeral`` from an ``u8``.
    ///
    /// Returns ``GreekNumeral`` or ``OutOfRangeError``.
    fn try_from(value: u8) -> (r: Result<Self, OutOfRangeError>)
        ensures
            0 <= value as int && value as int <= MAX as int <==> r is Ok,
            r matches Ok(g) ==> g@ == value as int,
            r matches Err(e) ==> e == OutOfRangeError,
    {
        Self::new(value as u32)
    }
}

impl vstd::std_specs::convert::TryFromSpecImpl<u8> for GreekNumeral {
    open spec fn obeys_try_from_spec() -> bool {
        true
    }

    open spec fn try_from_spec(v: u8) -> Result<Self, Self::Error> {
        if 0 <= v as int && v as int <= MAX as int {
            Ok(GreekNumeral::spec_from(v as u32))
        } else {
            Err(OutOfRangeError)
        }
    }
}

impl TryFrom<u16> for GreekNumeral {
    type Error = OutOfRangeError;

    /// Creates a ``GreekNumeral`` from an ``u16``.
    ///
    /// Returns ``GreekNumeral`` or ``OutOfRangeError``.
    fn try_from(value: u16) -> (r: Result<Self, OutOfRangeError>)
        ensures
            0 <= value as int && value as int <= MAX as int <==> r is Ok,
            r matches Ok(g) ==> g@ == value as int,
            r matches Err(e) ==> e == OutOfRangeError,
    {
        Self::new(value as u32)
    }
}

impl vstd::std_specs::convert::TryFromSpecImpl<u16> for GreekNumeral {
    open spec fn obeys_try_from_spec() -> bool {
        true
    }

    open spec fn try_from_spec(v: u16) -> Result<Self, Self::Error> {
        if 0 <= v as int && v as int <= MAX as int {
            Ok(GreekNumeral::spec_from(v as u32))
        } else {
            Err(OutOfRangeError)
        }
    }
}

impl TryFrom<u32> for GreekNumeral {
    type Error = OutOfRangeError;

    /// Creates a ``GreekNumeral`` from an ``u32``.
    ///
    /// Returns ``GreekNumeral`` or ``OutOfRangeError``.
    fn try_from(value: u32) -> (r: Result<Self, OutOfRangeError>)
        ensures
            0 <= value as int && value as int <= MAX as int <==> r is Ok,
            r matches Ok(g) ==> g@ == value as int,
            r matches Err(e) ==> e == OutOfRangeError,
    {
        Self::new(value)
    }
}

impl vstd::std_specs::convert::TryFromSpecImpl<u32> for GreekNumeral {
    open spec fn obeys_try_from_spec() -> bool {
        true
    }

    open spec fn try_from_spec(v: u32) -> Result<Self, Self::Error> {
        if 0 <= v as int && v as int <= MAX as int {
            Ok(GreekNumeral::spec_from(v as u32))
        } else {
            Err(OutOfRangeError)
        }
    }
}

impl TryFrom<u64> for GreekNumeral {
    type Error = OutOfRangeError;

    /// Creates a ``GreekNumeral`` from an ``u64``.
    ///
    /// Returns ``GreekNumeral`` or ``OutOfRangeError``.
    fn try_from(value: u64) -> (r: Result<Self, OutOfRangeError>)
        ensures
            0 <= value as int && value as int <= MAX as int <==> r is Ok,
            r matches Ok(g) ==> g@ == value as int,
            r matches Err(e) ==> e == OutOfRangeError,
    {
        if value <= MAX as u64 {
            Self::new(value as u32)
        } else {
            Err(OutOfRangeError)
        }
    }
}

impl vstd::std_specs::convert::TryFromSpecImpl<u64> for GreekNumeral {
    open spec fn obeys_try_from_spec() -> bool {
        true
    }

    open spec fn try_from_spec(v: u64) -> Result<Self, Self::Error> {
        if 0 <= v as int && v as int <= MAX as int {
            Ok(GreekNumeral::spec_from(v as u32))
        } else {
            Err(OutOfRangeError)
        }
    }
}

impl TryFrom<u128> for GreekNumeral {
    type Error = OutOfRangeError;

    /// Creates a ``GreekNumeral`` from an ``u128``.
    ///
    /// Returns ``GreekNumeral`` or ``OutOfRangeError``.
    fn try_from(value: u128) -> (r: Result<Self, OutOfRangeError>)
        ensures
            0 <= value as int && value as int <= MAX as int <==> r is Ok,
            r matches Ok(g) ==> g@ == value as int,
            r matches Err(e) ==> e == OutOfRangeError,
    {
        if value <= MAX as u128 {
            Self::new(value as u32)
        } else {
            Err(OutOfRangeError)
        }
    }
}

impl vstd::std_specs::convert::TryFromSpecImpl<u128> for GreekNumeral {
    open spec fn obeys_try_from_spec() -> bool {
        true
    }

    open spec fn try_from_spec(v: u128) -> Result<Self, Self::Error> {
        if 0 <= v as int && v as int <= MAX as int {
            Ok(GreekNumeral::spec_from(v as u32))
        } else {
            Err(OutOfRangeError)
        }
    }
}

impl TryFrom<usize> for GreekNumeral {
    type Error = OutOfRangeError;

    /// Creates a ``GreekNumeral`` from an ``usize``.
    ///
    /// Returns ``GreekNumeral`` or ``OutOfRangeError``.
    fn try_from(value: usize) -> (r: Result<Self, OutOfRangeError>)
        ensures
            0 <= value as int && value as int <= MAX as int <==> r is Ok,
            r matches Ok(g) ==> g@ == value as int,
            r matches Err(e) ==> e == OutOfRangeError,
    {
        if value <= MAX as usize {
            Self::new(value as u32)
        } else {
            Err(OutOfRangeError)
        }
    }
}

impl vstd::std_specs::convert::TryFromSpecImpl<usize> for GreekNumeral {
    open spec fn obeys_try_from_spec() -> bool {
        true
    }

    open spec fn try_from_spec(v: usize) -> Result<Self, Self::Error> {
        if 0 <= v as int && v as int <= MAX as int {
            Ok(GreekNumeral::spec_from(v as u32))
        } else {
            Err(OutOfRangeError)
        }
    }
}

impl TryFrom<i8> for GreekNumeral {
    type Error = OutOfRangeError;

    /// Creates a ``GreekNumeral`` from an ``i8``.
    ///
    /// Returns ``GreekNumeral`` or ``OutOfRangeError``.
    fn try_from(value: i8) -> (r: Result<Self, OutOfRangeError>)
        ensures
            0 <= value as int && value as int <= MAX as int <==> r is Ok,
            r matches Ok(g) ==> g@ == value as int,
            r matches Err(e) ==> e == OutOfRangeError,
    {
        if value >= 0 {
            Self::new(value as u32)
        } else {
            Err(OutOfRangeError)
        }
    }
}

impl vstd::std_specs::convert::TryFromSpecImpl<i8> for GreekNumeral {
    open spec fn obeys_try_from_spec() -> bool {
        true
    }

    open spec fn try_from_spec(v: i8) -> Result<Self, Self::Error> {
        if 0 <= v as int && v as int <= MAX as int {
            Ok(GreekNumeral::spec_from(v as u32))
        } else {
            Err(OutOfRangeError)
        }
    }
}

impl TryFrom<i16> for GreekNumeral {
    type Error = OutOfRangeError;

    /// Creates a ``GreekNumeral`` from an ``i16``.
    ///
    /// Returns ``GreekNumeral`` or ``OutOfRangeError``.
    fn try_from(value: i16) -> (r: Result<Self, OutOfRangeError>)
        ensures
            0 <= value as int && value as int <= MAX as int <==> r is Ok,
            r matches Ok(g) ==> g@ == value as int,
            r matches Err(e) ==> e == OutOfRangeError,
    {
        if value >= 0 {
            Self::new(value as u32)
        } else {
            Err(OutOfRangeError)
        }
    }
}

impl vstd::std_specs::convert::TryFromSpecImpl<i16> for GreekNumeral {
    open spec fn obeys_try_from_spec() -> bool {
        true
    }

    open spec fn try_from_spec(v: i16) -> Result<Self, Self::Error> {
        if 0 <= v as int && v as int <= MAX as int {
            Ok(GreekNumeral::spec_from(v as u32))
        } else {
            Err(OutOfRangeError)
        }
    }
}

impl TryFrom<i32> for GreekNumeral {
    type Error = OutOfRangeError;

    /// Creates a ``GreekNumeral`` from an ``i32``.
    ///
    /// Returns ``GreekNumeral`` or ``OutOfRangeError``.
    fn try_from(value: i32) -> (r: Result<Self, OutOfRangeError>)
        ensures
            0 <= value as int && value as int <= MAX as int <==> r is Ok,
            r matches Ok(g) ==> g@ == value as int,
            r matches Err(e) ==> e == OutOfRangeError,
    {
        if value >= 0 {
            Self::new(value as u32)
        } else {
            Err(OutOfRangeError)
        }
    }
}

impl vstd::std_specs::convert::TryFromSpecImpl<i32> for GreekNumeral {
    open spec fn obeys_try_from_spec() -> bool {
        true
    }

    open spec fn try_from_spec(v: i32) -> Result<Self, Self::Error> {
        if 0 <= v as int && v as int <= MAX as int {
            Ok(GreekNumeral::spec_from(v as u32))
        } else {
            Err(OutOfRangeError)
        }
    }
}

impl TryFrom<i64> for GreekNumeral {
    type Error = OutOfRangeError;

    /// Creates a ``GreekNumeral`` from an ``i64``.
    ///
    /// Returns ``GreekNumeral`` or ``OutOfRangeError``.
    fn try_from(value: i64) -> (r: Result<Self, OutOfRangeError>)
        ensures
            0 <= value as int && value as int <= MAX as int <==> r is Ok,
            r matches Ok(g) ==> g@ == value as int,
            r matches Err(e) ==> e == OutOfRangeError,
    {
        if 0 <= value && value <= MAX as i64 {
            Self::new(value as u32)
        } else {
            Err(OutOfRangeError)
        }
    }
}

impl vstd::std_specs::convert::TryFromSpecImpl<i64> for GreekNumeral {
    open spec fn obeys_try_from_spec() -> bool {
        true
    }

    open spec fn try_from_spec(v: i64) -> Result<Self, Self::Error> {
        if 0 <= v as int && v as int <= MAX as int {
            Ok(GreekNumeral::spec_from(v as u32))
        } else {
            Err(OutOfRangeError)
        }
    }
}

impl TryFrom<i128> for GreekNumeral {
    type Error = OutOfRangeError;

    /// Creates a ``GreekNumeral`` from an ``i128``.
    ///
    /// Returns ``GreekNumeral`` or ``OutOfRangeError``.
    fn try_from(value: i128) -> (r: Result<Self, OutOfRangeError>)
        ensures
            0 <= value as int && value as int <= MAX as int <==> r is Ok,
            r matches Ok(g) ==> g@ == value as int,
            r matches Err(e) ==> e == OutOfRangeError,
    {
        if 0 <= value && value <= MAX as i128 {
            Self::new(value as u32)
        } else {
            Err(OutOfRangeError)
        }
    }
}

impl vstd::std_specs::convert::TryFromSpecImpl<i128> for GreekNumeral {
    open spec fn obeys_try_from_spec() -> bool {
        true
    }

    open spec fn try_from_spec(v: i128) -> Result<Self, Self::Error> {
        if 0 <= v as int && v as int <= MAX as int {
            Ok(GreekNumeral::spec_from(v as u32))
        } else {
            Err(OutOfRangeError)
        }
    }
}

} // verus!
