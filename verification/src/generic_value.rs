//! Decoding of the driver's dynamically typed values.

use vstd::prelude::*;
use crate::bindings::VAGenericValue;
use crate::bindings::VAGenericValuePayload;
use crate::constants::VA_GENERIC_VALUE_TYPE_FLOAT;
use crate::constants::VA_GENERIC_VALUE_TYPE_FUNC;
use crate::constants::VA_GENERIC_VALUE_TYPE_INTEGER;
use crate::constants::VA_GENERIC_VALUE_TYPE_POINTER;

verus! {

/// A [`VAGenericValue`] whose discriminant has been checked, so that only the
/// reading it selects is left.
#[derive(Clone, Copy, Debug, PartialEq, Eq, Structural)]
pub enum GenericValue {
    /// A 32-bit signed integer.
    Integer(i32),
    /// The bit pattern of a 32-bit float.
    Float(u32),
    /// An address.
    Pointer(usize),
    /// The address of a function.
    Func(usize),
}

/// Why a [`VAGenericValue`] could not be decoded.
#[derive(Clone, Copy, Debug, PartialEq, Eq, Structural)]
pub enum GenericValueError {
    /// The discriminant, carried here, names none of the four known kinds.
    UnexpectedType(u32),
}

/// The decoding of `value`: the reading selected by its discriminant, or the
/// discriminant itself when it selects none.
pub open spec fn decoded(value: VAGenericValue) -> Result<GenericValue, GenericValueError> {
    if value.type_ == VA_GENERIC_VALUE_TYPE_INTEGER {
        Ok(GenericValue::Integer(value.value.i))
    } else if value.type_ == VA_GENERIC_VALUE_TYPE_FLOAT {
        Ok(GenericValue::Float(value.value.f))
    } else if value.type_ == VA_GENERIC_VALUE_TYPE_POINTER {
        Ok(GenericValue::Pointer(value.value.p))
    } else if value.type_ == VA_GENERIC_VALUE_TYPE_FUNC {
        Ok(GenericValue::Func(value.value.func))
    } else {
        Err(GenericValueError::UnexpectedType(value.type_))
    }
}

impl GenericValue {
    /// Decodes `value` by its discriminant. Fails with
    /// [`GenericValueError::UnexpectedType`] when the discriminant is not one
    /// of the four known kinds.
    pub fn try_from(value: VAGenericValue) -> (r: Result<GenericValue, GenericValueError>)
        ensures
            r == decoded(value),
    {
        if value.type_ == VA_GENERIC_VALUE_TYPE_INTEGER {
            Ok(GenericValue::Integer(value.value.i))
        } else if value.type_ == VA_GENERIC_VALUE_TYPE_FLOAT {
            Ok(GenericValue::Float(value.value.f))
        } else if value.type_ == VA_GENERIC_VALUE_TYPE_POINTER {
            Ok(GenericValue::Pointer(value.value.p))
        } else if value.type_ == VA_GENERIC_VALUE_TYPE_FUNC {
            Ok(GenericValue::Func(value.value.func))
        } else {
            Err(GenericValueError::UnexpectedType(value.type_))
        }
    }
}

impl TryFrom<VAGenericValue> for GenericValue {
    type Error = GenericValueError;

    /// Decodes `value` by its discriminant, as [`GenericValue::try_from`]
    /// does.
    fn try_from(value: VAGenericValue) -> (r: Result<Self, Self::Error>) {
        GenericValue::try_from(value)
    }
}

impl vstd::std_specs::convert::TryFromSpecImpl<VAGenericValue> for GenericValue {
    open spec fn obeys_try_from_spec() -> bool {
        true
    }

    open spec fn try_from_spec(value: VAGenericValue) -> Result<Self, Self::Error> {
        decoded(value)
    }
}

impl VAGenericValue {
    /// The value of integer kind that reads as `i`; its other readings are
    /// zero.
    pub open spec fn integer(i: i32) -> VAGenericValue {
        VAGenericValue {
            type_: VA_GENERIC_VALUE_TYPE_INTEGER,
            value: VAGenericValuePayload { i, f: 0, p: 0, func: 0 },
        }
    }

    /// The value of float kind whose bit pattern is `bits`; its other
    /// readings are zero.
    pub open spec fn float(bits: u32) -> VAGenericValue {
        VAGenericValue {
            type_: VA_GENERIC_VALUE_TYPE_FLOAT,
            value: VAGenericValuePayload { i: 0, f: bits, p: 0, func: 0 },
        }
    }

    /// The value of pointer kind that reads as the address `p`; its other
    /// readings are zero.
    pub open spec fn pointer(p: usize) -> VAGenericValue {
        VAGenericValue {
            type_: VA_GENERIC_VALUE_TYPE_POINTER,
            value: VAGenericValuePayload { i: 0, f: 0, p, func: 0 },
        }
    }

    /// A generic value of integer kind that reads as `i`.
    pub fn from_i32(i: i32) -> (value: Self)
        ensures
            value == Self::integer(i),
    {
        VAGenericValue {
            type_: VA_GENERIC_VALUE_TYPE_INTEGER,
            value: VAGenericValuePayload { i, f: 0, p: 0, func: 0 },
        }
    }

    /// A generic value of float kind whose bit pattern is `bits`.
    pub fn from_f32_bits(bits: u32) -> (value: Self)
        ensures
            value == Self::float(bits),
    {
        VAGenericValue {
            type_: VA_GENERIC_VALUE_TYPE_FLOAT,
            value: VAGenericValuePayload { i: 0, f: bits, p: 0, func: 0 },
        }
    }

    /// A generic value of pointer kind that reads as the address `p`.
    pub fn from_pointer(p: usize) -> (value: Self)
        ensures
            value == Self::pointer(p),
    {
        VAGenericValue {
            type_: VA_GENERIC_VALUE_TYPE_POINTER,
            value: VAGenericValuePayload { i: 0, f: 0, p, func: 0 },
        }
    }
}

impl From<i32> for VAGenericValue {
    /// A generic value of integer kind that reads as `i`.
    fn from(i: i32) -> (value: Self) {
        VAGenericValue::from_i32(i)
    }
}

impl vstd::std_specs::convert::FromSpecImpl<i32> for VAGenericValue {
    open spec fn obeys_from_spec() -> bool {
        true
    }

    open spec fn from_spec(i: i32) -> Self {
        Self::integer(i)
    }
}

impl From<usize> for VAGenericValue {
    /// A generic value of pointer kind that reads as the address `p`.
    fn from(p: usize) -> (value: Self) {
        VAGenericValue::from_pointer(p)
    }
}

impl vstd::std_specs::convert::FromSpecImpl<usize> for VAGenericValue {
    open spec fn obeys_from_spec() -> bool {
        true
    }

    open spec fn from_spec(p: usize) -> Self {
        Self::pointer(p)
    }
}

} // verus!
