//! The types that a constant may have.

use vstd::prelude::*;
use vstd::std_specs::convert::FromSpecImpl;
use crate::types::primitives::{BasicType, GenericUnboundedString, PrimitiveType};
use crate::types::sequences::PrimitiveArray;

verus! {

/// A type which is available for a constant.
#[derive(Debug, Clone, Copy, PartialEq, Eq, Hash, Structural)]
pub enum ConstantType {
    PrimitiveType(PrimitiveType),
    PrimitiveArray(PrimitiveArray),
}

impl ConstantType {
    /// The type itself, or the type of the elements of an array.
    pub open spec fn value_type(self) -> PrimitiveType {
        match self {
            ConstantType::PrimitiveType(t) => t,
            ConstantType::PrimitiveArray(t) => t.value_type,
        }
    }

    /// Whether a value of `n` literals has the number of literals that
    /// the type asks for: one for a type that stands alone, the size of
    /// an array.
    pub open spec fn admits_len(self, n: nat) -> bool {
        match self {
            ConstantType::PrimitiveType(_) => n == 1,
            ConstantType::PrimitiveArray(t) => n == t.size,
        }
    }
}

impl From<PrimitiveType> for ConstantType {
    fn from(t: PrimitiveType) -> (r: Self) {
        ConstantType::PrimitiveType(t)
    }
}

impl FromSpecImpl<PrimitiveType> for ConstantType {
    open spec fn obeys_from_spec() -> bool {
        true
    }

    open spec fn from_spec(t: PrimitiveType) -> Self {
        ConstantType::PrimitiveType(t)
    }
}

impl From<PrimitiveArray> for ConstantType {
    fn from(t: PrimitiveArray) -> (r: Self) {
        ConstantType::PrimitiveArray(t)
    }
}

impl FromSpecImpl<PrimitiveArray> for ConstantType {
    open spec fn obeys_from_spec() -> bool {
        true
    }

    open spec fn from_spec(t: PrimitiveArray) -> Self {
        ConstantType::PrimitiveArray(t)
    }
}

impl From<BasicType> for ConstantType {
    fn from(t: BasicType) -> (r: Self) {
        ConstantType::PrimitiveType(PrimitiveType::BasicType(t))
    }
}

impl FromSpecImpl<BasicType> for ConstantType {
    open spec fn obeys_from_spec() -> bool {
        true
    }

    open spec fn from_spec(t: BasicType) -> Self {
        ConstantType::PrimitiveType(PrimitiveType::BasicType(t))
    }
}

impl From<GenericUnboundedString> for ConstantType {
    fn from(t: GenericUnboundedString) -> (r: Self) {
        ConstantType::PrimitiveType(PrimitiveType::GenericUnboundedString(t))
    }
}

impl FromSpecImpl<GenericUnboundedString> for ConstantType {
    open spec fn obeys_from_spec() -> bool {
        true
    }

    open spec fn from_spec(t: GenericUnboundedString) -> Self {
        ConstantType::PrimitiveType(PrimitiveType::GenericUnboundedString(t))
    }
}

} // verus!
