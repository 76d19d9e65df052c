//! The types that a member of a message may have.

use vstd::prelude::*;
use vstd::std_specs::convert::FromSpecImpl;
use crate::types::primitives::{
    BasicType, GenericString, NamedType, NamespacedType, NestableType, NestableTypeView,
};
use crate::types::sequences::{
    Array, ArrayView, BoundedSequence, BoundedSequenceView, Sequence, SequenceView,
};

verus! {

/// A type which is available for a member.
#[derive(Debug, Clone, PartialEq, Eq, Hash)]
pub enum MemberType {
    NestableType(NestableType),
    Array(Array),
    Sequence(Sequence),
    BoundedSequence(BoundedSequence),
}

/// The mathematical content of a [`MemberType`].
pub enum MemberTypeView {
    NestableType(NestableTypeView),
    Array(ArrayView),
    Sequence(SequenceView),
    BoundedSequence(BoundedSequenceView),
}

impl MemberTypeView {
    /// The type itself, or the type of the elements of an array or
    /// sequence.
    pub open spec fn value_type(self) -> NestableTypeView {
        match self {
            MemberTypeView::NestableType(t) => t,
            MemberTypeView::Array(t) => t.value_type,
            MemberTypeView::Sequence(t) => t.value_type,
            MemberTypeView::BoundedSequence(t) => t.value_type,
        }
    }

    /// Whether a default of `n` values has the number of values that the
    /// type asks for: one for a type that stands alone, the size of an
    /// array, at most the bound of a bounded sequence, any number for a
    /// sequence.
    pub open spec fn admits_len(self, n: nat) -> bool {
        match self {
            MemberTypeView::NestableType(_) => n == 1,
            MemberTypeView::Array(t) => n == t.size,
            MemberTypeView::Sequence(_) => true,
            MemberTypeView::BoundedSequence(t) => n <= t.max_size,
        }
    }
}

impl View for MemberType {
    type V = MemberTypeView;

    open spec fn view(&self) -> MemberTypeView {
        match self {
            MemberType::NestableType(t) => MemberTypeView::NestableType(t@),
            MemberType::Array(t) => MemberTypeView::Array(t@),
            MemberType::Sequence(t) => MemberTypeView::Sequence(t@),
            MemberType::BoundedSequence(t) => MemberTypeView::BoundedSequence(t@),
        }
    }
}

impl From<NestableType> for MemberType {
    fn from(t: NestableType) -> (r: Self) {
        MemberType::NestableType(t)
    }
}

impl FromSpecImpl<NestableType> for MemberType {
    open spec fn obeys_from_spec() -> bool {
        true
    }

    open spec fn from_spec(t: NestableType) -> Self {
        MemberType::NestableType(t)
    }
}

impl From<Array> for MemberType {
    fn from(t: Array) -> (r: Self) {
        MemberType::Array(t)
    }
}

impl FromSpecImpl<Array> for MemberType {
    open spec fn obeys_from_spec() -> bool {
        true
    }

    open spec fn from_spec(t: Array) -> Self {
        MemberType::Array(t)
    }
}

impl From<Sequence> for MemberType {
    fn from(t: Sequence) -> (r: Self) {
        MemberType::Sequence(t)
    }
}

impl FromSpecImpl<Sequence> for MemberType {
    open spec fn obeys_from_spec() -> bool {
        true
    }

    open spec fn from_spec(t: Sequence) -> Self {
        MemberType::Sequence(t)
    }
}

impl From<BoundedSequence> for MemberType {
    fn from(t: BoundedSequence) -> (r: Self) {
        MemberType::BoundedSequence(t)
    }
}

impl FromSpecImpl<BoundedSequence> for MemberType {
    open spec fn obeys_from_spec() -> bool {
        true
    }

    open spec fn from_spec(t: BoundedSequence) -> Self {
        MemberType::BoundedSequence(t)
    }
}

impl From<BasicType> for MemberType {
    fn from(t: BasicType) -> (r: Self) {
        MemberType::NestableType(NestableType::BasicType(t))
    }
}

impl FromSpecImpl<BasicType> for MemberType {
    open spec fn obeys_from_spec() -> bool {
        true
    }

    open spec fn from_spec(t: BasicType) -> Self {
        MemberType::NestableType(NestableType::BasicType(t))
    }
}

impl From<NamedType> for MemberType {
    fn from(t: NamedType) -> (r: Self) {
        MemberType::NestableType(NestableType::NamedType(t))
    }
}

impl FromSpecImpl<NamedType> for MemberType {
    open spec fn obeys_from_spec() -> bool {
        true
    }

    open spec fn from_spec(t: NamedType) -> Self {
        MemberType::NestableType(NestableType::NamedType(t))
    }
}

impl From<NamespacedType> for MemberType {
    fn from(t: NamespacedType) -> (r: Self) {
        MemberType::NestableType(NestableType::NamespacedType(t))
    }
}

impl FromSpecImpl<NamespacedType> for MemberType {
    open spec fn obeys_from_spec() -> bool {
        true
    }

    open spec fn from_spec(t: NamespacedType) -> Self {
        MemberType::NestableType(NestableType::NamespacedType(t))
    }
}

impl From<GenericString> for MemberType {
    fn from(t: GenericString) -> (r: Self) {
        MemberType::NestableType(NestableType::GenericString(t))
    }
}

impl FromSpecImpl<GenericString> for MemberType {
    open spec fn obeys_from_spec() -> bool {
        true
    }

    open spec fn from_spec(t: GenericString) -> Self {
        MemberType::NestableType(NestableType::GenericString(t))
    }
}

} // verus!
