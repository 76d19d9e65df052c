//! Arrays and sequences of nestable types.

use vstd::prelude::*;
use crate::types::primitives::{NestableType, NestableTypeView, PrimitiveType};

verus! {

/// An array of fixed size.
#[derive(Debug, Clone, PartialEq, Eq, Hash)]
pub struct Array {
    /// The type of the elements.
    pub value_type: NestableType,
    /// The number of elements.
    pub size: usize,
}

/// The mathematical content of an [`Array`].
pub struct ArrayView {
    pub value_type: NestableTypeView,
    pub size: usize,
}

impl View for Array {
    type V = ArrayView;

    open spec fn view(&self) -> ArrayView {
        ArrayView { value_type: self.value_type@, size: self.size }
    }
}

/// A sequence of any length.
#[derive(Debug, Clone, PartialEq, Eq, Hash)]
pub struct Sequence {
    /// The type of the elements.
    pub value_type: NestableType,
}

/// The mathematical content of a [`Sequence`].
pub struct SequenceView {
    pub value_type: NestableTypeView,
}

impl View for Sequence {
    type V = SequenceView;

    open spec fn view(&self) -> SequenceView {
        SequenceView { value_type: self.value_type@ }
    }
}

/// A sequence with a greatest length.
#[derive(Debug, Clone, PartialEq, Eq, Hash)]
pub struct BoundedSequence {
    /// The type of the elements.
    pub value_type: NestableType,
    /// The greatest number of elements.
    pub max_size: usize,
}

/// The mathematical content of a [`BoundedSequence`].
pub struct BoundedSequenceView {
    pub value_type: NestableTypeView,
    pub max_size: usize,
}

impl View for BoundedSequence {
    type V = BoundedSequenceView;

    open spec fn view(&self) -> BoundedSequenceView {
        BoundedSequenceView { value_type: self.value_type@, max_size: self.max_size }
    }
}

/// An array of fixed size whose elements can be written as literals.
#[derive(Debug, Clone, Copy, PartialEq, Eq, Hash, Structural)]
pub struct PrimitiveArray {
    /// The type of the elements.
    pub value_type: PrimitiveType,
    /// The number of elements.
    pub size: usize,
}

} // verus!
