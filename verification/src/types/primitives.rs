//! Scalar types, string types and references to other definitions.

use vstd::prelude::*;
use vstd::std_specs::convert::FromSpecImpl;

verus! {

/// A built-in scalar type of fixed width.
#[derive(Debug, Clone, Copy, PartialEq, Eq, Hash, Structural)]
pub enum BasicType {
    I8,
    I16,
    I32,
    I64,
    U8,
    U16,
    U32,
    U64,
    F32,
    F64,
    Bool,
    Char,
    Byte,
}

impl BasicType {
    /// Whether values of the type are integers. `char` and `byte` are
    /// unsigned eight-bit integers.
    pub open spec fn is_integer(self) -> bool {
        !(self is F32 || self is F64 || self is Bool)
    }

    /// The least value of an integer type.
    pub open spec fn min_value(self) -> int {
        match self {
            BasicType::I8 => -0x80,
            BasicType::I16 => -0x8000,
            BasicType::I32 => -0x8000_0000,
            BasicType::I64 => -0x8000_0000_0000_0000,
            _ => 0,
        }
    }

    /// The greatest value of an integer type.
    pub open spec fn max_value(self) -> int {
        match self {
            BasicType::I8 => 0x7f,
            BasicType::I16 => 0x7fff,
            BasicType::I32 => 0x7fff_ffff,
            BasicType::I64 => 0x7fff_ffff_ffff_ffff,
            BasicType::U8 | BasicType::Char | BasicType::Byte => 0xff,
            BasicType::U16 => 0xffff,
            BasicType::U32 => 0xffff_ffff,
            BasicType::U64 => 0xffff_ffff_ffff_ffff,
            _ => 0,
        }
    }

    /// The magnitude of the least value of the type.
    pub fn min_magnitude(self) -> (m: u128)
        ensures
            m == -self.min_value(),
            m <= 0x8000_0000_0000_0000,
    {
        match self {
            BasicType::I8 => 0x80,
            BasicType::I16 => 0x8000,
            BasicType::I32 => 0x8000_0000,
            BasicType::I64 => 0x8000_0000_0000_0000,
            _ => 0,
        }
    }

    /// The greatest value of the type.
    pub fn max_magnitude(self) -> (m: u128)
        ensures
            m == self.max_value(),
            m <= 0xffff_ffff_ffff_ffff,
    {
        match self {
            BasicType::I8 => 0x7f,
            BasicType::I16 => 0x7fff,
            BasicType::I32 => 0x7fff_ffff,
            BasicType::I64 => 0x7fff_ffff_ffff_ffff,
            BasicType::U8 | BasicType::Char | BasicType::Byte => 0xff,
            BasicType::U16 => 0xffff,
            BasicType::U32 => 0xffff_ffff,
            BasicType::U64 => 0xffff_ffff_ffff_ffff,
            _ => 0,
        }
    }
}

/// A string type, narrow or wide, with or without a bound on its length.
#[derive(Debug, Clone, Copy, PartialEq, Eq, Hash, Structural)]
pub enum GenericString {
    String,
    WString,
    BoundedString(usize),
    BoundedWString(usize),
}

impl GenericString {
    /// The greatest length of a value of the type, if it is bounded.
    pub open spec fn bound(self) -> Option<usize> {
        match self {
            GenericString::String | GenericString::WString => None,
            GenericString::BoundedString(n) | GenericString::BoundedWString(n) => Some(n),
        }
    }

    /// Executable form of [`GenericString::bound`].
    pub fn max_len(self) -> (r: Option<usize>)
        ensures
            r == self.bound(),
    {
        match self {
            GenericString::String | GenericString::WString => None,
            GenericString::BoundedString(n) | GenericString::BoundedWString(n) => Some(n),
        }
    }
}

/// A string type without a bound.
#[derive(Debug, Clone, Copy, PartialEq, Eq, Hash, Structural)]
pub enum GenericUnboundedString {
    String,
    WString,
}

impl GenericUnboundedString {
    /// The same type among the string types at large.
    pub open spec fn as_generic(self) -> GenericString {
        match self {
            GenericUnboundedString::String => GenericString::String,
            GenericUnboundedString::WString => GenericString::WString,
        }
    }
}

impl From<GenericUnboundedString> for GenericString {
    fn from(t: GenericUnboundedString) -> (r: Self) {
        match t {
            GenericUnboundedString::String => GenericString::String,
            GenericUnboundedString::WString => GenericString::WString,
        }
    }
}

impl FromSpecImpl<GenericUnboundedString> for GenericString {
    open spec fn obeys_from_spec() -> bool {
        true
    }

    open spec fn from_spec(t: GenericUnboundedString) -> Self {
        t.as_generic()
    }
}

/// A type whose values can be written as literals.
#[derive(Debug, Clone, Copy, PartialEq, Eq, Hash, Structural)]
pub enum PrimitiveType {
    BasicType(BasicType),
    GenericUnboundedString(GenericUnboundedString),
}

impl From<BasicType> for PrimitiveType {
    fn from(t: BasicType) -> (r: Self) {
        PrimitiveType::BasicType(t)
    }
}

impl FromSpecImpl<BasicType> for PrimitiveType {
    open spec fn obeys_from_spec() -> bool {
        true
    }

    open spec fn from_spec(t: BasicType) -> Self {
        PrimitiveType::BasicType(t)
    }
}

impl From<GenericUnboundedString> for PrimitiveType {
    fn from(t: GenericUnboundedString) -> (r: Self) {
        PrimitiveType::GenericUnboundedString(t)
    }
}

impl FromSpecImpl<GenericUnboundedString> for PrimitiveType {
    open spec fn obeys_from_spec() -> bool {
        true
    }

    open spec fn from_spec(t: GenericUnboundedString) -> Self {
        PrimitiveType::GenericUnboundedString(t)
    }
}

/// A reference by bare name to a definition whose package is not given.
#[derive(Debug, Clone, PartialEq, Eq, Hash)]
pub struct NamedType(pub String);

impl View for NamedType {
    type V = Seq<char>;

    open spec fn view(&self) -> Seq<char> {
        self.0@
    }
}

/// A reference to a definition by package, namespace and name.
#[derive(Debug, Clone, PartialEq, Eq, Hash)]
pub struct NamespacedType {
    /// The package of the definition.
    pub package: String,
    /// The namespace in the package: `msg`, `srv` or `action`.
    pub namespace: String,
    /// The name of the definition.
    pub name: String,
}

/// The mathematical content of a [`NamespacedType`].
pub struct NamespacedTypeView {
    pub package: Seq<char>,
    pub namespace: Seq<char>,
    pub name: Seq<char>,
}

impl View for NamespacedType {
    type V = NamespacedTypeView;

    open spec fn view(&self) -> NamespacedTypeView {
        NamespacedTypeView {
            package: self.package@,
            namespace: self.namespace@,
            name: self.name@,
        }
    }
}

/// A type that may stand alone or as the element type of an array or
/// sequence.
#[derive(Debug, Clone, PartialEq, Eq, Hash)]
pub enum NestableType {
    BasicType(BasicType),
    NamedType(NamedType),
    NamespacedType(NamespacedType),
    GenericString(GenericString),
}

/// The mathematical content of a [`NestableType`].
pub enum NestableTypeView {
    BasicType(BasicType),
    NamedType(Seq<char>),
    NamespacedType(NamespacedTypeView),
    GenericString(GenericString),
}

impl NestableTypeView {
    /// Whether values of the type can be written as literals: references
    /// to other definitions cannot.
    pub open spec fn is_primitive(self) -> bool {
        self is BasicType || self is GenericString
    }
}

impl View for NestableType {
    type V = NestableTypeView;

    open spec fn view(&self) -> NestableTypeView {
        match self {
            NestableType::BasicType(t) => NestableTypeView::BasicType(*t),
            NestableType::NamedType(t) => NestableTypeView::NamedType(t@),
            NestableType::NamespacedType(t) => NestableTypeView::NamespacedType(t@),
            NestableType::GenericString(t) => NestableTypeView::GenericString(*t),
        }
    }
}

impl From<BasicType> for NestableType {
    fn from(t: BasicType) -> (r: Self) {
        NestableType::BasicType(t)
    }
}

impl FromSpecImpl<BasicType> for NestableType {
    open spec fn obeys_from_spec() -> bool {
        true
    }

    open spec fn from_spec(t: BasicType) -> Self {
        NestableType::BasicType(t)
    }
}

impl From<NamedType> for NestableType {
    fn from(t: NamedType) -> (r: Self) {
        NestableType::NamedType(t)
    }
}

impl FromSpecImpl<NamedType> for NestableType {
    open spec fn obeys_from_spec() -> bool {
        true
    }

    open spec fn from_spec(t: NamedType) -> Self {
        NestableType::NamedType(t)
    }
}

impl From<NamespacedType> for NestableType {
    fn from(t: NamespacedType) -> (r: Self) {
        NestableType::NamespacedType(t)
    }
}

impl FromSpecImpl<NamespacedType> for NestableType {
    open spec fn obeys_from_spec() -> bool {
        true
    }

    open spec fn from_spec(t: NamespacedType) -> Self {
        NestableType::NamespacedType(t)
    }
}

impl From<GenericString> for NestableType {
    fn from(t: GenericString) -> (r: Self) {
        NestableType::GenericString(t)
    }
}

impl FromSpecImpl<GenericString> for NestableType {
    open spec fn obeys_from_spec() -> bool {
        true
    }

    open spec fn from_spec(t: GenericString) -> Self {
        NestableType::GenericString(t)
    }
}

} // verus!
