//! The grammar of types.
//!
//! A type is a base, optionally followed by a suffix in brackets. The
//! base is a keyword of a basic type, `string` or `wstring` with an
//! optional bound `<=N`, a reference `package/Name`, or a bare name.
//! The suffix `[]` makes a sequence, `[N]` an array of `N` elements, and
//! `[<=N]` a sequence of at most `N` elements.

use vstd::prelude::*;
use crate::decimal::{all_digits, decimal_value, parse_decimal};
use crate::parser::ident::{is_package_name, is_reference_name, package_name, reference_name};
use crate::text::{
    after_prefix, chars_eq, find_char, find_from, has_prefix, lemma_find_from_bounds, slice_of,
    string_of_all, strip_prefix,
};
use crate::types::constant::ConstantType;
use crate::types::member::{MemberType, MemberTypeView};
use crate::types::primitives::{
    BasicType, GenericString, GenericUnboundedString, NamedType, NamespacedType,
    NamespacedTypeView, NestableType, NestableTypeView, PrimitiveType,
};
use crate::types::sequences::{
    Array, ArrayView, BoundedSequence, BoundedSequenceView, PrimitiveArray, Sequence,
    SequenceView,
};

verus! {

/// The basic type that the keyword `s` names.
pub open spec fn basic_type_of(s: Seq<char>) -> Option<BasicType> {
    if s == "bool"@ {
        Some(BasicType::Bool)
    } else if s == "byte"@ {
        Some(BasicType::Byte)
    } else if s == "char"@ {
        Some(BasicType::Char)
    } else if s == "float32"@ {
        Some(BasicType::F32)
    } else if s == "float64"@ {
        Some(BasicType::F64)
    } else if s == "int8"@ {
        Some(BasicType::I8)
    } else if s == "uint8"@ {
        Some(BasicType::U8)
    } else if s == "int16"@ {
        Some(BasicType::I16)
    } else if s == "uint16"@ {
        Some(BasicType::U16)
    } else if s == "int32"@ {
        Some(BasicType::I32)
    } else if s == "uint32"@ {
        Some(BasicType::U32)
    } else if s == "int64"@ {
        Some(BasicType::I64)
    } else if s == "uint64"@ {
        Some(BasicType::U64)
    } else {
        None
    }
}

/// Reads `v` as the keyword of a basic type.
pub fn parse_basic_type(v: &Vec<char>) -> (r: Option<BasicType>)
    ensures
        r == basic_type_of(v@),
{
    if chars_eq(v, "bool") {
        Some(BasicType::Bool)
    } else if chars_eq(v, "byte") {
        Some(BasicType::Byte)
    } else if chars_eq(v, "char") {
        Some(BasicType::Char)
    } else if chars_eq(v, "float32") {
        Some(BasicType::F32)
    } else if chars_eq(v, "float64") {
        Some(BasicType::F64)
    } else if chars_eq(v, "int8") {
        Some(BasicType::I8)
    } else if chars_eq(v, "uint8") {
        Some(BasicType::U8)
    } else if chars_eq(v, "int16") {
        Some(BasicType::I16)
    } else if chars_eq(v, "uint16") {
        Some(BasicType::U16)
    } else if chars_eq(v, "int32") {
        Some(BasicType::I32)
    } else if chars_eq(v, "uint32") {
        Some(BasicType::U32)
    } else if chars_eq(v, "int64") {
        Some(BasicType::I64)
    } else if chars_eq(v, "uint64") {
        Some(BasicType::U64)
    } else {
        None
    }
}

/// The size that `s` denotes: at least one digit, and a value that a
/// `usize` can hold.
pub open spec fn size_literal(s: Seq<char>) -> Option<usize> {
    if s.len() > 0 && all_digits(s) && decimal_value(s) <= usize::MAX {
        Some(decimal_value(s) as usize)
    } else {
        None
    }
}

/// Reads `v` as a size.
pub fn parse_size(v: &Vec<char>) -> (r: Option<usize>)
    ensures
        r == size_literal(v@),
{
    match parse_decimal(v, usize::MAX as u128) {
        Some(n) => Some(n as usize),
        None => None,
    }
}

/// The string type that `s` names: `string` or `wstring`, with an
/// optional bound `<=N`.
pub open spec fn generic_string_of(s: Seq<char>) -> Option<GenericString> {
    if s == "string"@ {
        Some(GenericString::String)
    } else if s == "wstring"@ {
        Some(GenericString::WString)
    } else if has_prefix(s, "string<="@) {
        match size_literal(after_prefix(s, "string<="@)) {
            Some(n) => Some(GenericString::BoundedString(n)),
            None => None,
        }
    } else if has_prefix(s, "wstring<="@) {
        match size_literal(after_prefix(s, "wstring<="@)) {
            Some(n) => Some(GenericString::BoundedWString(n)),
            None => None,
        }
    } else {
        None
    }
}

/// Reads `v` as a string type.
pub fn parse_generic_string(v: &Vec<char>) -> (r: Option<GenericString>)
    ensures
        r == generic_string_of(v@),
{
    if chars_eq(v, "string") {
        return Some(GenericString::String);
    }
    if chars_eq(v, "wstring") {
        return Some(GenericString::WString);
    }
    match strip_prefix(v, "string<=") {
        Some(rest) => {
            return match parse_size(&rest) {
                Some(n) => Some(GenericString::BoundedString(n)),
                None => None,
            };
        },
        None => {},
    }
    match strip_prefix(v, "wstring<=") {
        Some(rest) => match parse_size(&rest) {
            Some(n) => Some(GenericString::BoundedWString(n)),
            None => None,
        },
        None => None,
    }
}

/// The primitive type that `s` names: a basic type, `string` or
/// `wstring`.
pub open spec fn primitive_type_of(s: Seq<char>) -> Option<PrimitiveType> {
    match basic_type_of(s) {
        Some(t) => Some(PrimitiveType::BasicType(t)),
        None => if s == "string"@ {
            Some(PrimitiveType::GenericUnboundedString(GenericUnboundedString::String))
        } else if s == "wstring"@ {
            Some(PrimitiveType::GenericUnboundedString(GenericUnboundedString::WString))
        } else {
            None
        },
    }
}

/// Reads `v` as a primitive type.
pub fn parse_primitive_type(v: &Vec<char>) -> (r: Option<PrimitiveType>)
    ensures
        r == primitive_type_of(v@),
{
    match parse_basic_type(v) {
        Some(t) => Some(PrimitiveType::BasicType(t)),
        None => if chars_eq(v, "string") {
            Some(PrimitiveType::GenericUnboundedString(GenericUnboundedString::String))
        } else if chars_eq(v, "wstring") {
            Some(PrimitiveType::GenericUnboundedString(GenericUnboundedString::WString))
        } else {
            None
        },
    }
}

/// The reference that `s` makes to a type defined elsewhere:
/// `package/Name`, which refers to `Name` in the namespace `msg` of
/// `package`, or a bare name.
pub open spec fn reference_of(s: Seq<char>) -> Option<NestableTypeView> {
    let k = find_from(s, '/', 0);
    if k < s.len() {
        let package = s.subrange(0, k);
        let name = s.subrange(k + 1, s.len() as int);
        if is_package_name(package) && is_reference_name(name) {
            Some(
                NestableTypeView::NamespacedType(
                    NamespacedTypeView { package, namespace: "msg"@, name },
                ),
            )
        } else {
            None
        }
    } else if is_reference_name(s) {
        Some(NestableTypeView::NamedType(s))
    } else {
        None
    }
}

/// The nestable type that `s` names. A keyword names a basic type or a
/// string type; any other name refers to a type defined elsewhere.
pub open spec fn nestable_type_of(s: Seq<char>) -> Option<NestableTypeView> {
    match basic_type_of(s) {
        Some(t) => Some(NestableTypeView::BasicType(t)),
        None => match generic_string_of(s) {
            Some(g) => Some(NestableTypeView::GenericString(g)),
            None => reference_of(s),
        },
    }
}

/// The content of an optional nestable type.
pub open spec fn opt_nestable_view(r: Option<NestableType>) -> Option<NestableTypeView> {
    match r {
        Some(t) => Some(t@),
        None => None,
    }
}

/// Reads `v` as a reference to a type defined elsewhere.
fn parse_reference(v: &Vec<char>) -> (r: Option<NestableType>)
    ensures
        opt_nestable_view(r) == reference_of(v@),
{
    let n = v.len();
    let k = find_char(v, '/', 0);
    if k < n {
        let package = slice_of(v, 0, k);
        let name = slice_of(v, k + 1, n);
        if package_name(&package) && reference_name(&name) {
            Some(
                NestableType::NamespacedType(
                    NamespacedType {
                        package: string_of_all(&package),
                        namespace: String::from_str("msg"),
                        name: string_of_all(&name),
                    },
                ),
            )
        } else {
            None
        }
    } else if reference_name(v) {
        Some(NestableType::NamedType(NamedType(string_of_all(v))))
    } else {
        None
    }
}

/// Reads `v` as a nestable type.
pub fn parse_nestable_type(v: &Vec<char>) -> (r: Option<NestableType>)
    ensures
        opt_nestable_view(r) == nestable_type_of(v@),
{
    match parse_basic_type(v) {
        Some(t) => Some(NestableType::BasicType(t)),
        None => match parse_generic_string(v) {
            Some(g) => Some(NestableType::GenericString(g)),
            None => parse_reference(v),
        },
    }
}

/// The member type that the base type `t` makes with what stands
/// between the brackets after it: nothing for a sequence, `N` for an
/// array, `<=N` for a bounded sequence.
pub open spec fn with_suffix(t: NestableTypeView, suffix: Seq<char>) -> Option<MemberTypeView> {
    if suffix.len() == 0 {
        Some(MemberTypeView::Sequence(SequenceView { value_type: t }))
    } else if has_prefix(suffix, "<="@) {
        match size_literal(after_prefix(suffix, "<="@)) {
            Some(n) => Some(
                MemberTypeView::BoundedSequence(BoundedSequenceView { value_type: t, max_size: n }),
            ),
            None => None,
        }
    } else {
        match size_literal(suffix) {
            Some(n) => Some(MemberTypeView::Array(ArrayView { value_type: t, size: n })),
            None => None,
        }
    }
}

/// The member type that `s` names: a nestable type, optionally followed
/// by a suffix in brackets.
pub open spec fn member_type_of(s: Seq<char>) -> Option<MemberTypeView> {
    let k = find_from(s, '[', 0);
    if k >= s.len() {
        match nestable_type_of(s) {
            Some(t) => Some(MemberTypeView::NestableType(t)),
            None => None,
        }
    } else if s.last() != ']' {
        None
    } else {
        match nestable_type_of(s.subrange(0, k)) {
            Some(t) => with_suffix(t, s.subrange(k + 1, s.len() - 1)),
            None => None,
        }
    }
}

/// The content of an optional member type.
pub open spec fn opt_member_type_view(r: Option<MemberType>) -> Option<MemberTypeView> {
    match r {
        Some(t) => Some(t@),
        None => None,
    }
}

/// Reads `v` as a member type.
pub fn parse_member_type(v: &Vec<char>) -> (r: Option<MemberType>)
    ensures
        opt_member_type_view(r) == member_type_of(v@),
{
    let n = v.len();
    let k = find_char(v, '[', 0);
    if k >= n {
        return match parse_nestable_type(v) {
            Some(t) => Some(MemberType::NestableType(t)),
            None => None,
        };
    }
    if v[n - 1] != ']' {
        return None;
    }
    proof {
        lemma_find_from_bounds(v@, '[', 0);
    }
    let base = slice_of(v, 0, k);
    let suffix = slice_of(v, k + 1, n - 1);
    let t = match parse_nestable_type(&base) {
        Some(t) => t,
        None => {
            return None;
        },
    };
    if suffix.len() == 0 {
        return Some(MemberType::Sequence(Sequence { value_type: t }));
    }
    match strip_prefix(&suffix, "<=") {
        Some(bound) => match parse_size(&bound) {
            Some(m) => Some(MemberType::BoundedSequence(BoundedSequence { value_type: t, max_size: m })),
            None => None,
        },
        None => match parse_size(&suffix) {
            Some(m) => Some(MemberType::Array(Array { value_type: t, size: m })),
            None => None,
        },
    }
}

/// The constant type that `s` names: a primitive type, optionally
/// followed by a size in brackets.
pub open spec fn constant_type_of(s: Seq<char>) -> Option<ConstantType> {
    let k = find_from(s, '[', 0);
    if k >= s.len() {
        match primitive_type_of(s) {
            Some(t) => Some(ConstantType::PrimitiveType(t)),
            None => None,
        }
    } else if s.last() != ']' {
        None
    } else {
        match primitive_type_of(s.subrange(0, k)) {
            Some(t) => match size_literal(s.subrange(k + 1, s.len() - 1)) {
                Some(n) => Some(
                    ConstantType::PrimitiveArray(PrimitiveArray { value_type: t, size: n }),
                ),
                None => None,
            },
            None => None,
        }
    }
}

/// Reads `v` as a constant type.
pub fn parse_constant_type(v: &Vec<char>) -> (r: Option<ConstantType>)
    ensures
        r == constant_type_of(v@),
{
    let n = v.len();
    let k = find_char(v, '[', 0);
    if k >= n {
        return match parse_primitive_type(v) {
            Some(t) => Some(ConstantType::PrimitiveType(t)),
            None => None,
        };
    }
    if v[n - 1] != ']' {
        return None;
    }
    proof {
        lemma_find_from_bounds(v@, '[', 0);
    }
    let base = slice_of(v, 0, k);
    let suffix = slice_of(v, k + 1, n - 1);
    match parse_primitive_type(&base) {
        Some(t) => match parse_size(&suffix) {
            Some(m) => Some(ConstantType::PrimitiveArray(PrimitiveArray { value_type: t, size: m })),
            None => None,
        },
        None => None,
    }
}

} // verus!
