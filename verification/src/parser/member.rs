//! Member declarations: a type, a name, and optionally a default value.
//!
//! A member line is a type, blanks, a name in lower case, and
//! optionally blanks and a default value that runs to the last
//! character of the line that is not a blank.

use vstd::prelude::*;
use crate::parser::error::{Fault, RclMsgError, RclMsgErrorView};
use crate::parser::ident::{is_member_name, member_name};
use crate::decimal::integer_text;
use crate::parser::literal::{
    basic_literal, basic_sequence, bracketed, lemma_integer_range, parse_basic,
    parse_basic_sequence, parse_string, parse_string_sequence, pieces_from, string_literal,
    string_sequence,
};
use crate::parser::types::{member_type_of, parse_member_type};
use crate::text::{
    blanks_end, chars_of, lemma_blanks_end_bounds, lemma_trimmed_len_bounds, scan_token,
    skip_blanks, slice_of, string_of_all, strings_of, strings_view, token_end, trim_end,
    trimmed, trimmed_len,
};
use crate::types::member::{MemberType, MemberTypeView};
use crate::types::message::{Member, MemberView};
use crate::types::primitives::{BasicType, NestableType, NestableTypeView};
use crate::types::sequences::{BoundedSequenceView, SequenceView};

verus! {

/// The content of the result of validating a value.
pub open spec fn values_view(r: Result<Vec<String>, RclMsgError>) -> Result<
    Seq<Seq<char>>,
    RclMsgErrorView,
> {
    match r {
        Ok(v) => Ok(strings_view(v@)),
        Err(e) => Err(e@),
    }
}

/// The text by which a reference to another definition is named in an
/// error: the bare name, or package, namespace and name with slashes
/// between them.
pub open spec fn reference_text(t: NestableTypeView) -> Seq<char> {
    match t {
        NestableTypeView::NamedType(name) => name,
        NestableTypeView::NamespacedType(t) => t.package + seq!['/'] + t.namespace + seq!['/']
            + t.name,
        _ => Seq::empty(),
    }
}

/// The default that `text` gives to a member whose type `t` stands
/// alone: one literal of the type. A reference to another definition
/// admits no default.
pub open spec fn nestable_default(t: NestableTypeView, text: Seq<char>) -> Result<
    Seq<Seq<char>>,
    RclMsgErrorView,
> {
    match t {
        NestableTypeView::BasicType(b) => match basic_literal(b, text) {
            Some(v) => Ok(seq![v]),
            None => Err(RclMsgErrorView::ParseDefaultValueError(text)),
        },
        NestableTypeView::GenericString(g) => match string_literal(g, text) {
            Some(v) => Ok(seq![v]),
            None => Err(RclMsgErrorView::ParseDefaultValueError(text)),
        },
        _ => Err(RclMsgErrorView::InvalidDefaultError(reference_text(t))),
    }
}

/// The default that `text` gives to an array or sequence whose elements
/// have type `t`: an array literal, whatever the number of its
/// elements. A reference to another definition admits no default.
pub open spec fn array_default(t: NestableTypeView, text: Seq<char>) -> Result<
    Seq<Seq<char>>,
    RclMsgErrorView,
> {
    match t {
        NestableTypeView::BasicType(b) => match basic_sequence(b, text) {
            Some(v) => Ok(v),
            None => Err(RclMsgErrorView::ParseDefaultValueError(text)),
        },
        NestableTypeView::GenericString(g) => match string_sequence(g, text) {
            Some(v) => Ok(v),
            None => Err(RclMsgErrorView::ParseDefaultValueError(text)),
        },
        _ => Err(RclMsgErrorView::InvalidDefaultError(reference_text(t))),
    }
}

/// The default that `text` gives to a member of type `t`: one literal
/// for a type that stands alone; an array literal for an array or
/// sequence, with as many elements as the array has, or at most as many
/// as a bounded sequence admits.
pub open spec fn default_of(t: MemberTypeView, text: Seq<char>) -> Result<
    Seq<Seq<char>>,
    RclMsgErrorView,
> {
    match t {
        MemberTypeView::NestableType(n) => nestable_default(n, text),
        _ => match array_default(t.value_type(), text) {
            Ok(v) => if t.admits_len(v.len()) {
                Ok(v)
            } else {
                Err(RclMsgErrorView::ParseDefaultValueError(text))
            },
            Err(e) => Err(e),
        },
    }
}

/// The text by which the reference `t` is named in an error.
fn reference_string(t: &NestableType) -> (r: String)
    ensures
        r@ == reference_text(t@),
{
    match t {
        NestableType::NamedType(n) => n.0.clone(),
        NestableType::NamespacedType(n) => {
            let mut r = n.package.clone();
            r.append("/");
            r.append(n.namespace.as_str());
            r.append("/");
            r.append(n.name.as_str());
            proof {
                reveal_strlit("/");
                assert("/"@ =~= seq!['/']);
            }
            r
        },
        _ => String::new(),
    }
}

/// The one string with the content of `v`.
fn single(v: &Vec<char>) -> (r: Vec<String>)
    ensures
        strings_view(r@) == seq![v@],
{
    let mut r: Vec<String> = Vec::new();
    r.push(string_of_all(v));
    assert(strings_view(r@) =~= seq![v@]);
    r
}

/// Validates `default` as the default of a member whose type
/// `nestable_type` stands alone.
pub fn nestable_type_default(nestable_type: &NestableType, default: &str) -> (r: Result<
    Vec<String>,
    RclMsgError,
>)
    ensures
        values_view(r) == nestable_default(nestable_type@, default@),
{
    let text = chars_of(default);
    let found = match nestable_type {
        NestableType::BasicType(t) => parse_basic(*t, &text),
        NestableType::GenericString(t) => parse_string(*t, &text),
        _ => {
            return Err(RclMsgError::InvalidDefaultError(reference_string(nestable_type)));
        },
    };
    match found {
        Some(v) => Ok(single(&v)),
        None => Err(RclMsgError::ParseDefaultValueError(String::from_str(default))),
    }
}

/// Validates `default` as the default of an array or sequence whose
/// elements have type `value_type`.
pub fn array_type_default(value_type: &NestableType, default: &str) -> (r: Result<
    Vec<String>,
    RclMsgError,
>)
    ensures
        values_view(r) == array_default(value_type@, default@),
{
    let text = chars_of(default);
    let found = match value_type {
        NestableType::BasicType(t) => parse_basic_sequence(*t, &text),
        NestableType::GenericString(t) => parse_string_sequence(*t, &text),
        _ => {
            return Err(RclMsgError::InvalidDefaultError(reference_string(value_type)));
        },
    };
    match found {
        Some(v) => Ok(strings_of(&v)),
        None => Err(RclMsgError::ParseDefaultValueError(String::from_str(default))),
    }
}

/// Validates `default` as the default of a member of type `type_`.
///
/// The result is the canonical text of each element of the default, in
/// order. It is an error if `default` is no literal of the type, if
/// it has a number of elements that the type does not admit, or if the
/// type refers to another definition.
pub fn validate_default(type_: &MemberType, default: &str) -> (r: Result<Vec<String>, RclMsgError>)
    ensures
        values_view(r) == default_of(type_@, default@),
{
    let (values, fitting) = match type_ {
        MemberType::NestableType(t) => {
            return nestable_type_default(t, default);
        },
        MemberType::Array(t) => {
            let values = array_type_default(&t.value_type, default)?;
            let fitting = values.len() == t.size;
            (values, fitting)
        },
        MemberType::Sequence(t) => {
            let values = array_type_default(&t.value_type, default)?;
            (values, true)
        },
        MemberType::BoundedSequence(t) => {
            let values = array_type_default(&t.value_type, default)?;
            let fitting = values.len() <= t.max_size;
            (values, fitting)
        },
    };
    if fitting {
        Ok(values)
    } else {
        Err(RclMsgError::ParseDefaultValueError(String::from_str(default)))
    }
}

/// The member that the line `line` declares.
///
/// The type is the token that the line begins with, the name the next
/// token; what follows the name, without the blanks around it, is the
/// default.
pub open spec fn member_of(line: Seq<char>) -> Result<MemberView, RclMsgErrorView> {
    let t_end = token_end(line, 0);
    let n_start = blanks_end(line, t_end);
    let n_end = token_end(line, n_start);
    let d_start = blanks_end(line, n_end);
    let d_end = trimmed_len(line);
    let name = line.subrange(n_start, n_end);
    match member_type_of(line.subrange(0, t_end)) {
        None => Err(RclMsgErrorView::ParseMemberError { input: line, reason: Fault::InvalidType }),
        Some(type_) => if n_start >= line.len() {
            Err(RclMsgErrorView::ParseMemberError { input: line, reason: Fault::MissingName })
        } else if !is_member_name(name) {
            Err(RclMsgErrorView::ParseMemberError { input: line, reason: Fault::InvalidName })
        } else if d_start >= line.len() {
            Ok(MemberView { name, type_, default: None })
        } else {
            match default_of(type_, line.subrange(d_start, d_end)) {
                Ok(d) => Ok(MemberView { name, type_, default: Some(d) }),
                Err(e) => Err(e),
            }
        },
    }
}

/// The content of the result of parsing a member.
pub open spec fn member_result_view(r: Result<Member, RclMsgError>) -> Result<
    MemberView,
    RclMsgErrorView,
> {
    match r {
        Ok(m) => Ok(m@),
        Err(e) => Err(e@),
    }
}

/// Parses the declaration of a member.
///
/// The line must begin with the type and hold nothing but the
/// declaration. On success the member has the declared name and type,
/// and the validated default if one is given.
pub fn member_def(line: &str) -> (r: Result<Member, RclMsgError>)
    ensures
        member_result_view(r) == member_of(line@),
        r is Ok ==> r->Ok_0@.well_formed(),
{
    let v = chars_of(line);
    let n = v.len();
    let t_end = scan_token(&v, 0);
    let n_start = skip_blanks(&v, t_end);
    let n_end = scan_token(&v, n_start);
    let d_start = skip_blanks(&v, n_end);
    let d_end = trim_end(&v);
    let type_ = match parse_member_type(&slice_of(&v, 0, t_end)) {
        Some(t) => t,
        None => {
            return Err(
                RclMsgError::ParseMemberError {
                    input: String::from_str(line),
                    reason: Fault::InvalidType,
                },
            );
        },
    };
    if n_start >= n {
        return Err(
            RclMsgError::ParseMemberError {
                input: String::from_str(line),
                reason: Fault::MissingName,
            },
        );
    }
    let name = slice_of(&v, n_start, n_end);
    if !member_name(&name) {
        return Err(
            RclMsgError::ParseMemberError {
                input: String::from_str(line),
                reason: Fault::InvalidName,
            },
        );
    }
    if d_start >= n {
        return Ok(Member { name: string_of_all(&name), type_, default: None });
    }
    proof {
        lemma_trimmed_len_bounds(v@);
        lemma_blanks_end_bounds(v@, n_end as int);
    }
    let text = string_of_all(&slice_of(&v, d_start, d_end));
    let default = validate_default(&type_, text.as_str())?;
    Ok(Member { name: string_of_all(&name), type_, default: Some(default) })
}

/// A sequence admits a default of any number of elements: the default
/// of a sequence is what its array literal holds, however many
/// elements that is.
pub proof fn lemma_sequence_default(t: NestableTypeView, text: Seq<char>)
    ensures
        default_of(MemberTypeView::Sequence(SequenceView { value_type: t }), text)
            == array_default(t, text),
{
}

/// A bounded sequence admits a default of as many elements as its
/// bound, or fewer, and no more: where the array literal holds more, the
/// default is refused as a value.
pub proof fn lemma_bounded_sequence_default(t: NestableTypeView, max_size: usize, text: Seq<char>)
    ensures
        default_of(
            MemberTypeView::BoundedSequence(BoundedSequenceView { value_type: t, max_size }),
            text,
        ) == (match array_default(t, text) {
            Ok(v) => if v.len() <= max_size {
                Ok(v)
            } else {
                Err(RclMsgErrorView::ParseDefaultValueError(text))
            },
            Err(e) => Err(e),
        }),
{
}

/// An array literal of a basic type has as many elements as the commas
/// of what stands between its brackets cut it into pieces, and none if
/// only blanks stand there.
pub proof fn lemma_sequence_length(t: BasicType, text: Seq<char>)
    requires
        basic_sequence(t, text) is Some,
    ensures
        basic_sequence(t, text)->0.len() == if trimmed(bracketed(text)->0).len() == 0 {
            0
        } else {
            pieces_from(bracketed(text)->0, 0).len()
        },
{
}

/// The canonical numeral of an integer is a default of a member of an
/// integer type exactly when the type can hold the integer: the
/// numerals of the least and of the greatest value of the type are
/// defaults, those of the integers next below and next above are
/// refused as values.
pub proof fn lemma_integer_default(t: BasicType, n: int)
    requires
        t.is_integer(),
    ensures
        default_of(
            MemberTypeView::NestableType(NestableTypeView::BasicType(t)),
            integer_text(n),
        ) == if t.min_value() <= n <= t.max_value() {
            Ok::<Seq<Seq<char>>, RclMsgErrorView>(seq![integer_text(n)])
        } else {
            Err(RclMsgErrorView::ParseDefaultValueError(integer_text(n)))
        },
{
    lemma_integer_range(t, n);
}

} // verus!
