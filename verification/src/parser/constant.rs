//! Constant declarations: a type, a name, an equals sign and a value.
//!
//! A constant line is a type, blanks, a name in upper case, an equals
//! sign between optional blanks, and a value that runs to the last
//! character of the line that is not a blank.

use vstd::prelude::*;
use crate::parser::error::{Fault, RclMsgError, RclMsgErrorView};
use crate::parser::ident::{constant_name, is_constant_name};
use crate::decimal::integer_text;
use crate::parser::literal::{
    basic_literal, basic_sequence, lemma_integer_range, parse_basic, parse_basic_sequence,
    parse_string, parse_string_sequence, string_literal, string_sequence,
};
use crate::parser::member::values_view;
use crate::parser::types::{constant_type_of, parse_constant_type};
use crate::text::{
    blanks_end, chars_of, is_blank, lemma_blanks_end_bounds, lemma_trimmed_len_bounds, scan_token,
    skip_blanks, slice_of, string_of_all, strings_of, strings_view, token_end, trim_end,
    trimmed_len,
};
use crate::types::constant::ConstantType;
use crate::types::message::{Constant, ConstantView};
use crate::types::primitives::{BasicType, GenericString, PrimitiveType};

verus! {

/// The literals that `text` holds for a constant of type `t`: one
/// literal for a type that stands alone, an array literal for an array.
pub open spec fn literals_of(t: ConstantType, text: Seq<char>) -> Option<Seq<Seq<char>>> {
    match t {
        ConstantType::PrimitiveType(PrimitiveType::BasicType(b)) => match basic_literal(b, text) {
            Some(v) => Some(seq![v]),
            None => None,
        },
        ConstantType::PrimitiveType(PrimitiveType::GenericUnboundedString(g)) => {
            match string_literal(g.as_generic(), text) {
                Some(v) => Some(seq![v]),
                None => None,
            }
        },
        ConstantType::PrimitiveArray(a) => match a.value_type {
            PrimitiveType::BasicType(b) => basic_sequence(b, text),
            PrimitiveType::GenericUnboundedString(g) => string_sequence(g.as_generic(), text),
        },
    }
}

/// The value that `text` gives to a constant of type `t`: the literals
/// that it holds, if they are as many as the type asks for.
pub open spec fn value_of(t: ConstantType, text: Seq<char>) -> Result<
    Seq<Seq<char>>,
    RclMsgErrorView,
> {
    match literals_of(t, text) {
        Some(v) => if t.admits_len(v.len()) {
            Ok(v)
        } else {
            Err(RclMsgErrorView::ParseConstantValueError(text))
        },
        None => Err(RclMsgErrorView::ParseConstantValueError(text)),
    }
}

/// Validates `value` as the value of a constant of type `type_`.
///
/// The result is the canonical text of each element of the value, in
/// order. It is an error if `value` is no literal of the type or, for
/// an array, has not as many elements as the array.
pub fn validate_value(type_: ConstantType, value: &str) -> (r: Result<Vec<String>, RclMsgError>)
    ensures
        values_view(r) == value_of(type_, value@),
{
    let text = chars_of(value);
    let found: Option<Vec<String>> = match type_ {
        ConstantType::PrimitiveType(PrimitiveType::BasicType(b)) => match parse_basic(b, &text) {
            Some(v) => {
                let mut one: Vec<String> = Vec::new();
                one.push(string_of_all(&v));
                assert(strings_view(one@) =~= seq![v@]);
                Some(one)
            },
            None => None,
        },
        ConstantType::PrimitiveType(PrimitiveType::GenericUnboundedString(g)) => {
            match parse_string(GenericString::from(g), &text) {
                Some(v) => {
                    let mut one: Vec<String> = Vec::new();
                    one.push(string_of_all(&v));
                    assert(strings_view(one@) =~= seq![v@]);
                    Some(one)
                },
                None => None,
            }
        },
        ConstantType::PrimitiveArray(a) => {
            let rows = match a.value_type {
                PrimitiveType::BasicType(b) => parse_basic_sequence(b, &text),
                PrimitiveType::GenericUnboundedString(g) => parse_string_sequence(
                    GenericString::from(g),
                    &text,
                ),
            };
            match rows {
                Some(rows) => {
                    let values = strings_of(&rows);
                    if values.len() == a.size {
                        Some(values)
                    } else {
                        None
                    }
                },
                None => None,
            }
        },
    };
    match found {
        Some(values) => Ok(values),
        None => Err(RclMsgError::ParseConstantValueError(String::from_str(value))),
    }
}

/// The first index at or after `i` that holds a blank or an equals
/// sign, or the length of `s` when there is none: the end of the name
/// that starts at `i`.
pub open spec fn name_end(s: Seq<char>, i: int) -> int
    decreases s.len() - i,
{
    if i < 0 || i >= s.len() || is_blank(s[i]) || s[i] == '=' {
        i
    } else {
        name_end(s, i + 1)
    }
}

/// The end of the name of `v` that starts at `i`.
pub fn scan_name(v: &Vec<char>, i: usize) -> (j: usize)
    requires
        i <= v.len(),
    ensures
        j == name_end(v@, i as int),
        i <= j <= v.len(),
{
    let mut j: usize = i;
    while j < v.len() && !(v[j] == ' ' || v[j] == '\t' || v[j] == '=')
        invariant
            i <= j <= v.len(),
            name_end(v@, i as int) == name_end(v@, j as int),
        decreases v.len() - j,
    {
        j = j + 1;
    }
    j
}

/// The index at which the equals sign of a constant line must stand:
/// after the type, the blanks that follow it, the name, and the blanks
/// that follow the name.
pub open spec fn equals_index(line: Seq<char>) -> int {
    let t_end = token_end(line, 0);
    let n_start = blanks_end(line, t_end);
    let n_end = name_end(line, n_start);
    blanks_end(line, n_end)
}

/// The constant that the line `line` declares.
///
/// The type is the token that the line begins with; the name runs to
/// the next blank or equals sign; what follows the equals sign, without
/// the blanks around it, is the value.
pub open spec fn constant_of(line: Seq<char>) -> Result<ConstantView, RclMsgErrorView> {
    let t_end = token_end(line, 0);
    let n_start = blanks_end(line, t_end);
    let n_end = name_end(line, n_start);
    let eq = equals_index(line);
    let v_start = blanks_end(line, eq + 1);
    let v_end = trimmed_len(line);
    let name = line.subrange(n_start, n_end);
    match constant_type_of(line.subrange(0, t_end)) {
        None => Err(
            RclMsgErrorView::ParseConstantError { input: line, reason: Fault::InvalidType },
        ),
        Some(type_) => if n_start >= line.len() {
            Err(RclMsgErrorView::ParseConstantError { input: line, reason: Fault::MissingName })
        } else if !is_constant_name(name) {
            Err(RclMsgErrorView::ParseConstantError { input: line, reason: Fault::InvalidName })
        } else if eq >= line.len() || line[eq] != '=' {
            Err(RclMsgErrorView::ParseConstantError { input: line, reason: Fault::MissingEquals })
        } else if v_start >= line.len() {
            Err(RclMsgErrorView::ParseConstantError { input: line, reason: Fault::MissingValue })
        } else {
            match value_of(type_, line.subrange(v_start, v_end)) {
                Ok(value) => Ok(ConstantView { name, type_, value }),
                Err(e) => Err(e),
            }
        },
    }
}

/// The content of the result of parsing a constant.
pub open spec fn constant_result_view(r: Result<Constant, RclMsgError>) -> Result<
    ConstantView,
    RclMsgErrorView,
> {
    match r {
        Ok(c) => Ok(c@),
        Err(e) => Err(e@),
    }
}

/// An error that says for the reason `reason` that `line` is no
/// constant declaration.
fn constant_error(line: &str, reason: Fault) -> (e: RclMsgError)
    ensures
        e@ == (RclMsgErrorView::ParseConstantError { input: line@, reason }),
{
    RclMsgError::ParseConstantError { input: String::from_str(line), reason }
}

/// Parses the declaration of a constant.
///
/// The line must begin with the type and hold nothing but the
/// declaration. On success the constant has the declared name and type
/// and the validated value.
pub fn constant_def(line: &str) -> (r: Result<Constant, RclMsgError>)
    ensures
        constant_result_view(r) == constant_of(line@),
        r is Ok ==> r->Ok_0@.well_formed(),
{
    let v = chars_of(line);
    let n = v.len();
    let t_end = scan_token(&v, 0);
    let n_start = skip_blanks(&v, t_end);
    let n_end = scan_name(&v, n_start);
    let eq = skip_blanks(&v, n_end);
    let type_ = match parse_constant_type(&slice_of(&v, 0, t_end)) {
        Some(t) => t,
        None => {
            return Err(constant_error(line, Fault::InvalidType));
        },
    };
    if n_start >= n {
        return Err(constant_error(line, Fault::MissingName));
    }
    let name = slice_of(&v, n_start, n_end);
    if !constant_name(&name) {
        return Err(constant_error(line, Fault::InvalidName));
    }
    if eq >= n || v[eq] != '=' {
        return Err(constant_error(line, Fault::MissingEquals));
    }
    let v_start = skip_blanks(&v, eq + 1);
    let v_end = trim_end(&v);
    if v_start >= n {
        return Err(constant_error(line, Fault::MissingValue));
    }
    proof {
        lemma_trimmed_len_bounds(v@);
        lemma_blanks_end_bounds(v@, eq + 1);
    }
    let text = string_of_all(&slice_of(&v, v_start, v_end));
    let value = validate_value(type_, text.as_str())?;
    Ok(Constant { name: string_of_all(&name), type_, value })
}

/// The canonical numeral of an integer is a value of a constant of an
/// integer type exactly when the type can hold the integer: the
/// numerals of the least and of the greatest value of the type are
/// values, those of the integers next below and next above are refused.
pub proof fn lemma_integer_constant(t: BasicType, n: int)
    requires
        t.is_integer(),
    ensures
        value_of(ConstantType::PrimitiveType(PrimitiveType::BasicType(t)), integer_text(n))
            == if t.min_value() <= n <= t.max_value() {
            Ok::<Seq<Seq<char>>, RclMsgErrorView>(seq![integer_text(n)])
        } else {
            Err(RclMsgErrorView::ParseConstantValueError(integer_text(n)))
        },
{
    lemma_integer_range(t, n);
}

} // verus!
