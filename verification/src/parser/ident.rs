//! The forms of names.

use vstd::prelude::*;
use crate::text::{digit, is_digit, is_lower, is_upper, lower, upper};

verus! {

/// Whether no underscore of `s` is followed by another, and `s` does not
/// end with one.
pub open spec fn underscores_separate(s: Seq<char>) -> bool {
    forall|i: int|
        0 <= i < s.len() && #[trigger] s[i] == '_' ==> i + 1 < s.len() && s[i + 1] != '_'
}

/// A name in lower case: it begins with a lower-case letter and holds
/// lower-case letters, digits and underscores, each underscore followed
/// by a letter or a digit.
pub open spec fn is_lower_name(s: Seq<char>) -> bool {
    &&& s.len() > 0
    &&& is_lower(s[0])
    &&& forall|i: int| 0 <= i < s.len() ==> is_lower_name_char(#[trigger] s[i])
    &&& underscores_separate(s)
}

/// A character of a name in lower case.
pub open spec fn is_lower_name_char(c: char) -> bool {
    is_lower(c) || is_digit(c) || c == '_'
}

/// A name in upper case: it begins with an upper-case letter and holds
/// upper-case letters, digits and underscores, each underscore followed
/// by a letter or a digit.
pub open spec fn is_upper_name(s: Seq<char>) -> bool {
    &&& s.len() > 0
    &&& is_upper(s[0])
    &&& forall|i: int| 0 <= i < s.len() ==> is_upper_name_char(#[trigger] s[i])
    &&& underscores_separate(s)
}

/// A character of a name in upper case.
pub open spec fn is_upper_name_char(c: char) -> bool {
    is_upper(c) || is_digit(c) || c == '_'
}

/// The name of a package: a name in lower case.
pub open spec fn is_package_name(s: Seq<char>) -> bool {
    is_lower_name(s)
}

/// The name of a member: a name in lower case.
pub open spec fn is_member_name(s: Seq<char>) -> bool {
    is_lower_name(s)
}

/// The name of a constant: a name in upper case.
pub open spec fn is_constant_name(s: Seq<char>) -> bool {
    is_upper_name(s)
}

/// The name of a type that is defined elsewhere: a letter followed by
/// letters, digits and underscores.
pub open spec fn is_reference_name(s: Seq<char>) -> bool {
    &&& s.len() > 0
    &&& (is_upper(s[0]) || is_lower(s[0]))
    &&& forall|i: int| 0 <= i < s.len() ==> is_reference_name_char(#[trigger] s[i])
}

/// A character of the name of a type.
pub open spec fn is_reference_name_char(c: char) -> bool {
    is_upper(c) || is_lower(c) || is_digit(c) || c == '_'
}

/// Whether `v` has the form of a name in lower case (`upper_case`
/// unset) or in upper case (`upper_case` set).
fn cased_name(v: &Vec<char>, upper_case: bool) -> (b: bool)
    ensures
        b == if upper_case {
            is_upper_name(v@)
        } else {
            is_lower_name(v@)
        },
{
    if v.len() == 0 {
        return false;
    }
    let first = v[0];
    if upper_case && !upper(first) || !upper_case && !lower(first) {
        return false;
    }
    let mut i: usize = 0;
    while i < v.len()
        invariant
            i <= v.len(),
            forall|k: int|
                0 <= k < i ==> if upper_case {
                    is_upper_name_char(#[trigger] v@[k])
                } else {
                    is_lower_name_char(v@[k])
                },
            forall|k: int|
                0 <= k < i && #[trigger] v@[k] == '_' ==> k + 1 < v.len() && v@[k + 1] != '_',
        decreases v.len() - i,
    {
        let c = v[i];
        let letter = if upper_case {
            upper(c)
        } else {
            lower(c)
        };
        if !(letter || digit(c) || c == '_') {
            return false;
        }
        if c == '_' && (i + 1 == v.len() || v[i + 1] == '_') {
            return false;
        }
        i = i + 1;
    }
    true
}

/// Whether `v` has the form of the name of a package.
pub fn package_name(v: &Vec<char>) -> (b: bool)
    ensures
        b == is_package_name(v@),
{
    cased_name(v, false)
}

/// Whether `v` has the form of the name of a member.
pub fn member_name(v: &Vec<char>) -> (b: bool)
    ensures
        b == is_member_name(v@),
{
    cased_name(v, false)
}

/// Whether `v` has the form of the name of a constant.
pub fn constant_name(v: &Vec<char>) -> (b: bool)
    ensures
        b == is_constant_name(v@),
{
    cased_name(v, true)
}

/// Whether `v` has the form of the name of a type.
pub fn reference_name(v: &Vec<char>) -> (b: bool)
    ensures
        b == is_reference_name(v@),
{
    if v.len() == 0 {
        return false;
    }
    if !(upper(v[0]) || lower(v[0])) {
        return false;
    }
    let mut i: usize = 0;
    while i < v.len()
        invariant
            i <= v.len(),
            forall|k: int| 0 <= k < i ==> is_reference_name_char(#[trigger] v@[k]),
        decreases v.len() - i,
    {
        let c = v[i];
        if !(upper(c) || lower(c) || digit(c) || c == '_') {
            return false;
        }
        i = i + 1;
    }
    true
}

} // verus!
