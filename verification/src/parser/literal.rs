//! Literals: the text of a value of a primitive type, and the canonical
//! text that stands for the value in the model.
//!
//! An integer is written in decimal digits with an optional sign, and
//! stands as its canonical numeral. A floating-point number is written
//! with an optional sign, digits with an optional fraction (or a fraction
//! alone) and an optional exponent, and stands as written. A boolean is
//! `true` or `false` in any case of letters, and stands in lower case. A
//! string is written between single or double quotes, with a backslash
//! before a backslash or a quote that belongs to it, and stands as its
//! content.
//!
//! The value of an array or of a sequence is written as an array
//! literal: literals of the element type between brackets, with a comma
//! between one and the next, and optional blanks around each. It
//! stands as the sequence of what its elements stand as.

use vstd::prelude::*;
use crate::decimal::{
    all_digits, decimal_text, decimal_value, integer_chars, integer_text,
    lemma_decimal_text_value, parse_decimal,
};
use crate::text::{
    blanks_end, chars_of, digit, is_digit, is_upper, lemma_rows_view_push, rows_view, skip_blanks,
    slice_of, trim, trimmed, upper,
};
use crate::types::primitives::{BasicType, GenericString};

verus! {

/// The content of an optional vector of characters.
pub open spec fn opt_view(r: Option<Vec<char>>) -> Option<Seq<char>> {
    match r {
        Some(v) => Some(v@),
        None => None,
    }
}

/// A plus or minus sign.
pub open spec fn is_sign(c: char) -> bool {
    c == '+' || c == '-'
}

/// Executable form of [`is_sign`].
pub fn sign(c: char) -> (b: bool)
    ensures
        b == is_sign(c),
{
    c == '+' || c == '-'
}

/// What follows the sign of `s`, or all of `s` when it bears no sign.
pub open spec fn unsigned_part(s: Seq<char>) -> Seq<char> {
    if s.len() > 0 && is_sign(s[0]) {
        s.subrange(1, s.len() as int)
    } else {
        s
    }
}

/// The number that a decimal integer literal denotes: an optional sign
/// and at least one digit.
pub open spec fn integer_value(s: Seq<char>) -> Option<int> {
    let d = unsigned_part(s);
    if d.len() > 0 && all_digits(d) {
        if s[0] == '-' {
            Some(-(decimal_value(d) as int))
        } else {
            Some(decimal_value(d) as int)
        }
    } else {
        None
    }
}

/// The canonical text of the integer literal `s` of type `t`, if `s` is
/// an integer literal whose value the type can hold.
pub open spec fn integer_literal(t: BasicType, s: Seq<char>) -> Option<Seq<char>> {
    match integer_value(s) {
        Some(v) => if t.min_value() <= v <= t.max_value() {
            Some(integer_text(v))
        } else {
            None
        },
        None => None,
    }
}

/// Reading the canonical numeral of an integer gives the integer back.
pub proof fn lemma_integer_text_value(n: int)
    ensures
        integer_value(integer_text(n)) == Some(n),
{
    if n < 0 {
        let m = (-n) as nat;
        lemma_decimal_text_value(m);
        let s = integer_text(n);
        assert(s[0] == '-');
        assert(unsigned_part(s) =~= decimal_text(m));
    } else {
        lemma_decimal_text_value(n as nat);
        let s = integer_text(n);
        assert(is_digit(s[0]));
        assert(unsigned_part(s) == s);
    }
}

/// The canonical numeral of an integer is a literal of an integer type
/// exactly when the integer lies between the least and the greatest
/// value of the type, and then it stands for itself. So the numerals of
/// the least and of the greatest value are literals of the type, and
/// the numerals of the integers next below and next above are not.
pub proof fn lemma_integer_range(t: BasicType, n: int)
    requires
        t.is_integer(),
    ensures
        integer_literal(t, integer_text(n)) == if t.min_value() <= n <= t.max_value() {
            Some(integer_text(n))
        } else {
            None
        },
        basic_literal(t, integer_text(n)) == integer_literal(t, integer_text(n)),
        integer_literal(t, integer_text(t.min_value())) == Some(integer_text(t.min_value())),
        integer_literal(t, integer_text(t.max_value())) == Some(integer_text(t.max_value())),
        integer_literal(t, integer_text(t.min_value() - 1)) is None,
        integer_literal(t, integer_text(t.max_value() + 1)) is None,
{
    lemma_integer_text_value(n);
    lemma_integer_text_value(t.min_value());
    lemma_integer_text_value(t.max_value());
    lemma_integer_text_value(t.min_value() - 1);
    lemma_integer_text_value(t.max_value() + 1);
}

/// Reads `v` as an integer literal of the integer type `t`.
pub fn parse_integer(t: BasicType, v: &Vec<char>) -> (r: Option<Vec<char>>)
    requires
        t.is_integer(),
    ensures
        opt_view(r) == integer_literal(t, v@),
{
    let n = v.len();
    if n == 0 {
        return None;
    }
    let negative = v[0] == '-';
    let signed = sign(v[0]);
    let digits = if signed {
        slice_of(v, 1, n)
    } else {
        let d = slice_of(v, 0, n);
        assert(v@.subrange(0, n as int) =~= v@);
        d
    };
    assert(digits@ == unsigned_part(v@));
    let limit = if negative {
        t.min_magnitude()
    } else {
        t.max_magnitude()
    };
    match parse_decimal(&digits, limit) {
        Some(m) => Some(integer_chars(negative, m)),
        None => None,
    }
}

/// The first index at or after `i` that holds no digit, or the length of
/// `s` when only digits follow.
pub open spec fn digits_end(s: Seq<char>, i: int) -> int
    decreases s.len() - i,
{
    if i < 0 || i >= s.len() || !is_digit(s[i]) {
        i
    } else {
        digits_end(s, i + 1)
    }
}

/// The first index of `v` at or after `i` that holds no digit.
fn scan_digits(v: &Vec<char>, i: usize) -> (j: usize)
    requires
        i <= v.len(),
    ensures
        j == digits_end(v@, i as int),
        i <= j <= v.len(),
{
    let mut j: usize = i;
    while j < v.len() && digit(v[j])
        invariant
            i <= j <= v.len(),
            digits_end(v@, i as int) == digits_end(v@, j as int),
        decreases v.len() - j,
    {
        j = j + 1;
    }
    j
}

/// Whether `s` is a floating-point literal: an optional sign; then
/// digits, optionally followed by a point and more digits, or a point
/// followed by digits; then optionally an exponent, which is `e` or
/// `E`, an optional sign and at least one digit.
pub open spec fn is_float_literal(s: Seq<char>) -> bool {
    let a: int = if s.len() > 0 && is_sign(s[0]) {
        1
    } else {
        0
    };
    let b = digits_end(s, a);
    let point = b < s.len() && s[b] == '.';
    let c = if point {
        digits_end(s, b + 1)
    } else {
        b
    };
    let mantissa = b > a || (point && c > b + 1);
    let exponent = c < s.len() && (s[c] == 'e' || s[c] == 'E');
    let e1 = if exponent && c + 1 < s.len() && is_sign(s[c + 1]) {
        c + 2
    } else {
        c + 1
    };
    let e2 = digits_end(s, e1);
    mantissa && if exponent {
        e1 < e2 && e2 == s.len()
    } else {
        c == s.len()
    }
}

/// The canonical text of the floating-point literal `s`: `s` itself.
pub open spec fn float_literal(s: Seq<char>) -> Option<Seq<char>> {
    if is_float_literal(s) {
        Some(s)
    } else {
        None
    }
}

/// Reads `v` as a floating-point literal.
pub fn parse_float(v: &Vec<char>) -> (r: Option<Vec<char>>)
    ensures
        opt_view(r) == float_literal(v@),
{
    let n = v.len();
    let a: usize = if n > 0 && sign(v[0]) {
        1
    } else {
        0
    };
    let b = scan_digits(v, a);
    let point = b < n && v[b] == '.';
    let c = if point {
        scan_digits(v, b + 1)
    } else {
        b
    };
    let mantissa = b > a || (point && c > b + 1);
    if !mantissa {
        return None;
    }
    let exponent = c < n && (v[c] == 'e' || v[c] == 'E');
    if !exponent {
        if c == n {
            let r = slice_of(v, 0, n);
            assert(v@.subrange(0, n as int) =~= v@);
            return Some(r);
        } else {
            return None;
        }
    }
    let e1: usize = if c + 1 < n && sign(v[c + 1]) {
        c + 2
    } else {
        c + 1
    };
    let e2 = scan_digits(v, e1);
    if e1 < e2 && e2 == n {
        let r = slice_of(v, 0, n);
        assert(v@.subrange(0, n as int) =~= v@);
        Some(r)
    } else {
        None
    }
}

/// Whether `c` is the lower-case letter `w` in either case.
pub open spec fn is_letter(c: char, w: char) -> bool {
    c == w || (is_upper(c) && c as u32 + 32 == w as u32)
}

/// Whether `s` is `word` but for the case of its letters; `word` is in
/// lower case.
pub open spec fn is_word(s: Seq<char>, word: Seq<char>) -> bool {
    s.len() == word.len() && forall|i: int| 0 <= i < s.len() ==> is_letter(s[i], word[i])
}

/// The canonical text of the boolean literal `s`.
pub open spec fn bool_literal(s: Seq<char>) -> Option<Seq<char>> {
    if is_word(s, "true"@) {
        Some("true"@)
    } else if is_word(s, "false"@) {
        Some("false"@)
    } else {
        None
    }
}

/// Whether `v` is `w` but for the case of its letters.
fn matches_word(v: &Vec<char>, w: &Vec<char>) -> (b: bool)
    ensures
        b == is_word(v@, w@),
{
    if v.len() != w.len() {
        return false;
    }
    let mut i: usize = 0;
    while i < v.len()
        invariant
            i <= v.len(),
            v.len() == w.len(),
            forall|k: int| 0 <= k < i ==> is_letter(v@[k], w@[k]),
        decreases v.len() - i,
    {
        let c = v[i];
        let l = w[i];
        if !(c == l || (upper(c) && c as u32 + 32 == l as u32)) {
            assert(!is_letter(v@[i as int], w@[i as int]));
            return false;
        }
        i = i + 1;
    }
    true
}

/// Reads `v` as a boolean literal.
pub fn parse_bool(v: &Vec<char>) -> (r: Option<Vec<char>>)
    ensures
        opt_view(r) == bool_literal(v@),
{
    let t = chars_of("true");
    let f = chars_of("false");
    if matches_word(v, &t) {
        Some(t)
    } else if matches_word(v, &f) {
        Some(f)
    } else {
        None
    }
}

/// The canonical text of the literal `s` of the basic type `t`.
pub open spec fn basic_literal(t: BasicType, s: Seq<char>) -> Option<Seq<char>> {
    match t {
        BasicType::F32 | BasicType::F64 => float_literal(s),
        BasicType::Bool => bool_literal(s),
        _ => integer_literal(t, s),
    }
}

/// Reads `v` as a literal of the basic type `t`.
pub fn parse_basic(t: BasicType, v: &Vec<char>) -> (r: Option<Vec<char>>)
    ensures
        opt_view(r) == basic_literal(t, v@),
{
    match t {
        BasicType::F32 | BasicType::F64 => parse_float(v),
        BasicType::Bool => parse_bool(v),
        _ => parse_integer(t, v),
    }
}

/// A single or double quote.
pub open spec fn is_quote(c: char) -> bool {
    c == '"' || c == '\''
}

/// A character that a backslash may stand before in a string literal.
pub open spec fn is_escapable(c: char) -> bool {
    c == '\\' || c == '"' || c == '\''
}

/// The content of `r` with `acc` before it.
pub open spec fn with_prefix(acc: Seq<char>, r: Option<(Seq<char>, int)>) -> Option<
    (Seq<char>, int),
> {
    match r {
        Some((c, e)) => Some((acc + c, e)),
        None => None,
    }
}

/// Reads what is left of a string literal that was opened with the quote
/// `q`, from index `i` of `s`: the content up to the next quote `q` that
/// no backslash stands before, and the index after that quote. A
/// backslash stands for the backslash or quote that follows it; before
/// any other character, and where no closing quote is found, there is no
/// result.
pub open spec fn quoted_rest(s: Seq<char>, q: char, i: int) -> Option<(Seq<char>, int)>
    decreases s.len() - i,
{
    if i < 0 || i >= s.len() {
        None
    } else if s[i] == q {
        Some((Seq::empty(), i + 1))
    } else if s[i] == '\\' {
        if i + 1 < s.len() && is_escapable(s[i + 1]) {
            with_prefix(seq![s[i + 1]], quoted_rest(s, q, i + 2))
        } else {
            None
        }
    } else {
        with_prefix(seq![s[i]], quoted_rest(s, q, i + 1))
    }
}

/// Reads the string literal that starts at index `i` of `s`: its content
/// and the index after its closing quote.
pub open spec fn quoted_at(s: Seq<char>, i: int) -> Option<(Seq<char>, int)> {
    if 0 <= i < s.len() && is_quote(s[i]) {
        quoted_rest(s, s[i], i + 1)
    } else {
        None
    }
}

/// Reads the string literal that starts at index `i` of `v`.
pub fn scan_quoted(v: &Vec<char>, i: usize) -> (r: Option<(Vec<char>, usize)>)
    requires
        i <= v.len(),
    ensures
        match r {
            Some((c, e)) => quoted_at(v@, i as int) == Some((c@, e as int)) && i < e <= v.len(),
            None => quoted_at(v@, i as int) is None,
        },
{
    let n = v.len();
    if i >= n {
        return None;
    }
    let q = v[i];
    if !(q == '"' || q == '\'') {
        return None;
    }
    let mut acc: Vec<char> = Vec::new();
    let mut j: usize = i + 1;
    while j < n
        invariant
            i < j <= n,
            n == v.len(),
            quoted_at(v@, i as int) == with_prefix(acc@, quoted_rest(v@, q, j as int)),
        decreases n - j,
    {
        let c = v[j];
        if c == q {
            assert(acc@ + Seq::<char>::empty() =~= acc@);
            return Some((acc, j + 1));
        }
        if c == '\\' {
            if j + 1 < n && (v[j + 1] == '\\' || v[j + 1] == '"' || v[j + 1] == '\'') {
                let ghost before = acc@;
                acc.push(v[j + 1]);
                proof {
                    let rest = quoted_rest(v@, q, j + 2);
                    if rest is Some {
                        assert(before + (seq![v@[j + 1]] + (rest->0).0) =~= acc@ + (rest->0).0);
                    }
                }
                j = j + 2;
            } else {
                return None;
            }
        } else {
            let ghost before = acc@;
            acc.push(c);
            proof {
                let rest = quoted_rest(v@, q, j + 1);
                if rest is Some {
                    assert(before + (seq![c] + (rest->0).0) =~= acc@ + (rest->0).0);
                }
            }
            j = j + 1;
        }
    }
    None
}

/// The content of the string literal `s` of the string type `g`: `s` is
/// one string literal from its first character to its last, and its
/// content is no longer than the bound of a bounded type.
pub open spec fn string_literal(g: GenericString, s: Seq<char>) -> Option<Seq<char>> {
    match quoted_at(s, 0) {
        Some((c, e)) => if e == s.len() && fits(g, c) {
            Some(c)
        } else {
            None
        },
        None => None,
    }
}

/// Whether a string of content `c` is a value of the string type `g`.
pub open spec fn fits(g: GenericString, c: Seq<char>) -> bool {
    match g.bound() {
        Some(n) => c.len() <= n,
        None => true,
    }
}

/// Reads `v` as a string literal of the string type `g`.
pub fn parse_string(g: GenericString, v: &Vec<char>) -> (r: Option<Vec<char>>)
    ensures
        opt_view(r) == string_literal(g, v@),
{
    match scan_quoted(v, 0) {
        Some((c, e)) => {
            if e != v.len() {
                return None;
            }
            match g.max_len() {
                Some(n) => if c.len() <= n {
                    Some(c)
                } else {
                    None
                },
                None => Some(c),
            }
        },
        None => None,
    }
}

/// The contents of an optional vector of character vectors.
pub open spec fn opt_rows_view(r: Option<Vec<Vec<char>>>) -> Option<Seq<Seq<char>>> {
    match r {
        Some(v) => Some(rows_view(v@)),
        None => None,
    }
}

/// What stands between the brackets of `s`, if `s` begins with an
/// opening bracket and ends with a closing one.
pub open spec fn bracketed(s: Seq<char>) -> Option<Seq<char>> {
    if s.len() >= 2 && s[0] == '[' && s.last() == ']' {
        Some(s.subrange(1, s.len() - 1))
    } else {
        None
    }
}

/// The first index at or after `i` that holds a comma, or the length of
/// `s` when there is none.
pub open spec fn comma_at(s: Seq<char>, i: int) -> int
    decreases s.len() - i,
{
    if i < 0 || i >= s.len() || s[i] == ',' {
        i
    } else {
        comma_at(s, i + 1)
    }
}

/// The first index of `v` at or after `i` that holds a comma.
fn scan_comma(v: &Vec<char>, i: usize) -> (j: usize)
    requires
        i <= v.len(),
    ensures
        j == comma_at(v@, i as int),
        i <= j <= v.len(),
{
    let mut j: usize = i;
    while j < v.len() && v[j] != ','
        invariant
            i <= j <= v.len(),
            comma_at(v@, i as int) == comma_at(v@, j as int),
        decreases v.len() - j,
    {
        j = j + 1;
    }
    j
}

/// The pieces into which the commas of `s` at or after `i` cut what
/// follows `i`. There is one piece more than there are commas. (The
/// comma found is never before `i`; the test keeps the definition
/// well founded.)
pub open spec fn pieces_from(s: Seq<char>, i: int) -> Seq<Seq<char>>
    decreases s.len() - i,
{
    let k = comma_at(s, i);
    if i < 0 || i > s.len() {
        Seq::empty()
    } else if k >= s.len() || k < i {
        seq![s.subrange(i, s.len() as int)]
    } else {
        seq![s.subrange(i, k)] + pieces_from(s, k + 1)
    }
}

/// The canonical texts of the literals of type `t` that `pieces` hold,
/// each between optional blanks; none if a piece holds no such literal.
pub open spec fn basic_elements(t: BasicType, pieces: Seq<Seq<char>>) -> Option<Seq<Seq<char>>> {
    if forall|i: int|
        0 <= i < pieces.len() ==> basic_literal(t, trimmed(#[trigger] pieces[i])) is Some {
        Some(Seq::new(pieces.len(), |i: int| basic_literal(t, trimmed(pieces[i]))->0))
    } else {
        None
    }
}

/// The canonical texts of the elements of the array literal `s` of
/// element type `t`: `s` is an opening bracket, literals of type `t`
/// separated by commas, each between optional blanks, and a closing
/// bracket. Brackets with nothing or only blanks between them hold no
/// element.
pub open spec fn basic_sequence(t: BasicType, s: Seq<char>) -> Option<Seq<Seq<char>>> {
    match bracketed(s) {
        Some(inner) => if trimmed(inner).len() == 0 {
            Some(Seq::empty())
        } else {
            basic_elements(t, pieces_from(inner, 0))
        },
        None => None,
    }
}

/// What stands between the brackets of `v`.
fn parse_brackets(v: &Vec<char>) -> (r: Option<Vec<char>>)
    ensures
        opt_view(r) == bracketed(v@),
{
    let n = v.len();
    if n >= 2 && v[0] == '[' && v[n - 1] == ']' {
        Some(slice_of(v, 1, n - 1))
    } else {
        None
    }
}

/// Reads `v` as an array literal of element type `t`.
pub fn parse_basic_sequence(t: BasicType, v: &Vec<char>) -> (r: Option<Vec<Vec<char>>>)
    ensures
        opt_rows_view(r) == basic_sequence(t, v@),
{
    let inner = match parse_brackets(v) {
        Some(inner) => inner,
        None => {
            return None;
        },
    };
    let mut out: Vec<Vec<char>> = Vec::new();
    if trim(&inner).len() == 0 {
        assert(rows_view(out@) =~= Seq::empty());
        return Some(out);
    }
    let n = inner.len();
    let ghost all = pieces_from(inner@, 0);
    let ghost mut done: Seq<Seq<char>> = Seq::empty();
    let mut i: usize = 0;
    assert(done + pieces_from(inner@, 0) =~= all);
    loop
        invariant
            i <= n,
            n == inner.len(),
            bracketed(v@) == Some(inner@),
            trimmed(inner@).len() != 0,
            all == pieces_from(inner@, 0),
            all == done + pieces_from(inner@, i as int),
            out.len() == done.len(),
            forall|k: int|
                0 <= k < done.len() ==> basic_literal(t, trimmed(#[trigger] done[k])) == Some(
                    out@[k]@,
                ),
        decreases n - i,
    {
        let k = scan_comma(&inner, i);
        let raw = slice_of(&inner, i, k);
        let piece = trim(&raw);
        proof {
            assert(pieces_from(inner@, i as int)[0] == raw@);
            assert(all[done.len() as int] == raw@);
        }
        match parse_basic(t, &piece) {
            Some(x) => {
                out.push(x);
            },
            None => {
                return None;
            },
        }
        proof {
            done = done.push(raw@);
        }
        if k >= n {
            proof {
                assert(all =~= done);
                assert(rows_view(out@) =~= basic_elements(t, all)->0);
            }
            return Some(out);
        }
        proof {
            assert(pieces_from(inner@, i as int) =~= seq![raw@] + pieces_from(inner@, k + 1));
            assert(all =~= done + pieces_from(inner@, k + 1));
        }
        i = k + 1;
    }
}

/// The elements `r` with `done` before them.
pub open spec fn with_items(done: Seq<Seq<char>>, r: Option<Seq<Seq<char>>>) -> Option<
    Seq<Seq<char>>,
> {
    match r {
        Some(x) => Some(done + x),
        None => None,
    }
}

/// The contents of the string literals of type `g` that stand in `s`
/// from index `i` on, separated by commas, each between optional
/// blanks. (The comma found is never before `i`; the test keeps the
/// definition well founded.)
pub open spec fn string_items(g: GenericString, s: Seq<char>, i: int) -> Option<Seq<Seq<char>>>
    decreases s.len() - i,
{
    let a = blanks_end(s, i);
    match quoted_at(s, a) {
        Some((c, e)) => {
            let b = blanks_end(s, e);
            if !fits(g, c) {
                None
            } else if b >= s.len() {
                Some(seq![c])
            } else if s[b] == ',' && b >= i {
                with_items(seq![c], string_items(g, s, b + 1))
            } else {
                None
            }
        },
        None => None,
    }
}

/// The contents of the elements of the array literal `s` whose elements
/// are strings of type `g`: `s` is an opening bracket, string literals
/// separated by commas, each between optional blanks, and a closing
/// bracket. Brackets with nothing or only blanks between them hold no
/// element.
pub open spec fn string_sequence(g: GenericString, s: Seq<char>) -> Option<Seq<Seq<char>>> {
    match bracketed(s) {
        Some(inner) => if trimmed(inner).len() == 0 {
            Some(Seq::empty())
        } else {
            string_items(g, inner, 0)
        },
        None => None,
    }
}

/// Reads `v` as an array literal whose elements are strings of type `g`.
pub fn parse_string_sequence(g: GenericString, v: &Vec<char>) -> (r: Option<Vec<Vec<char>>>)
    ensures
        opt_rows_view(r) == string_sequence(g, v@),
{
    let inner = match parse_brackets(v) {
        Some(inner) => inner,
        None => {
            return None;
        },
    };
    let mut out: Vec<Vec<char>> = Vec::new();
    if trim(&inner).len() == 0 {
        assert(rows_view(out@) =~= Seq::empty());
        return Some(out);
    }
    let n = inner.len();
    let ghost all = string_items(g, inner@, 0);
    let mut i: usize = 0;
    assert(rows_view(out@) =~= Seq::empty());
    proof {
        if all is Some {
            assert(Seq::<Seq<char>>::empty() + all->0 =~= all->0);
        }
    }
    loop
        invariant
            i <= n,
            n == inner.len(),
            bracketed(v@) == Some(inner@),
            trimmed(inner@).len() != 0,
            all == string_items(g, inner@, 0),
            all == with_items(rows_view(out@), string_items(g, inner@, i as int)),
        decreases n - i,
    {
        let a = skip_blanks(&inner, i);
        let (c, e) = match scan_quoted(&inner, a) {
            Some(found) => found,
            None => {
                return None;
            },
        };
        let b = skip_blanks(&inner, e);
        let fitting = match g.max_len() {
            Some(m) => c.len() <= m,
            None => true,
        };
        if !fitting {
            return None;
        }
        let ghost before = rows_view(out@);
        proof {
            lemma_rows_view_push(out@, c);
        }
        out.push(c);
        if b >= n {
            assert(before + seq![c@] =~= rows_view(out@));
            return Some(out);
        }
        if inner[b] != ',' {
            return None;
        }
        proof {
            let rest = string_items(g, inner@, b + 1);
            if rest is Some {
                assert(before + (seq![c@] + rest->0) =~= rows_view(out@) + rest->0);
            }
        }
        i = b + 1;
    }
}

} // verus!
