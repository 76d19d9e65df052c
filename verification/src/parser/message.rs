//! Message definitions: one declaration on each line.
//!
//! A line that holds only blanks and a line whose first character after
//! leading blanks is `#` are passed over. Of the others, a line with an
//! equals sign after its second token declares a constant, and any
//! other line declares a member.

use vstd::prelude::*;
use crate::parser::constant::{constant_def, constant_of, equals_index, scan_name};
use crate::parser::error::{RclMsgError, RclMsgErrorView};
use crate::parser::member::{member_def, member_of};
use crate::parser::utils::{fix_newlines, fixed_newlines};
use crate::text::{
    chars_of, find_char, find_from, lemma_find_from_bounds, lemma_rows_view_push, rows_view,
    scan_token, skip_blanks, slice_of, string_of_all, trim, trimmed,
};
use crate::types::message::{
    constants_view, members_view, Constant, ConstantView, Member, MemberView, Message,
    MessageView,
};

verus! {

/// The lines of `s` from index `i` on: the text between line feeds. A
/// line feed at the end of `s` ends the last line and starts no other.
/// (The line feed found is never before `i`; the test keeps the
/// definition well founded.)
pub open spec fn lines_from(s: Seq<char>, i: int) -> Seq<Seq<char>>
    decreases s.len() - i,
{
    let k = find_from(s, '\n', i);
    if i < 0 || i >= s.len() {
        Seq::empty()
    } else if k >= s.len() || k < i {
        seq![s.subrange(i, s.len() as int)]
    } else {
        seq![s.subrange(i, k)] + lines_from(s, k + 1)
    }
}

/// The lines of `v`.
pub fn split_lines(v: &Vec<char>) -> (r: Vec<Vec<char>>)
    ensures
        rows_view(r@) == lines_from(v@, 0),
{
    let n = v.len();
    let mut r: Vec<Vec<char>> = Vec::new();
    let mut i: usize = 0;
    assert(rows_view(r@) =~= Seq::empty());
    assert(rows_view(r@) + lines_from(v@, 0) =~= lines_from(v@, 0));
    while i < n
        invariant
            i <= n,
            n == v.len(),
            lines_from(v@, 0) == rows_view(r@) + lines_from(v@, i as int),
        decreases n - i,
    {
        let k = find_char(v, '\n', i);
        let line = slice_of(v, i, k);
        let ghost before = rows_view(r@);
        proof {
            lemma_rows_view_push(r@, line);
        }
        r.push(line);
        if k >= n {
            assert(before + seq![line@] =~= rows_view(r@));
            return r;
        }
        assert(before + (seq![line@] + lines_from(v@, k + 1)) =~= rows_view(r@) + lines_from(
            v@,
            k + 1,
        ));
        i = k + 1;
    }
    assert(rows_view(r@) + Seq::empty() =~= rows_view(r@));
    r
}

/// Whether the line `t`, which has no blanks around it, declares
/// nothing: it is empty or a comment.
pub open spec fn is_ignored(t: Seq<char>) -> bool {
    t.len() == 0 || t[0] == '#'
}

/// Whether the line `t` declares a constant rather than a member: an
/// equals sign follows its second token.
pub open spec fn is_constant_line(t: Seq<char>) -> bool {
    let eq = equals_index(t);
    eq < t.len() && t[eq] == '='
}

/// Executable form of [`is_constant_line`].
pub fn constant_line(t: &Vec<char>) -> (b: bool)
    ensures
        b == is_constant_line(t@),
{
    let t_end = scan_token(t, 0);
    let n_start = skip_blanks(t, t_end);
    let n_end = scan_name(t, n_start);
    let eq = skip_blanks(t, n_end);
    eq < t.len() && t[eq] == '='
}

/// The members and the constants that a run of lines declares.
pub struct Declarations {
    pub members: Seq<MemberView>,
    pub constants: Seq<ConstantView>,
}

/// What the line `line` adds to the declarations `d`: nothing if it is
/// empty or a comment, else the constant or the member that it
/// declares, or the error that it gives.
pub open spec fn declare(d: Declarations, line: Seq<char>) -> Result<
    Declarations,
    RclMsgErrorView,
> {
    let t = trimmed(line);
    if is_ignored(t) {
        Ok(d)
    } else if is_constant_line(t) {
        match constant_of(t) {
            Ok(c) => Ok(Declarations { members: d.members, constants: d.constants.push(c) }),
            Err(e) => Err(e),
        }
    } else {
        match member_of(t) {
            Ok(m) => Ok(Declarations { members: d.members.push(m), constants: d.constants }),
            Err(e) => Err(e),
        }
    }
}

/// The members and the constants that `lines` declare, each in the
/// order of the lines, or the error of the first line that gives one.
pub open spec fn declarations_of(lines: Seq<Seq<char>>) -> Result<Declarations, RclMsgErrorView>
    decreases lines.len(),
{
    if lines.len() == 0 {
        Ok(Declarations { members: Seq::empty(), constants: Seq::empty() })
    } else {
        match declarations_of(lines.drop_last()) {
            Ok(d) => declare(d, lines.last()),
            Err(e) => Err(e),
        }
    }
}

/// An error among the first `k` lines is the error of all the lines.
pub proof fn lemma_first_error(lines: Seq<Seq<char>>, k: int)
    requires
        0 <= k <= lines.len(),
        declarations_of(lines.subrange(0, k)) is Err,
    ensures
        declarations_of(lines) == declarations_of(lines.subrange(0, k)),
    decreases lines.len() - k,
{
    if k == lines.len() {
        assert(lines.subrange(0, k) =~= lines);
    } else {
        let next = lines.subrange(0, k + 1);
        assert(next.drop_last() =~= lines.subrange(0, k));
        lemma_first_error(lines, k + 1);
    }
}

/// Whether the line `line` declares a member.
pub open spec fn is_member_line(line: Seq<char>) -> bool {
    !is_ignored(trimmed(line)) && !is_constant_line(trimmed(line))
}

/// Whether the line `line` declares a constant.
pub open spec fn is_constant_declaration(line: Seq<char>) -> bool {
    !is_ignored(trimmed(line)) && is_constant_line(trimmed(line))
}

/// The lines among `lines` that declare a member, in their order.
pub open spec fn member_lines(lines: Seq<Seq<char>>) -> Seq<Seq<char>> {
    lines.filter(|l: Seq<char>| is_member_line(l))
}

/// The lines among `lines` that declare a constant, in their order.
pub open spec fn constant_lines(lines: Seq<Seq<char>>) -> Seq<Seq<char>> {
    lines.filter(|l: Seq<char>| is_constant_declaration(l))
}

/// Declarations keep the order of their lines: where `lines` define a
/// message, its members are the members that the member lines declare,
/// one for each such line and in the order of the lines, and so are
/// its constants.
pub proof fn lemma_declaration_order(lines: Seq<Seq<char>>)
    requires
        declarations_of(lines) is Ok,
    ensures
        declarations_of(lines)->Ok_0.members.len() == member_lines(lines).len(),
        forall|i: int|
            0 <= i < member_lines(lines).len() ==> member_of(
                trimmed(#[trigger] member_lines(lines)[i]),
            ) == Ok::<MemberView, RclMsgErrorView>(declarations_of(lines)->Ok_0.members[i]),
        declarations_of(lines)->Ok_0.constants.len() == constant_lines(lines).len(),
        forall|i: int|
            0 <= i < constant_lines(lines).len() ==> constant_of(
                trimmed(#[trigger] constant_lines(lines)[i]),
            ) == Ok::<ConstantView, RclMsgErrorView>(declarations_of(lines)->Ok_0.constants[i]),
    decreases lines.len(),
{
    reveal(Seq::filter);
    if lines.len() > 0 {
        lemma_declaration_order(lines.drop_last());
    }
}

/// The message named `name` of `package` that `lines` declare.
pub open spec fn message_of_lines(package: Seq<char>, name: Seq<char>, lines: Seq<Seq<char>>)
    -> Result<MessageView, RclMsgErrorView> {
    match declarations_of(lines) {
        Ok(d) => Ok(MessageView { package, name, members: d.members, constants: d.constants }),
        Err(e) => Err(e),
    }
}

/// The message named `name` of `package` that `text` defines.
pub open spec fn message_of(package: Seq<char>, name: Seq<char>, text: Seq<char>) -> Result<
    MessageView,
    RclMsgErrorView,
> {
    message_of_lines(package, name, lines_from(fixed_newlines(text), 0))
}

/// The content of the result of parsing a message.
pub open spec fn message_result_view(r: Result<Message, RclMsgError>) -> Result<
    MessageView,
    RclMsgErrorView,
> {
    match r {
        Ok(m) => Ok(m@),
        Err(e) => Err(e@),
    }
}

/// Parses the lines `lines[from..to]` as the definition of the message
/// named `msg_name` of the package `pkg_name`.
pub fn parse_message_lines(
    pkg_name: &str,
    msg_name: &str,
    lines: &Vec<Vec<char>>,
    from: usize,
    to: usize,
) -> (r: Result<Message, RclMsgError>)
    requires
        from <= to <= lines.len(),
    ensures
        message_result_view(r) == message_of_lines(
            pkg_name@,
            msg_name@,
            rows_view(lines@).subrange(from as int, to as int),
        ),
        r is Ok ==> r->Ok_0@.well_formed(),
{
    let ghost all = rows_view(lines@).subrange(from as int, to as int);
    let mut members: Vec<Member> = Vec::new();
    let mut constants: Vec<Constant> = Vec::new();
    let mut i: usize = from;
    assert(all.subrange(0, 0) =~= Seq::empty());
    assert(members_view(members@) =~= Seq::empty());
    assert(constants_view(constants@) =~= Seq::empty());
    while i < to
        invariant
            from <= i <= to <= lines.len(),
            all == rows_view(lines@).subrange(from as int, to as int),
            declarations_of(all.subrange(0, i - from)) == Ok::<Declarations, RclMsgErrorView>(
                Declarations {
                    members: members_view(members@),
                    constants: constants_view(constants@),
                },
            ),
            forall|k: int| 0 <= k < members.len() ==> (#[trigger] members@[k])@.well_formed(),
            forall|k: int| 0 <= k < constants.len() ==> (#[trigger] constants@[k])@.well_formed(),
        decreases to - i,
    {
        let t = trim(&lines[i]);
        proof {
            let next = all.subrange(0, i + 1 - from);
            assert(next.drop_last() =~= all.subrange(0, i - from));
            assert(next.last() == lines@[i as int]@);
        }
        if t.len() == 0 || t[0] == '#' {
        } else if constant_line(&t) {
            let line = string_of_all(&t);
            match constant_def(line.as_str()) {
                Ok(c) => {
                    assert(constants_view(constants@.push(c)) =~= constants_view(
                        constants@,
                    ).push(c@));
                    constants.push(c);
                },
                Err(e) => {
                    proof {
                        lemma_first_error(all, i + 1 - from);
                    }
                    return Err(e);
                },
            }
        } else {
            let line = string_of_all(&t);
            match member_def(line.as_str()) {
                Ok(m) => {
                    assert(members_view(members@.push(m)) =~= members_view(members@).push(m@));
                    members.push(m);
                },
                Err(e) => {
                    proof {
                        lemma_first_error(all, i + 1 - from);
                    }
                    return Err(e);
                },
            }
        }
        i = i + 1;
    }
    assert(all.subrange(0, to - from) =~= all);
    Ok(
        Message {
            package: String::from_str(pkg_name),
            name: String::from_str(msg_name),
            members,
            constants,
        },
    )
}

/// Parses the definition of the message named `msg_name` of the
/// package `pkg_name`.
///
/// The members and the constants of the message stand in the order of
/// their lines. The first line that is no declaration gives the error.
pub fn parse_message_string(pkg_name: &str, msg_name: &str, message_string: &str) -> (r: Result<
    Message,
    RclMsgError,
>)
    ensures
        message_result_view(r) == message_of(pkg_name@, msg_name@, message_string@),
        r is Ok ==> r->Ok_0@.well_formed(),
{
    let text = fix_newlines(message_string);
    let lines = split_lines(&chars_of(text.as_str()));
    assert(rows_view(lines@).subrange(0, lines.len() as int) =~= rows_view(lines@));
    parse_message_lines(pkg_name, msg_name, &lines, 0, lines.len())
}

/// Looking for a character in the second of two texts joined is looking
/// for it in the second text.
pub proof fn lemma_find_shift(a: Seq<char>, b: Seq<char>, c: char, j: int)
    requires
        0 <= j <= b.len(),
    ensures
        find_from(a + b, c, a.len() + j) == a.len() + find_from(b, c, j),
    decreases b.len() - j,
{
    if j < b.len() {
        assert((a + b)[a.len() + j] == b[j]);
        if b[j] != c {
            lemma_find_shift(a, b, c, j + 1);
        }
    }
}

/// The lines of the second of two texts joined are the lines of the
/// second text.
pub proof fn lemma_lines_shift(a: Seq<char>, b: Seq<char>, j: int)
    requires
        0 <= j <= b.len(),
    ensures
        lines_from(a + b, a.len() + j) == lines_from(b, j),
    decreases b.len() - j,
{
    if j < b.len() {
        lemma_find_shift(a, b, '\n', j);
        lemma_find_from_bounds(b, '\n', j);
        let k = find_from(b, '\n', j);
        if k < b.len() {
            lemma_lines_shift(a, b, k + 1);
            assert((a + b).subrange(a.len() + j, a.len() + k) =~= b.subrange(j, k));
        } else {
            assert((a + b).subrange(a.len() + j, (a + b).len() as int) =~= b.subrange(
                j,
                b.len() as int,
            ));
        }
    }
}

/// The lines of two texts joined, of which the first is empty or ends
/// with a line feed, are the lines of the first and then the lines of
/// the second.
pub proof fn lemma_lines_concat(a: Seq<char>, b: Seq<char>, i: int)
    requires
        0 <= i <= a.len(),
        a.len() > 0 ==> a.last() == '\n',
    ensures
        lines_from(a + b, i) == lines_from(a, i) + lines_from(b, 0),
    decreases a.len() - i,
{
    if i == a.len() {
        lemma_lines_shift(a, b, 0);
        assert(lines_from(a, i) + lines_from(b, 0) =~= lines_from(b, 0));
    } else {
        lemma_find_from_bounds(a, '\n', i);
        let k = find_from(a, '\n', i);
        assert(k < a.len()) by {
            if k >= a.len() {
                assert(a[a.len() - 1] != '\n');
            }
        }
        lemma_find_prefix(a, b, '\n', i);
        lemma_lines_concat(a, b, k + 1);
        assert((a + b).subrange(i, k) =~= a.subrange(i, k));
        assert(seq![a.subrange(i, k)] + (lines_from(a, k + 1) + lines_from(b, 0)) =~= (seq![
            a.subrange(i, k),
        ] + lines_from(a, k + 1)) + lines_from(b, 0));
    }
}

/// A character that the first of two texts joined holds at or after
/// `i` is found there in the joined text.
pub proof fn lemma_find_prefix(a: Seq<char>, b: Seq<char>, c: char, i: int)
    requires
        0 <= i <= a.len(),
        find_from(a, c, i) < a.len(),
    ensures
        find_from(a + b, c, i) == find_from(a, c, i),
    decreases a.len() - i,
{
    if i < a.len() {
        assert((a + b)[i] == a[i]);
        if a[i] != c {
            lemma_find_prefix(a, b, c, i + 1);
        }
    }
}

} // verus!
