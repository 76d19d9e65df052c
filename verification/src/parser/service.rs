//! Service definitions: a request and a response, each written as a
//! message, with a line of three dashes between them.

use vstd::prelude::*;
use crate::parser::error::{RclMsgError, RclMsgErrorView};
use crate::parser::message::{
    lemma_lines_concat, lines_from, message_of_lines, parse_message_lines, split_lines,
};
use crate::parser::utils::{fix_newlines, fixed_newlines, lemma_fixed_newlines_plain};
use crate::text::{chars_eq, chars_of, find_from, joined, rows_view};
use crate::types::service::{Service, ServiceView};

verus! {

/// The line that stands between the sections of a definition.
pub open spec fn separator() -> Seq<char> {
    "---"@
}

/// The first index at or after `i` of a line of `lines` that is the
/// separator, or the number of lines when there is none.
pub open spec fn separator_at(lines: Seq<Seq<char>>, i: int) -> int
    decreases lines.len() - i,
{
    if i < 0 || i >= lines.len() || lines[i] == separator() {
        i
    } else {
        separator_at(lines, i + 1)
    }
}

/// The separator found from `i` on lies between `i` and the number of
/// lines, and no line before it is a separator.
pub proof fn lemma_separator_at_bounds(lines: Seq<Seq<char>>, i: int)
    requires
        0 <= i <= lines.len(),
    ensures
        i <= separator_at(lines, i) <= lines.len(),
        separator_at(lines, i) < lines.len() ==> lines[separator_at(lines, i)] == separator(),
        forall|k: int| i <= k < separator_at(lines, i) ==> #[trigger] lines[k] != separator(),
    decreases lines.len() - i,
{
    if i < lines.len() && lines[i] != separator() {
        lemma_separator_at_bounds(lines, i + 1);
    }
}

/// Where no line from `i` on is the separator, none is found.
pub proof fn lemma_no_separator(lines: Seq<Seq<char>>, i: int)
    requires
        0 <= i <= lines.len(),
        forall|k: int| i <= k < lines.len() ==> #[trigger] lines[k] != separator(),
    ensures
        separator_at(lines, i) == lines.len(),
    decreases lines.len() - i,
{
    if i < lines.len() {
        lemma_no_separator(lines, i + 1);
    }
}

/// The first separator from `i` on is at `k` if the line at `k` is the
/// separator and no line between `i` and `k` is.
pub proof fn lemma_separator_found(lines: Seq<Seq<char>>, i: int, k: int)
    requires
        0 <= i <= k < lines.len(),
        lines[k] == separator(),
        forall|j: int| i <= j < k ==> #[trigger] lines[j] != separator(),
    ensures
        separator_at(lines, i) == k,
    decreases k - i,
{
    if i < k {
        lemma_separator_found(lines, i + 1, k);
    }
}

/// The first index at or after `i` of a separator among `lines`.
pub fn find_separator(lines: &Vec<Vec<char>>, i: usize) -> (j: usize)
    requires
        i <= lines.len(),
    ensures
        j == separator_at(rows_view(lines@), i as int),
        i <= j <= lines.len(),
{
    let mut j: usize = i;
    while j < lines.len()
        invariant
            i <= j <= lines.len(),
            separator_at(rows_view(lines@), i as int) == separator_at(rows_view(lines@), j as int),
        decreases lines.len() - j,
    {
        if chars_eq(&lines[j], "---") {
            return j;
        }
        j = j + 1;
    }
    j
}

/// Why a text with other than one separator is no definition of the
/// service `name` of `package`.
pub open spec fn service_fault(package: Seq<char>, name: Seq<char>) -> Seq<char> {
    "Expect one '---' seperator in "@ + package + "/"@ + name + " service definition"@
}

/// The service named `name` of `package` that `lines` define: exactly
/// one line is the separator; the lines before it define the request,
/// a message named `name` with `_Request` after it, and the lines
/// after it the response, named with `_Response`.
pub open spec fn service_of_lines(package: Seq<char>, name: Seq<char>, lines: Seq<Seq<char>>)
    -> Result<ServiceView, RclMsgErrorView> {
    let k = separator_at(lines, 0);
    if k >= lines.len() || separator_at(lines, k + 1) < lines.len() {
        Err(RclMsgErrorView::InvalidServiceSpecification(service_fault(package, name)))
    } else {
        match message_of_lines(package, name + "_Request"@, lines.subrange(0, k)) {
            Err(e) => Err(e),
            Ok(request) => match message_of_lines(
                package,
                name + "_Response"@,
                lines.subrange(k + 1, lines.len() as int),
            ) {
                Err(e) => Err(e),
                Ok(response) => Ok(ServiceView { package, name, request, response }),
            },
        }
    }
}

/// The service named `name` of `package` that `text` defines.
pub open spec fn service_of(package: Seq<char>, name: Seq<char>, text: Seq<char>) -> Result<
    ServiceView,
    RclMsgErrorView,
> {
    service_of_lines(package, name, lines_from(fixed_newlines(text), 0))
}

/// A request, a separator and a response make a service of the two:
/// where neither `before` nor `after` holds a separator, the lines
/// `before`, the separator and `after` define the service whose request
/// is the message of `before` and whose response is the message of
/// `after`; an error in `before` comes first.
pub proof fn lemma_service_sections(
    package: Seq<char>,
    name: Seq<char>,
    before: Seq<Seq<char>>,
    after: Seq<Seq<char>>,
)
    requires
        forall|k: int| 0 <= k < before.len() ==> #[trigger] before[k] != separator(),
        forall|k: int| 0 <= k < after.len() ==> #[trigger] after[k] != separator(),
    ensures
        service_of_lines(package, name, before + seq![separator()] + after) == (match (
            message_of_lines(package, name + "_Request"@, before),
            message_of_lines(package, name + "_Response"@, after),
        ) {
            (Err(e), _) => Err::<ServiceView, RclMsgErrorView>(e),
            (Ok(_), Err(e)) => Err(e),
            (Ok(request), Ok(response)) => Ok(ServiceView { package, name, request, response }),
        }),
{
    let lines = before + seq![separator()] + after;
    let k = before.len() as int;
    assert forall|j: int| 0 <= j < k implies #[trigger] lines[j] != separator() by {
        assert(lines[j] == before[j]);
    }
    lemma_separator_found(lines, 0, k);
    assert forall|j: int| k + 1 <= j < lines.len() implies #[trigger] lines[j] != separator() by {
        assert(lines[j] == after[j - k - 1]);
    }
    lemma_no_separator(lines, k + 1);
    assert(lines.subrange(0, k) =~= before);
    assert(lines.subrange(k + 1, lines.len() as int) =~= after);
}

/// Lines without a separator define no service, and neither do lines
/// with two separators or more.
pub proof fn lemma_service_separators(package: Seq<char>, name: Seq<char>, lines: Seq<Seq<char>>)
    requires
        (forall|k: int| 0 <= k < lines.len() ==> #[trigger] lines[k] != separator()) || (exists|
            i: int,
            j: int,
        |
            0 <= i < j < lines.len() && lines[i] == separator() && lines[j] == separator()),
    ensures
        service_of_lines(package, name, lines) == Err::<ServiceView, RclMsgErrorView>(
            RclMsgErrorView::InvalidServiceSpecification(service_fault(package, name)),
        ),
{
    if forall|k: int| 0 <= k < lines.len() ==> #[trigger] lines[k] != separator() {
        lemma_no_separator(lines, 0);
    } else {
        let (i, j) = choose|i: int, j: int|
            0 <= i < j < lines.len() && lines[i] == separator() && lines[j] == separator();
        lemma_separator_at_bounds(lines, 0);
        let k = separator_at(lines, 0);
        assert(k <= i);
        lemma_separator_at_bounds(lines, k + 1);
        assert(separator_at(lines, k + 1) <= j);
    }
}

/// The content of the result of parsing a service.
pub open spec fn service_result_view(r: Result<Service, RclMsgError>) -> Result<
    ServiceView,
    RclMsgErrorView,
> {
    match r {
        Ok(s) => Ok(s@),
        Err(e) => Err(e@),
    }
}

/// The text of the error for a wrong number of separators.
fn service_fault_text(pkg_name: &str, srv_name: &str) -> (r: String)
    ensures
        r@ == service_fault(pkg_name@, srv_name@),
{
    let mut r = String::from_str("Expect one '---' seperator in ");
    r.append(pkg_name);
    r.append("/");
    r.append(srv_name);
    r.append(" service definition");
    r
}

/// Parses the definition of the service named `srv_name` of the
/// package `pkg_name`.
///
/// The text must hold exactly one separator line. What stands before it
/// is parsed as the message `{srv_name}_Request`, what stands after it
/// as the message `{srv_name}_Response`.
pub fn parse_service_string(pkg_name: &str, srv_name: &str, service_string: &str) -> (r: Result<
    Service,
    RclMsgError,
>)
    ensures
        service_result_view(r) == service_of(pkg_name@, srv_name@, service_string@),
        r is Ok ==> r->Ok_0@.well_formed(),
{
    let text = fix_newlines(service_string);
    let lines = split_lines(&chars_of(text.as_str()));
    let n = lines.len();
    let k = find_separator(&lines, 0);
    if k >= n {
        return Err(
            RclMsgError::InvalidServiceSpecification(service_fault_text(pkg_name, srv_name)),
        );
    }
    if find_separator(&lines, k + 1) < n {
        return Err(
            RclMsgError::InvalidServiceSpecification(service_fault_text(pkg_name, srv_name)),
        );
    }
    let request_name = joined(srv_name, "_Request");
    let response_name = joined(srv_name, "_Response");
    let request = parse_message_lines(pkg_name, request_name.as_str(), &lines, 0, k)?;
    let response = parse_message_lines(pkg_name, response_name.as_str(), &lines, k + 1, n)?;
    Ok(
        Service {
            package: String::from_str(pkg_name),
            name: String::from_str(srv_name),
            request,
            response,
        },
    )
}

/// Whether `s` is a text in normal form: it holds no carriage return,
/// and it is empty or ends with a line feed.
pub open spec fn is_plain(s: Seq<char>) -> bool {
    &&& forall|i: int| 0 <= i < s.len() ==> #[trigger] s[i] != '\r'
    &&& s.len() > 0 ==> s.last() == '\n'
}

/// The lines of a separator line alone.
pub proof fn lemma_separator_line()
    ensures
        lines_from("---\n"@, 0) == seq![separator()],
        is_plain("---\n"@),
        "---\n"@.len() == 4,
{
    reveal_strlit("---\n");
    reveal_strlit("---");
    let s = "---\n"@;
    assert(find_from(s, '\n', 3) == 3);
    assert(find_from(s, '\n', 2) == 3);
    assert(find_from(s, '\n', 1) == 3);
    assert(find_from(s, '\n', 0) == 3);
    assert(s.subrange(0, 3) =~= "---"@);
    assert(lines_from(s, 4) =~= Seq::empty());
    assert(lines_from(s, 0) =~= seq![s.subrange(0, 3)] + lines_from(s, 4));
}

/// A request, a separator line and a response make a service of the
/// two: where `request` and `response` are texts in normal form whose
/// lines hold no separator, the text `request`, then a separator line,
/// then `response` defines the service whose request is the message of
/// the lines of `request` and whose response is the message of the
/// lines of `response`; an error in the request comes first.
pub proof fn lemma_service_text(
    package: Seq<char>,
    name: Seq<char>,
    request: Seq<char>,
    response: Seq<char>,
)
    requires
        is_plain(request),
        is_plain(response),
        forall|k: int|
            0 <= k < lines_from(request, 0).len() ==> #[trigger] lines_from(request, 0)[k]
                != separator(),
        forall|k: int|
            0 <= k < lines_from(response, 0).len() ==> #[trigger] lines_from(response, 0)[k]
                != separator(),
    ensures
        service_of(package, name, request + "---\n"@ + response) == (match (
            message_of_lines(package, name + "_Request"@, lines_from(request, 0)),
            message_of_lines(package, name + "_Response"@, lines_from(response, 0)),
        ) {
            (Err(e), _) => Err::<ServiceView, RclMsgErrorView>(e),
            (Ok(_), Err(e)) => Err(e),
            (Ok(request), Ok(response)) => Ok(ServiceView { package, name, request, response }),
        }),
{
    let middle = "---\n"@;
    let head = request + middle;
    let text = head + response;
    lemma_separator_line();
    assert(text.len() > 0 && text.last() == '\n' && head.last() == '\n') by {
        assert(head[head.len() - 1] == middle[3]);
        if response.len() > 0 {
            assert(text[text.len() - 1] == response[response.len() - 1]);
        } else {
            assert(text =~= head);
        }
    }
    assert forall|i: int| 0 <= i < text.len() implies #[trigger] text[i] != '\r' by {
        if i < request.len() {
            assert(text[i] == request[i]);
        } else if i < head.len() {
            assert(text[i] == middle[i - request.len()]);
        } else {
            assert(text[i] == response[i - head.len()]);
        }
    }
    lemma_fixed_newlines_plain(text);
    lemma_lines_concat(request, middle, 0);
    lemma_lines_concat(head, response, 0);
    assert(lines_from(text, 0) =~= lines_from(request, 0) + seq![separator()] + lines_from(
        response,
        0,
    ));
    lemma_service_sections(package, name, lines_from(request, 0), lines_from(response, 0));
}

} // verus!
