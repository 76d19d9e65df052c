//! Action definitions: a goal, a result and a feedback, each written as
//! a message, with a line of three dashes between one and the next.

use vstd::prelude::*;
use crate::parser::error::{RclMsgError, RclMsgErrorView};
use crate::parser::message::{
    lines_from, message_of_lines, parse_message_lines, split_lines,
};
use crate::parser::service::{
    find_separator, lemma_no_separator, lemma_separator_found, separator, separator_at,
};
use crate::parser::utils::{fix_newlines, fixed_newlines};
use crate::text::{chars_of, joined};
use crate::types::action::{Action, ActionView};

verus! {

/// Why a text with other than two separators is no definition of an
/// action.
pub open spec fn action_fault() -> Seq<char> {
    "Number of '---' separators nonconformant with action definition"@
}

/// The action named `name` of `package` that `lines` define: exactly
/// two lines are the separator; the lines before the first define the
/// goal, a message named `name` with `_Goal` after it, the lines
/// between the two the result, named with `_Result`, and the lines
/// after the second the feedback, named with `_Feedback`.
pub open spec fn action_of_lines(package: Seq<char>, name: Seq<char>, lines: Seq<Seq<char>>)
    -> Result<ActionView, RclMsgErrorView> {
    let k1 = separator_at(lines, 0);
    let k2 = separator_at(lines, k1 + 1);
    if k1 >= lines.len() || k2 >= lines.len() || separator_at(lines, k2 + 1) < lines.len() {
        Err(RclMsgErrorView::InvalidActionSpecification(action_fault()))
    } else {
        match message_of_lines(package, name + "_Goal"@, lines.subrange(0, k1)) {
            Err(e) => Err(e),
            Ok(goal) => match message_of_lines(
                package,
                name + "_Result"@,
                lines.subrange(k1 + 1, k2),
            ) {
                Err(e) => Err(e),
                Ok(result) => match message_of_lines(
                    package,
                    name + "_Feedback"@,
                    lines.subrange(k2 + 1, lines.len() as int),
                ) {
                    Err(e) => Err(e),
                    Ok(feedback) => Ok(ActionView { package, name, goal, result, feedback }),
                },
            },
        }
    }
}

/// The action named `name` of `package` that `text` defines.
pub open spec fn action_of(package: Seq<char>, name: Seq<char>, text: Seq<char>) -> Result<
    ActionView,
    RclMsgErrorView,
> {
    action_of_lines(package, name, lines_from(fixed_newlines(text), 0))
}

/// A goal, a result and a feedback with separators between them make an
/// action of the three: where none of `goal`, `result` and `feedback`
/// holds a separator, the lines `goal`, the separator, `result`, the
/// separator and `feedback` define the action of the three messages
/// that they define, if each defines one.
pub proof fn lemma_action_sections(
    package: Seq<char>,
    name: Seq<char>,
    goal: Seq<Seq<char>>,
    result: Seq<Seq<char>>,
    feedback: Seq<Seq<char>>,
)
    requires
        forall|k: int| 0 <= k < goal.len() ==> #[trigger] goal[k] != separator(),
        forall|k: int| 0 <= k < result.len() ==> #[trigger] result[k] != separator(),
        forall|k: int| 0 <= k < feedback.len() ==> #[trigger] feedback[k] != separator(),
        message_of_lines(package, name + "_Goal"@, goal) is Ok,
        message_of_lines(package, name + "_Result"@, result) is Ok,
        message_of_lines(package, name + "_Feedback"@, feedback) is Ok,
    ensures
        action_of_lines(
            package,
            name,
            goal + seq![separator()] + result + seq![separator()] + feedback,
        ) == Ok::<ActionView, RclMsgErrorView>(
            ActionView {
                package,
                name,
                goal: message_of_lines(package, name + "_Goal"@, goal)->Ok_0,
                result: message_of_lines(package, name + "_Result"@, result)->Ok_0,
                feedback: message_of_lines(package, name + "_Feedback"@, feedback)->Ok_0,
            },
        ),
{
    let lines = goal + seq![separator()] + result + seq![separator()] + feedback;
    let k1 = goal.len() as int;
    let k2 = k1 + 1 + result.len();
    assert forall|j: int| 0 <= j < k1 implies #[trigger] lines[j] != separator() by {
        assert(lines[j] == goal[j]);
    }
    lemma_separator_found(lines, 0, k1);
    assert forall|j: int| k1 + 1 <= j < k2 implies #[trigger] lines[j] != separator() by {
        assert(lines[j] == result[j - k1 - 1]);
    }
    lemma_separator_found(lines, k1 + 1, k2);
    assert forall|j: int| k2 + 1 <= j < lines.len() implies #[trigger] lines[j]
        != separator() by {
        assert(lines[j] == feedback[j - k2 - 1]);
    }
    lemma_no_separator(lines, k2 + 1);
    assert(lines.subrange(0, k1) =~= goal);
    assert(lines.subrange(k1 + 1, k2) =~= result);
    assert(lines.subrange(k2 + 1, lines.len() as int) =~= feedback);
}

/// The content of the result of parsing an action.
pub open spec fn action_result_view(r: Result<Action, RclMsgError>) -> Result<
    ActionView,
    RclMsgErrorView,
> {
    match r {
        Ok(a) => Ok(a@),
        Err(e) => Err(e@),
    }
}

/// Parses the definition of the action named `action_name` of the
/// package `pkg_name`.
///
/// The text must hold exactly two separator lines. The three sections
/// are parsed as the messages `{action_name}_Goal`,
/// `{action_name}_Result` and `{action_name}_Feedback`.
pub fn parse_action_string(pkg_name: &str, action_name: &str, action_string: &str) -> (r: Result<
    Action,
    RclMsgError,
>)
    ensures
        action_result_view(r) == action_of(pkg_name@, action_name@, action_string@),
        r is Ok ==> r->Ok_0@.well_formed(),
{
    let text = fix_newlines(action_string);
    let lines = split_lines(&chars_of(text.as_str()));
    let n = lines.len();
    let k1 = find_separator(&lines, 0);
    if k1 >= n {
        return Err(
            RclMsgError::InvalidActionSpecification(
                String::from_str("Number of '---' separators nonconformant with action definition"),
            ),
        );
    }
    let k2 = find_separator(&lines, k1 + 1);
    if k2 >= n || find_separator(&lines, k2 + 1) < n {
        return Err(
            RclMsgError::InvalidActionSpecification(
                String::from_str("Number of '---' separators nonconformant with action definition"),
            ),
        );
    }
    let goal_name = joined(action_name, "_Goal");
    let result_name = joined(action_name, "_Result");
    let feedback_name = joined(action_name, "_Feedback");
    let goal = parse_message_lines(pkg_name, goal_name.as_str(), &lines, 0, k1)?;
    let result = parse_message_lines(pkg_name, result_name.as_str(), &lines, k1 + 1, k2)?;
    let feedback = parse_message_lines(pkg_name, feedback_name.as_str(), &lines, k2 + 1, n)?;
    Ok(
        Action {
            package: String::from_str(pkg_name),
            name: String::from_str(action_name),
            goal,
            result,
            feedback,
        },
    )
}

} // verus!
