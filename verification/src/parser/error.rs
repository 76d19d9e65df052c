//! The errors of the parsers.

use vstd::prelude::*;

verus! {

/// What is wrong with the form of a declaration line.
#[derive(Debug, Clone, Copy, PartialEq, Eq, Hash, Structural)]
pub enum Fault {
    /// The line does not begin with a type.
    InvalidType,
    /// No name follows the type.
    MissingName,
    /// What follows the type is not a name of the right form.
    InvalidName,
    /// No equals sign follows the name of a constant.
    MissingEquals,
    /// No value follows the equals sign of a constant.
    MissingValue,
}

impl Fault {
    /// A description of the fault for the user.
    pub open spec fn description(self) -> Seq<char> {
        match self {
            Fault::InvalidType => "the line does not begin with a type"@,
            Fault::MissingName => "no name follows the type"@,
            Fault::InvalidName => "the name has not the right form"@,
            Fault::MissingEquals => "no equals sign follows the name"@,
            Fault::MissingValue => "no value follows the equals sign"@,
        }
    }

    /// A description of the fault for the user.
    pub fn describe(self) -> (r: &'static str)
        ensures
            r@ == self.description(),
    {
        match self {
            Fault::InvalidType => "the line does not begin with a type",
            Fault::MissingName => "no name follows the type",
            Fault::InvalidName => "the name has not the right form",
            Fault::MissingEquals => "no equals sign follows the name",
            Fault::MissingValue => "no value follows the equals sign",
        }
    }
}

/// The class of an error.
#[derive(Debug, Clone, Copy, PartialEq, Eq, Hash, Structural)]
pub enum ErrorKind {
    /// A declaration line does not have the form of a declaration.
    Grammar,
    /// A value is not a literal of its type, or has too many or too few
    /// elements, or is out of range.
    Value,
    /// A file has the wrong number of sections, or a default is given
    /// where none can be.
    Structure,
    /// Two packages have one name.
    Duplicate,
}

/// An error of a parser. Each variant carries the text it is about.
#[derive(Debug, Clone, PartialEq, Eq)]
pub enum RclMsgError {
    /// The line is not a member declaration.
    ParseMemberError { input: String, reason: Fault },
    /// The line is not a constant declaration.
    ParseConstantError { input: String, reason: Fault },
    /// The text is not a default value of the member's type.
    ParseDefaultValueError(String),
    /// The text is not a value of the constant's type.
    ParseConstantValueError(String),
    /// A default is given for a member of the named type, which refers
    /// to another definition.
    InvalidDefaultError(String),
    /// The text is not a service definition, for the reason given.
    InvalidServiceSpecification(String),
    /// The text is not an action definition, for the reason given.
    InvalidActionSpecification(String),
    /// The line of an index of interfaces names a file of no known kind.
    UnknownType(String),
    /// More than one package has the name.
    DuplicatePackage(String),
    /// The text is no path to definitions.
    InvalidMsgPath(String),
}

/// The mathematical content of an [`RclMsgError`].
pub enum RclMsgErrorView {
    ParseMemberError { input: Seq<char>, reason: Fault },
    ParseConstantError { input: Seq<char>, reason: Fault },
    ParseDefaultValueError(Seq<char>),
    ParseConstantValueError(Seq<char>),
    InvalidDefaultError(Seq<char>),
    InvalidServiceSpecification(Seq<char>),
    InvalidActionSpecification(Seq<char>),
    UnknownType(Seq<char>),
    DuplicatePackage(Seq<char>),
    InvalidMsgPath(Seq<char>),
}

impl RclMsgErrorView {
    /// The class of the error.
    pub open spec fn kind(self) -> ErrorKind {
        match self {
            RclMsgErrorView::ParseMemberError { .. } => ErrorKind::Grammar,
            RclMsgErrorView::ParseConstantError { .. } => ErrorKind::Grammar,
            RclMsgErrorView::ParseDefaultValueError(_) => ErrorKind::Value,
            RclMsgErrorView::ParseConstantValueError(_) => ErrorKind::Value,
            RclMsgErrorView::InvalidDefaultError(_) => ErrorKind::Structure,
            RclMsgErrorView::InvalidServiceSpecification(_) => ErrorKind::Structure,
            RclMsgErrorView::InvalidActionSpecification(_) => ErrorKind::Structure,
            RclMsgErrorView::UnknownType(_) => ErrorKind::Structure,
            RclMsgErrorView::DuplicatePackage(_) => ErrorKind::Duplicate,
            RclMsgErrorView::InvalidMsgPath(_) => ErrorKind::Grammar,
        }
    }

    /// The text that the error is about.
    pub open spec fn text(self) -> Seq<char> {
        match self {
            RclMsgErrorView::ParseMemberError { input, .. } => input,
            RclMsgErrorView::ParseConstantError { input, .. } => input,
            RclMsgErrorView::ParseDefaultValueError(s) => s,
            RclMsgErrorView::ParseConstantValueError(s) => s,
            RclMsgErrorView::InvalidDefaultError(s) => s,
            RclMsgErrorView::InvalidServiceSpecification(s) => s,
            RclMsgErrorView::InvalidActionSpecification(s) => s,
            RclMsgErrorView::UnknownType(s) => s,
            RclMsgErrorView::DuplicatePackage(s) => s,
            RclMsgErrorView::InvalidMsgPath(s) => s,
        }
    }
}

impl RclMsgErrorView {
    /// What stands before the text of the error in its message.
    pub open spec fn heading(self) -> Seq<char> {
        match self {
            RclMsgErrorView::ParseMemberError { .. } => "cannot parse member '"@,
            RclMsgErrorView::ParseConstantError { .. } => "cannot parse constant '"@,
            RclMsgErrorView::ParseDefaultValueError(_) => "cannot parse default value '"@,
            RclMsgErrorView::ParseConstantValueError(_) => "cannot parse constant value '"@,
            RclMsgErrorView::InvalidDefaultError(_) => "no default value can be given for '"@,
            RclMsgErrorView::InvalidServiceSpecification(_) => "invalid service specification '"@,
            RclMsgErrorView::InvalidActionSpecification(_) => "invalid action specification '"@,
            RclMsgErrorView::UnknownType(_) => "unknown type '"@,
            RclMsgErrorView::DuplicatePackage(_) => "multiple packages found with the name '"@,
            RclMsgErrorView::InvalidMsgPath(_) => "invalid message path '"@,
        }
    }

    /// What stands after the text of the error in its message: for a
    /// line that is no declaration, the description of its fault.
    pub open spec fn ending(self) -> Seq<char> {
        match self {
            RclMsgErrorView::ParseMemberError { reason, .. } => "': "@ + reason.description(),
            RclMsgErrorView::ParseConstantError { reason, .. } => "': "@ + reason.description(),
            _ => "'"@,
        }
    }

    /// The message of the error for the user: the heading of its
    /// variant, the text that the error is about between quotes, and
    /// its ending.
    pub open spec fn message(self) -> Seq<char> {
        self.heading() + self.text() + self.ending()
    }
}

impl View for RclMsgError {
    type V = RclMsgErrorView;

    open spec fn view(&self) -> RclMsgErrorView {
        match self {
            RclMsgError::ParseMemberError { input, reason } => RclMsgErrorView::ParseMemberError {
                input: input@,
                reason: *reason,
            },
            RclMsgError::ParseConstantError { input, reason } => {
                RclMsgErrorView::ParseConstantError { input: input@, reason: *reason }
            },
            RclMsgError::ParseDefaultValueError(s) => RclMsgErrorView::ParseDefaultValueError(s@),
            RclMsgError::ParseConstantValueError(s) => RclMsgErrorView::ParseConstantValueError(
                s@,
            ),
            RclMsgError::InvalidDefaultError(s) => RclMsgErrorView::InvalidDefaultError(s@),
            RclMsgError::InvalidServiceSpecification(s) => {
                RclMsgErrorView::InvalidServiceSpecification(s@)
            },
            RclMsgError::InvalidActionSpecification(s) => {
                RclMsgErrorView::InvalidActionSpecification(s@)
            },
            RclMsgError::UnknownType(s) => RclMsgErrorView::UnknownType(s@),
            RclMsgError::DuplicatePackage(s) => RclMsgErrorView::DuplicatePackage(s@),
            RclMsgError::InvalidMsgPath(s) => RclMsgErrorView::InvalidMsgPath(s@),
        }
    }
}

impl RclMsgError {
    /// The class of the error.
    pub fn kind(&self) -> (k: ErrorKind)
        ensures
            k == self@.kind(),
    {
        match self {
            RclMsgError::ParseMemberError { .. } => ErrorKind::Grammar,
            RclMsgError::ParseConstantError { .. } => ErrorKind::Grammar,
            RclMsgError::ParseDefaultValueError(_) => ErrorKind::Value,
            RclMsgError::ParseConstantValueError(_) => ErrorKind::Value,
            RclMsgError::InvalidDefaultError(_) => ErrorKind::Structure,
            RclMsgError::InvalidServiceSpecification(_) => ErrorKind::Structure,
            RclMsgError::InvalidActionSpecification(_) => ErrorKind::Structure,
            RclMsgError::UnknownType(_) => ErrorKind::Structure,
            RclMsgError::DuplicatePackage(_) => ErrorKind::Duplicate,
            RclMsgError::InvalidMsgPath(_) => ErrorKind::Grammar,
        }
    }

    /// The text that the error is about: the offending line, value or
    /// type, or the reason why a file is refused.
    pub fn text(&self) -> (s: &str)
        ensures
            s@ == self@.text(),
    {
        match self {
            RclMsgError::ParseMemberError { input, .. } => input.as_str(),
            RclMsgError::ParseConstantError { input, .. } => input.as_str(),
            RclMsgError::ParseDefaultValueError(s) => s.as_str(),
            RclMsgError::ParseConstantValueError(s) => s.as_str(),
            RclMsgError::InvalidDefaultError(s) => s.as_str(),
            RclMsgError::InvalidServiceSpecification(s) => s.as_str(),
            RclMsgError::InvalidActionSpecification(s) => s.as_str(),
            RclMsgError::UnknownType(s) => s.as_str(),
            RclMsgError::DuplicatePackage(s) => s.as_str(),
            RclMsgError::InvalidMsgPath(s) => s.as_str(),
        }
    }

    /// The message of the error for the user.
    pub fn message(&self) -> (r: String)
        ensures
            r@ == self@.message(),
    {
        let heading = match self {
            RclMsgError::ParseMemberError { .. } => "cannot parse member '",
            RclMsgError::ParseConstantError { .. } => "cannot parse constant '",
            RclMsgError::ParseDefaultValueError(_) => "cannot parse default value '",
            RclMsgError::ParseConstantValueError(_) => "cannot parse constant value '",
            RclMsgError::InvalidDefaultError(_) => "no default value can be given for '",
            RclMsgError::InvalidServiceSpecification(_) => "invalid service specification '",
            RclMsgError::InvalidActionSpecification(_) => "invalid action specification '",
            RclMsgError::UnknownType(_) => "unknown type '",
            RclMsgError::DuplicatePackage(_) => "multiple packages found with the name '",
            RclMsgError::InvalidMsgPath(_) => "invalid message path '",
        };
        let mut r = String::from_str(heading);
        r.append(self.text());
        match self {
            RclMsgError::ParseMemberError { reason, .. } => {
                r.append("': ");
                r.append(reason.describe());
                assert(r@ =~= self@.message());
            },
            RclMsgError::ParseConstantError { reason, .. } => {
                r.append("': ");
                r.append(reason.describe());
                assert(r@ =~= self@.message());
            },
            _ => {
                r.append("'");
            },
        }
        r
    }
}

} // verus!
