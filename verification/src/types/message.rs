//! Members, constants and messages.

use vstd::prelude::*;
use crate::text::strings_view;
use crate::types::constant::ConstantType;
use crate::types::member::{MemberType, MemberTypeView};
use crate::types::primitives::{BasicType, NestableType, NestableTypeView};

verus! {

/// A member of a structure.
#[derive(Debug, Clone, PartialEq, Eq)]
pub struct Member {
    /// The name of the member.
    pub name: String,
    /// The type of the member.
    pub type_: MemberType,
    /// The default value of the member, one literal for each element.
    pub default: Option<Vec<String>>,
}

/// The mathematical content of a [`Member`].
pub struct MemberView {
    pub name: Seq<char>,
    pub type_: MemberTypeView,
    pub default: Option<Seq<Seq<char>>>,
}

impl MemberView {
    /// A member without a default.
    pub open spec fn plain(name: Seq<char>, type_: MemberTypeView) -> MemberView {
        MemberView { name, type_, default: None }
    }

    /// A default is given only for types that can be written as literals,
    /// and holds as many literals as the type asks for.
    pub open spec fn well_formed(self) -> bool {
        match self.default {
            None => true,
            Some(d) => self.type_.value_type().is_primitive() && self.type_.admits_len(d.len()),
        }
    }

    /// The member that stands in for the members of an empty structure.
    pub open spec fn dummy() -> MemberView {
        MemberView::plain(
            "structure_needs_at_least_one_member"@,
            MemberTypeView::NestableType(NestableTypeView::BasicType(BasicType::U8)),
        )
    }
}

impl View for Member {
    type V = MemberView;

    open spec fn view(&self) -> MemberView {
        MemberView {
            name: self.name@,
            type_: self.type_@,
            default: match self.default {
                Some(v) => Some(strings_view(v@)),
                None => None,
            },
        }
    }
}

impl Member {
    /// The member that stands in for the members of a structure that has
    /// none.
    pub fn dummy() -> (r: Self)
        ensures
            r@ == MemberView::dummy(),
    {
        Member {
            name: String::from_str("structure_needs_at_least_one_member"),
            type_: MemberType::NestableType(NestableType::BasicType(BasicType::U8)),
            default: None,
        }
    }
}

/// A constant definition.
#[derive(Debug, Clone, PartialEq, Eq)]
pub struct Constant {
    /// The name of the constant.
    pub name: String,
    /// The type of the constant.
    pub type_: ConstantType,
    /// The value of the constant, one literal for each element.
    pub value: Vec<String>,
}

/// The mathematical content of a [`Constant`].
pub struct ConstantView {
    pub name: Seq<char>,
    pub type_: ConstantType,
    pub value: Seq<Seq<char>>,
}

impl ConstantView {
    /// The value holds as many literals as the type asks for.
    pub open spec fn well_formed(self) -> bool {
        self.type_.admits_len(self.value.len())
    }
}

impl View for Constant {
    type V = ConstantView;

    open spec fn view(&self) -> ConstantView {
        ConstantView { name: self.name@, type_: self.type_, value: strings_view(self.value@) }
    }
}

/// The contents of a sequence of members.
pub open spec fn members_view(v: Seq<Member>) -> Seq<MemberView> {
    Seq::new(v.len(), |i: int| v[i]@)
}

/// The contents of a sequence of constants.
pub open spec fn constants_view(v: Seq<Constant>) -> Seq<ConstantView> {
    Seq::new(v.len(), |i: int| v[i]@)
}

/// A message definition.
#[derive(Debug, Clone, PartialEq, Eq)]
pub struct Message {
    /// The package name.
    pub package: String,
    /// The name of the message.
    pub name: String,
    /// The members, in the order of their declaration.
    pub members: Vec<Member>,
    /// The constants, in the order of their declaration.
    pub constants: Vec<Constant>,
}

/// The mathematical content of a [`Message`].
pub struct MessageView {
    pub package: Seq<char>,
    pub name: Seq<char>,
    pub members: Seq<MemberView>,
    pub constants: Seq<ConstantView>,
}

impl MessageView {
    /// Every member and every constant is well formed.
    pub open spec fn well_formed(self) -> bool {
        &&& forall|i: int| 0 <= i < self.members.len() ==> (#[trigger] self.members[i]).well_formed()
        &&& forall|i: int|
            0 <= i < self.constants.len() ==> (#[trigger] self.constants[i]).well_formed()
    }

    /// The names of the members, in the order of their declaration.
    pub open spec fn member_names(self) -> Seq<Seq<char>> {
        Seq::new(self.members.len(), |i: int| self.members[i].name)
    }
}

impl View for Message {
    type V = MessageView;

    open spec fn view(&self) -> MessageView {
        MessageView {
            package: self.package@,
            name: self.name@,
            members: members_view(self.members@),
            constants: constants_view(self.constants@),
        }
    }
}

} // verus!
