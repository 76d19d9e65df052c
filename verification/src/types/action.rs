//! Actions, and the services and the message that every action implies.

use vstd::prelude::*;
use crate::text::joined;
use crate::types::member::{MemberType, MemberTypeView};
use crate::types::message::{Member, MemberView, Message, MessageView};
use crate::types::primitives::{
    BasicType, NamespacedType, NamespacedTypeView, NestableType, NestableTypeView,
};
use crate::types::service::{Service, ServiceView};

verus! {

/// An action definition.
#[derive(Debug, Clone, PartialEq, Eq)]
pub struct Action {
    /// The name of the package.
    pub package: String,
    /// The name of the action.
    pub name: String,
    /// The type of the goal.
    pub goal: Message,
    /// The type of the result.
    pub result: Message,
    /// The type of the feedback.
    pub feedback: Message,
}

/// The mathematical content of an [`Action`].
pub struct ActionView {
    pub package: Seq<char>,
    pub name: Seq<char>,
    pub goal: MessageView,
    pub result: MessageView,
    pub feedback: MessageView,
}

impl ActionView {
    /// The goal, the result and the feedback are well formed.
    pub open spec fn well_formed(self) -> bool {
        self.goal.well_formed() && self.result.well_formed() && self.feedback.well_formed()
    }
}

impl View for Action {
    type V = ActionView;

    open spec fn view(&self) -> ActionView {
        ActionView {
            package: self.package@,
            name: self.name@,
            goal: self.goal@,
            result: self.result@,
            feedback: self.feedback@,
        }
    }
}

/// A member without a default whose type is a reference by package,
/// namespace and name.
pub open spec fn reference_member(
    name: Seq<char>,
    package: Seq<char>,
    namespace: Seq<char>,
    target: Seq<char>,
) -> MemberView {
    MemberView::plain(
        name,
        MemberTypeView::NestableType(
            NestableTypeView::NamespacedType(
                NamespacedTypeView { package, namespace, name: target },
            ),
        ),
    )
}

/// A member without a default whose type is a basic type.
pub open spec fn basic_member(name: Seq<char>, t: BasicType) -> MemberView {
    MemberView::plain(name, MemberTypeView::NestableType(NestableTypeView::BasicType(t)))
}

/// The member `goal_id` that identifies a goal: a
/// `unique_identifier_msgs/msg/UUID`.
pub open spec fn goal_id_member() -> MemberView {
    reference_member("goal_id"@, "unique_identifier_msgs"@, "msg"@, "UUID"@)
}

impl ActionView {
    /// The service by which a client sends a goal. The request carries
    /// the goal's identifier and the goal; the response tells whether the
    /// goal was accepted, and when.
    pub open spec fn send_goal_srv(self) -> ServiceView {
        let common = self.name + "_SendGoal"@;
        ServiceView {
            package: self.package,
            name: common,
            request: MessageView {
                package: self.package,
                name: common + "_Request"@,
                members: seq![
                    goal_id_member(),
                    reference_member("goal"@, self.package, "action"@, self.name + "_Goal"@),
                ],
                constants: Seq::empty(),
            },
            response: MessageView {
                package: self.package,
                name: common + "_Response"@,
                members: seq![
                    basic_member("accepted"@, BasicType::Bool),
                    reference_member("stamp"@, "builtin_interfaces"@, "msg"@, "Time"@),
                ],
                constants: Seq::empty(),
            },
        }
    }

    /// The service by which a client asks for the result of a goal. The
    /// request carries the goal's identifier; the response carries a
    /// status code and the result.
    pub open spec fn get_result_srv(self) -> ServiceView {
        let common = self.name + "_GetResult"@;
        ServiceView {
            package: self.package,
            name: common,
            request: MessageView {
                package: self.package,
                name: common + "_Request"@,
                members: seq![goal_id_member()],
                constants: Seq::empty(),
            },
            response: MessageView {
                package: self.package,
                name: common + "_Response"@,
                members: seq![
                    basic_member("status"@, BasicType::I8),
                    reference_member("result"@, self.package, "action"@, self.name + "_Result"@),
                ],
                constants: Seq::empty(),
            },
        }
    }

    /// The message by which feedback on a goal is published: the goal's
    /// identifier and the feedback.
    pub open spec fn feedback_message_msg(self) -> MessageView {
        MessageView {
            package: self.package,
            name: self.name + "_FeedbackMessage"@,
            members: seq![
                goal_id_member(),
                reference_member(
                    "feedback"@,
                    self.package,
                    "action"@,
                    self.name + "_Feedback"@,
                ),
            ],
            constants: Seq::empty(),
        }
    }
}

/// A member named `name` without a default that refers to
/// `package/namespace/target`.
fn make_reference_member(name: &str, package: &str, namespace: &str, target: String) -> (r:
    Member)
    ensures
        r@ == reference_member(name@, package@, namespace@, target@),
{
    Member {
        name: String::from_str(name),
        type_: MemberType::NestableType(
            NestableType::NamespacedType(
                NamespacedType {
                    package: String::from_str(package),
                    namespace: String::from_str(namespace),
                    name: target,
                },
            ),
        ),
        default: None,
    }
}

/// A member named `name` without a default, of the basic type `t`.
fn make_basic_member(name: &str, t: BasicType) -> (r: Member)
    ensures
        r@ == basic_member(name@, t),
{
    Member {
        name: String::from_str(name),
        type_: MemberType::NestableType(NestableType::BasicType(t)),
        default: None,
    }
}

/// A message of `package` named `name` with the given members and no
/// constants.
fn make_message(package: &str, name: String, members: Vec<Member>) -> (r: Message)
    ensures
        r@ == (MessageView {
            package: package@,
            name: name@,
            members: crate::types::message::members_view(members@),
            constants: Seq::empty(),
        }),
{
    let r = Message {
        package: String::from_str(package),
        name,
        members,
        constants: Vec::new(),
    };
    assert(crate::types::message::constants_view(r.constants@) =~= Seq::empty());
    r
}

/// The member `goal_id` that identifies a goal.
pub fn goal_id_type() -> (r: Member)
    ensures
        r@ == goal_id_member(),
{
    make_reference_member("goal_id", "unique_identifier_msgs", "msg", String::from_str("UUID"))
}

impl Action {
    /// The service by which a client sends a goal of this action.
    pub fn send_goal_srv(&self) -> (r: Service)
        ensures
            r@ == self@.send_goal_srv(),
    {
        let common = joined(self.name.as_str(), "_SendGoal");
        let request_members = vec![
            goal_id_type(),
            make_reference_member(
                "goal",
                self.package.as_str(),
                "action",
                joined(self.name.as_str(), "_Goal"),
            ),
        ];
        let response_members = vec![
            make_basic_member("accepted", BasicType::Bool),
            make_reference_member("stamp", "builtin_interfaces", "msg", String::from_str("Time")),
        ];
        assert(crate::types::message::members_view(request_members@)
            =~= self@.send_goal_srv().request.members);
        assert(crate::types::message::members_view(response_members@)
            =~= self@.send_goal_srv().response.members);
        let request = make_message(
            self.package.as_str(),
            joined(common.as_str(), "_Request"),
            request_members,
        );
        let response = make_message(
            self.package.as_str(),
            joined(common.as_str(), "_Response"),
            response_members,
        );
        Service { package: self.package.clone(), name: common, request, response }
    }

    /// The service by which a client asks for the result of a goal of
    /// this action.
    pub fn get_result_srv(&self) -> (r: Service)
        ensures
            r@ == self@.get_result_srv(),
    {
        let common = joined(self.name.as_str(), "_GetResult");
        let request_members = vec![goal_id_type()];
        let response_members = vec![
            make_basic_member("status", BasicType::I8),
            make_reference_member(
                "result",
                self.package.as_str(),
                "action",
                joined(self.name.as_str(), "_Result"),
            ),
        ];
        assert(crate::types::message::members_view(request_members@)
            =~= self@.get_result_srv().request.members);
        assert(crate::types::message::members_view(response_members@)
            =~= self@.get_result_srv().response.members);
        let request = make_message(
            self.package.as_str(),
            joined(common.as_str(), "_Request"),
            request_members,
        );
        let response = make_message(
            self.package.as_str(),
            joined(common.as_str(), "_Response"),
            response_members,
        );
        Service { package: self.package.clone(), name: common, request, response }
    }

    /// The message by which feedback on a goal of this action is
    /// published.
    pub fn feedback_message_msg(&self) -> (r: Message)
        ensures
            r@ == self@.feedback_message_msg(),
    {
        let members = vec![
            goal_id_type(),
            make_reference_member(
                "feedback",
                self.package.as_str(),
                "action",
                joined(self.name.as_str(), "_Feedback"),
            ),
        ];
        assert(crate::types::message::members_view(members@)
            =~= self@.feedback_message_msg().members);
        make_message(
            self.package.as_str(),
            joined(self.name.as_str(), "_FeedbackMessage"),
            members,
        )
    }
}

} // verus!
