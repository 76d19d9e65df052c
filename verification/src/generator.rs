//! The code generator: from the definitions of a package to the
//! declarations of its bindings, and from the declarations to their
//! text.
//!
//! The bindings of a package are a module named as the package. It holds
//! a module for each namespace of the package that is not empty, `msg`,
//! `srv` and `action` in this order, and each of these holds the
//! declarations of the definitions of its namespace, in their order. A
//! message is declared as a structure with a field for each member, in
//! the order of the members; a service as a marker followed by its
//! request and its response; an action as a marker followed by its
//! goal, its result and its feedback, the two services that it implies,
//! and the message that it implies.

use vstd::prelude::*;
use crate::decimal::{decimal_text, push_decimal};
use crate::parser::member::member_of;
use crate::parser::message::{lemma_declaration_order, member_lines, message_of_lines};
use crate::text::{string_of_all, trimmed};
use crate::types::action::{Action, ActionView};
use crate::types::member::{MemberType, MemberTypeView};
use crate::types::message::{Member, MemberView, Message, MessageView};
use crate::types::package::{Package, PackageView};
use crate::types::primitives::{BasicType, GenericString, NestableType, NestableTypeView};
use crate::types::service::{Service, ServiceView};

verus! {

/// The type of the bindings that stands for a basic type.
pub open spec fn basic_target(t: BasicType) -> Seq<char> {
    match t {
        BasicType::I8 => "i8"@,
        BasicType::I16 => "i16"@,
        BasicType::I32 => "i32"@,
        BasicType::I64 => "i64"@,
        BasicType::U8 => "u8"@,
        BasicType::U16 => "u16"@,
        BasicType::U32 => "u32"@,
        BasicType::U64 => "u64"@,
        BasicType::F32 => "f32"@,
        BasicType::F64 => "f64"@,
        BasicType::Bool => "bool"@,
        BasicType::Char => "::std::os::raw::c_char"@,
        BasicType::Byte => "u8"@,
    }
}

/// The type of the bindings that stands for a string type: a string
/// for a narrow string, a vector of 16-bit units for a wide one,
/// whatever the bound.
pub open spec fn string_target(g: GenericString) -> Seq<char> {
    match g {
        GenericString::String | GenericString::BoundedString(_) => "::std::string::String"@,
        GenericString::WString | GenericString::BoundedWString(_) => "::std::vec::Vec<u16>"@,
    }
}

/// The type of the bindings that stands for a nestable type, seen from
/// the package `package`. A bare name refers to the namespace `msg` of
/// `package`; a reference by package, namespace and name is passed on
/// as it stands.
pub open spec fn nestable_target(package: Seq<char>, t: NestableTypeView) -> Seq<char> {
    match t {
        NestableTypeView::BasicType(b) => basic_target(b),
        NestableTypeView::GenericString(g) => string_target(g),
        NestableTypeView::NamedType(name) => "crate::"@ + package + "::msg::"@ + name,
        NestableTypeView::NamespacedType(n) => "crate::"@ + n.package + "::"@ + n.namespace
            + "::"@ + n.name,
    }
}

/// The type of the bindings that stands for a member type: an array
/// type for an array, a vector for a sequence, bounded or not.
pub open spec fn member_target(package: Seq<char>, t: MemberTypeView) -> Seq<char> {
    match t {
        MemberTypeView::NestableType(n) => nestable_target(package, n),
        MemberTypeView::Array(a) => "["@ + nestable_target(package, a.value_type) + "; "@
            + decimal_text(a.size as nat) + "]"@,
        MemberTypeView::Sequence(s) => "::std::vec::Vec<"@ + nestable_target(
            package,
            s.value_type,
        ) + ">"@,
        MemberTypeView::BoundedSequence(s) => "::std::vec::Vec<"@ + nestable_target(
            package,
            s.value_type,
        ) + ">"@,
    }
}

/// The name of the type of the bindings that stands for a basic type.
pub fn basic_target_name(t: BasicType) -> (r: &'static str)
    ensures
        r@ == basic_target(t),
{
    match t {
        BasicType::I8 => "i8",
        BasicType::I16 => "i16",
        BasicType::I32 => "i32",
        BasicType::I64 => "i64",
        BasicType::U8 => "u8",
        BasicType::U16 => "u16",
        BasicType::U32 => "u32",
        BasicType::U64 => "u64",
        BasicType::F32 => "f32",
        BasicType::F64 => "f64",
        BasicType::Bool => "bool",
        BasicType::Char => "::std::os::raw::c_char",
        BasicType::Byte => "u8",
    }
}

/// The name of the type of the bindings that stands for a string type.
pub fn string_target_name(g: GenericString) -> (r: &'static str)
    ensures
        r@ == string_target(g),
{
    match g {
        GenericString::String | GenericString::BoundedString(_) => "::std::string::String",
        GenericString::WString | GenericString::BoundedWString(_) => "::std::vec::Vec<u16>",
    }
}

/// The name of the type of the bindings that stands for a nestable
/// type, seen from the package `package`.
pub fn nestable_target_name(package: &str, t: &NestableType) -> (r: String)
    ensures
        r@ == nestable_target(package@, t@),
{
    match t {
        NestableType::BasicType(b) => String::from_str(basic_target_name(*b)),
        NestableType::GenericString(g) => String::from_str(string_target_name(*g)),
        NestableType::NamedType(n) => {
            let mut r = String::from_str("crate::");
            r.append(package);
            r.append("::msg::");
            r.append(n.0.as_str());
            r
        },
        NestableType::NamespacedType(n) => {
            let mut r = String::from_str("crate::");
            r.append(n.package.as_str());
            r.append("::");
            r.append(n.namespace.as_str());
            r.append("::");
            r.append(n.name.as_str());
            r
        },
    }
}

/// The name of the type of the bindings that stands for a member type,
/// seen from the package `package`.
pub fn member_target_name(package: &str, t: &MemberType) -> (r: String)
    ensures
        r@ == member_target(package@, t@),
{
    match t {
        MemberType::NestableType(n) => nestable_target_name(package, n),
        MemberType::Array(a) => {
            let mut size: Vec<char> = Vec::new();
            push_decimal(&mut size, a.size as u128);
            assert(size@ =~= decimal_text(a.size as nat));
            let mut r = String::from_str("[");
            r.append(nestable_target_name(package, &a.value_type).as_str());
            r.append("; ");
            r.append(string_of_all(&size).as_str());
            r.append("]");
            r
        },
        MemberType::Sequence(s) => {
            let mut r = String::from_str("::std::vec::Vec<");
            r.append(nestable_target_name(package, &s.value_type).as_str());
            r.append(">");
            r
        },
        MemberType::BoundedSequence(s) => {
            let mut r = String::from_str("::std::vec::Vec<");
            r.append(nestable_target_name(package, &s.value_type).as_str());
            r.append(">");
            r
        },
    }
}

/// A field of a declared structure.
#[derive(Debug, Clone, PartialEq, Eq)]
pub struct Field {
    pub name: String,
    pub type_: String,
}

/// The mathematical content of a [`Field`].
pub struct FieldView {
    pub name: Seq<char>,
    pub type_: Seq<char>,
}

impl View for Field {
    type V = FieldView;

    open spec fn view(&self) -> FieldView {
        FieldView { name: self.name@, type_: self.type_@ }
    }
}

/// The contents of a sequence of fields.
pub open spec fn fields_view(v: Seq<Field>) -> Seq<FieldView> {
    Seq::new(v.len(), |i: int| v[i]@)
}

/// What a declaration declares.
#[derive(Debug, Clone, Copy, PartialEq, Eq, Hash, Structural)]
pub enum DeclarationKind {
    Message,
    Service,
    Action,
}

/// A declaration of the bindings: a structure with its fields, or the
/// marker of a service or an action, which has none.
#[derive(Debug, Clone, PartialEq, Eq)]
pub struct Declaration {
    pub kind: DeclarationKind,
    pub name: String,
    pub fields: Vec<Field>,
}

/// The mathematical content of a [`Declaration`].
pub struct DeclarationView {
    pub kind: DeclarationKind,
    pub name: Seq<char>,
    pub fields: Seq<FieldView>,
}

impl DeclarationView {
    /// The names of the fields, in their order.
    pub open spec fn field_names(self) -> Seq<Seq<char>> {
        Seq::new(self.fields.len(), |i: int| self.fields[i].name)
    }
}

impl View for Declaration {
    type V = DeclarationView;

    open spec fn view(&self) -> DeclarationView {
        DeclarationView { kind: self.kind, name: self.name@, fields: fields_view(self.fields@) }
    }
}

/// The contents of a sequence of declarations.
pub open spec fn declarations_view(v: Seq<Declaration>) -> Seq<DeclarationView> {
    Seq::new(v.len(), |i: int| v[i]@)
}

/// The field that stands for the member `m` of a message of `package`.
pub open spec fn field_of(package: Seq<char>, m: MemberView) -> FieldView {
    FieldView { name: m.name, type_: member_target(package, m.type_) }
}

/// The members that a structure is declared with: those of the message,
/// or the stand-in member where the message has none.
pub open spec fn declared_members(members: Seq<MemberView>) -> Seq<MemberView> {
    if members.len() == 0 {
        seq![MemberView::dummy()]
    } else {
        members
    }
}

/// The declaration of the message `m`: a structure named as the message
/// with a field for each declared member, in the order of the members.
pub open spec fn message_declaration(m: MessageView) -> DeclarationView {
    let members = declared_members(m.members);
    DeclarationView {
        kind: DeclarationKind::Message,
        name: m.name,
        fields: Seq::new(members.len(), |i: int| field_of(m.package, members[i])),
    }
}

/// The marker of kind `kind` named `name`.
pub open spec fn marker(kind: DeclarationKind, name: Seq<char>) -> DeclarationView {
    DeclarationView { kind, name, fields: Seq::empty() }
}

/// The declarations of the service `s`: its marker, its request and
/// its response.
pub open spec fn service_declarations(s: ServiceView) -> Seq<DeclarationView> {
    seq![
        marker(DeclarationKind::Service, s.name),
        message_declaration(s.request),
        message_declaration(s.response),
    ]
}

/// The declarations of the action `a`: its marker, its goal, its result
/// and its feedback, the service that sends a goal, the service that
/// gets a result, and the message that carries feedback.
pub open spec fn action_declarations(a: ActionView) -> Seq<DeclarationView> {
    seq![
        marker(DeclarationKind::Action, a.name),
        message_declaration(a.goal),
        message_declaration(a.result),
        message_declaration(a.feedback),
    ] + service_declarations(a.send_goal_srv()) + service_declarations(a.get_result_srv())
        + seq![message_declaration(a.feedback_message_msg())]
}

/// The declarations of the messages `msgs`, in their order.
pub open spec fn msg_declarations(msgs: Seq<MessageView>) -> Seq<DeclarationView> {
    Seq::new(msgs.len(), |i: int| message_declaration(msgs[i]))
}

/// The declarations of the services `srvs`, in their order.
pub open spec fn srv_declarations(srvs: Seq<ServiceView>) -> Seq<DeclarationView>
    decreases srvs.len(),
{
    if srvs.len() == 0 {
        Seq::empty()
    } else {
        srv_declarations(srvs.drop_last()) + service_declarations(srvs.last())
    }
}

/// The declarations of the actions `actions`, in their order.
pub open spec fn all_action_declarations(actions: Seq<ActionView>) -> Seq<DeclarationView>
    decreases actions.len(),
{
    if actions.len() == 0 {
        Seq::empty()
    } else {
        all_action_declarations(actions.drop_last()) + action_declarations(actions.last())
    }
}

/// The declarations of one namespace of a package.
#[derive(Debug, Clone, PartialEq, Eq)]
pub struct Namespace {
    pub name: String,
    pub declarations: Vec<Declaration>,
}

/// The mathematical content of a [`Namespace`].
pub struct NamespaceView {
    pub name: Seq<char>,
    pub declarations: Seq<DeclarationView>,
}

impl View for Namespace {
    type V = NamespaceView;

    open spec fn view(&self) -> NamespaceView {
        NamespaceView { name: self.name@, declarations: declarations_view(self.declarations@) }
    }
}

/// The contents of a sequence of namespaces.
pub open spec fn namespaces_view(v: Seq<Namespace>) -> Seq<NamespaceView> {
    Seq::new(v.len(), |i: int| v[i]@)
}

/// The bindings of a package.
#[derive(Debug, Clone, PartialEq, Eq)]
pub struct Module {
    pub name: String,
    pub namespaces: Vec<Namespace>,
}

/// The mathematical content of a [`Module`].
pub struct ModuleView {
    pub name: Seq<char>,
    pub namespaces: Seq<NamespaceView>,
}

impl View for Module {
    type V = ModuleView;

    open spec fn view(&self) -> ModuleView {
        ModuleView { name: self.name@, namespaces: namespaces_view(self.namespaces@) }
    }
}

/// The namespace named `name` with the declarations `declarations`, if
/// there is any.
pub open spec fn namespace_if_any(name: Seq<char>, declarations: Seq<DeclarationView>) -> Seq<
    NamespaceView,
> {
    if declarations.len() == 0 {
        Seq::empty()
    } else {
        seq![NamespaceView { name, declarations }]
    }
}

/// The bindings of the package `p`.
pub open spec fn module_of(p: PackageView) -> ModuleView {
    ModuleView {
        name: p.name,
        namespaces: namespace_if_any("msg"@, msg_declarations(p.msgs)) + namespace_if_any(
            "srv"@,
            srv_declarations(p.srvs),
        ) + namespace_if_any("action"@, all_action_declarations(p.actions)),
    }
}

/// The fields of a declaration are the declared members, name for
/// name and in their order: a message with members is declared with
/// exactly their names, in the order of the message.
pub proof fn lemma_field_order(m: MessageView)
    ensures
        message_declaration(m).field_names() == Seq::new(
            declared_members(m.members).len(),
            |i: int| declared_members(m.members)[i].name,
        ),
        m.members.len() > 0 ==> message_declaration(m).field_names() == m.member_names(),
{
    assert(message_declaration(m).field_names() =~= Seq::new(
        declared_members(m.members).len(),
        |i: int| declared_members(m.members)[i].name,
    ));
    if m.members.len() > 0 {
        assert(message_declaration(m).field_names() =~= m.member_names());
    }
}

/// The field that stands for the member `m` of a message of `package`.
pub fn member_field(package: &str, m: &Member) -> (r: Field)
    ensures
        r@ == field_of(package@, m@),
{
    Field { name: m.name.clone(), type_: member_target_name(package, &m.type_) }
}

/// The declaration of the message `m`.
pub fn declare_message(m: &Message) -> (r: Declaration)
    ensures
        r@ == message_declaration(m@),
{
    let mut fields: Vec<Field> = Vec::new();
    if m.members.len() == 0 {
        let d = Member::dummy();
        fields.push(member_field(m.package.as_str(), &d));
        assert(fields_view(fields@) =~= message_declaration(m@).fields);
    } else {
        let mut i: usize = 0;
        while i < m.members.len()
            invariant
                i <= m.members.len(),
                fields.len() == i,
                forall|k: int|
                    0 <= k < i ==> (#[trigger] fields@[k])@ == field_of(
                        m.package@,
                        m.members@[k]@,
                    ),
            decreases m.members.len() - i,
        {
            fields.push(member_field(m.package.as_str(), &m.members[i]));
            i = i + 1;
        }
        assert(fields_view(fields@) =~= message_declaration(m@).fields);
    }
    Declaration { kind: DeclarationKind::Message, name: m.name.clone(), fields }
}

/// The marker of kind `kind` named `name`.
fn declare_marker(kind: DeclarationKind, name: &str) -> (r: Declaration)
    ensures
        r@ == marker(kind, name@),
{
    let r = Declaration { kind, name: String::from_str(name), fields: Vec::new() };
    assert(fields_view(r.fields@) =~= Seq::empty());
    r
}

/// Appends the declarations of the service `s` to `out`.
pub fn declare_service(out: &mut Vec<Declaration>, s: &Service)
    ensures
        declarations_view(final(out)@) == declarations_view(old(out)@) + service_declarations(s@),
{
    out.push(declare_marker(DeclarationKind::Service, s.name.as_str()));
    out.push(declare_message(&s.request));
    out.push(declare_message(&s.response));
    assert(declarations_view(out@) =~= declarations_view(old(out)@) + service_declarations(s@));
}

/// Appends the declarations of the action `a` to `out`.
pub fn declare_action(out: &mut Vec<Declaration>, a: &Action)
    ensures
        declarations_view(final(out)@) == declarations_view(old(out)@) + action_declarations(a@),
{
    out.push(declare_marker(DeclarationKind::Action, a.name.as_str()));
    out.push(declare_message(&a.goal));
    out.push(declare_message(&a.result));
    out.push(declare_message(&a.feedback));
    let ghost first = declarations_view(out@);
    declare_service(out, &a.send_goal_srv());
    declare_service(out, &a.get_result_srv());
    out.push(declare_message(&a.feedback_message_msg()));
    assert(first =~= declarations_view(old(out)@) + seq![
        marker(DeclarationKind::Action, a@.name),
        message_declaration(a@.goal),
        message_declaration(a@.result),
        message_declaration(a@.feedback),
    ]);
    assert(declarations_view(out@) =~= first + service_declarations(a@.send_goal_srv())
        + service_declarations(a@.get_result_srv()) + seq![
        message_declaration(a@.feedback_message_msg()),
    ]);
    assert(declarations_view(out@) =~= declarations_view(old(out)@) + action_declarations(a@));
}

/// Appends to `namespaces` the namespace named `name` with the
/// declarations `declarations`, if there is any.
fn push_namespace(namespaces: &mut Vec<Namespace>, name: &str, declarations: Vec<Declaration>)
    ensures
        namespaces_view(final(namespaces)@) == namespaces_view(old(namespaces)@)
            + namespace_if_any(name@, declarations_view(declarations@)),
{
    if declarations.len() > 0 {
        namespaces.push(Namespace { name: String::from_str(name), declarations });
    }
    assert(namespaces_view(namespaces@) =~= namespaces_view(old(namespaces)@) + namespace_if_any(
        name@,
        declarations_view(declarations@),
    ));
}

/// The bindings of the package `package`.
pub fn generate(package: &Package) -> (r: Module)
    ensures
        r@ == module_of(package@),
{
    let mut msgs: Vec<Declaration> = Vec::new();
    let mut i: usize = 0;
    while i < package.msgs.len()
        invariant
            i <= package.msgs.len(),
            msgs.len() == i,
            forall|k: int|
                0 <= k < i ==> (#[trigger] msgs@[k])@ == message_declaration(package.msgs@[k]@),
        decreases package.msgs.len() - i,
    {
        msgs.push(declare_message(&package.msgs[i]));
        i = i + 1;
    }
    assert(declarations_view(msgs@) =~= msg_declarations(package@.msgs));
    let mut srvs: Vec<Declaration> = Vec::new();
    let mut i: usize = 0;
    assert(package@.srvs.subrange(0, 0) =~= Seq::empty());
    assert(declarations_view(srvs@) =~= Seq::empty());
    while i < package.srvs.len()
        invariant
            i <= package.srvs.len(),
            declarations_view(srvs@) == srv_declarations(package@.srvs.subrange(0, i as int)),
        decreases package.srvs.len() - i,
    {
        assert(package@.srvs.subrange(0, i + 1).drop_last() =~= package@.srvs.subrange(
            0,
            i as int,
        ));
        declare_service(&mut srvs, &package.srvs[i]);
        i = i + 1;
    }
    assert(package@.srvs.subrange(0, package.srvs.len() as int) =~= package@.srvs);
    let mut actions: Vec<Declaration> = Vec::new();
    let mut i: usize = 0;
    assert(package@.actions.subrange(0, 0) =~= Seq::empty());
    assert(declarations_view(actions@) =~= Seq::empty());
    while i < package.actions.len()
        invariant
            i <= package.actions.len(),
            declarations_view(actions@) == all_action_declarations(
                package@.actions.subrange(0, i as int),
            ),
        decreases package.actions.len() - i,
    {
        assert(package@.actions.subrange(0, i + 1).drop_last() =~= package@.actions.subrange(
            0,
            i as int,
        ));
        declare_action(&mut actions, &package.actions[i]);
        i = i + 1;
    }
    assert(package@.actions.subrange(0, package.actions.len() as int) =~= package@.actions);
    let mut namespaces: Vec<Namespace> = Vec::new();
    assert(namespaces_view(namespaces@) =~= Seq::empty());
    push_namespace(&mut namespaces, "msg", msgs);
    push_namespace(&mut namespaces, "srv", srvs);
    push_namespace(&mut namespaces, "action", actions);
    assert(namespaces_view(namespaces@) =~= module_of(package@).namespaces);
    Module { name: package.name.clone(), namespaces }
}

/// The text of a field: a line of its own, indented, with the name,
/// a colon and the type. The name is written as it was declared.
pub open spec fn field_text(f: FieldView) -> Seq<char> {
    "    pub "@ + f.name + ": "@ + f.type_ + ",\n"@
}

/// The text of the fields `fs`, in their order.
pub open spec fn fields_text(fs: Seq<FieldView>) -> Seq<char>
    decreases fs.len(),
{
    if fs.len() == 0 {
        Seq::empty()
    } else {
        fields_text(fs.drop_last()) + field_text(fs.last())
    }
}

/// The text of a declaration: for a message a structure laid out as in
/// C, with its fields between braces; for a marker a structure without
/// fields.
pub open spec fn declaration_text(d: DeclarationView) -> Seq<char> {
    if d.kind is Message {
        "#[repr(C)]\n#[derive(Debug)]\npub struct "@ + d.name + " {\n"@ + fields_text(d.fields)
            + "}\n"@
    } else {
        "pub struct "@ + d.name + ";\n"@
    }
}

/// The text of the declarations `ds`, in their order.
pub open spec fn declarations_text(ds: Seq<DeclarationView>) -> Seq<char>
    decreases ds.len(),
{
    if ds.len() == 0 {
        Seq::empty()
    } else {
        declarations_text(ds.drop_last()) + declaration_text(ds.last())
    }
}

/// The text of a namespace: a module with its declarations.
pub open spec fn namespace_text(n: NamespaceView) -> Seq<char> {
    "pub mod "@ + n.name + " {\n"@ + declarations_text(n.declarations) + "}\n"@
}

/// The text of the namespaces `ns`, in their order.
pub open spec fn namespaces_text(ns: Seq<NamespaceView>) -> Seq<char>
    decreases ns.len(),
{
    if ns.len() == 0 {
        Seq::empty()
    } else {
        namespaces_text(ns.drop_last()) + namespace_text(ns.last())
    }
}

/// The text of the bindings of a package: a module with its namespaces.
pub open spec fn module_text(m: ModuleView) -> Seq<char> {
    "pub mod "@ + m.name + " {\n"@ + namespaces_text(m.namespaces) + "}\n"@
}

/// Appends the text of the declaration `d` to `out`.
fn push_declaration(out: &mut String, d: &Declaration)
    ensures
        final(out)@ == old(out)@ + declaration_text(d@),
{
    match d.kind {
        DeclarationKind::Message => {
            out.append("#[repr(C)]\n#[derive(Debug)]\npub struct ");
            out.append(d.name.as_str());
            out.append(" {\n");
            let ghost head = out@;
            let mut i: usize = 0;
            assert(fields_view(d.fields@).subrange(0, 0) =~= Seq::empty());
            assert(head + Seq::<char>::empty() =~= head);
            while i < d.fields.len()
                invariant
                    i <= d.fields.len(),
                    out@ == head + fields_text(fields_view(d.fields@).subrange(0, i as int)),
                decreases d.fields.len() - i,
            {
                let ghost before = out@;
                let f = &d.fields[i];
                out.append("    pub ");
                out.append(f.name.as_str());
                out.append(": ");
                out.append(f.type_.as_str());
                out.append(",\n");
                proof {
                    let fs = fields_view(d.fields@);
                    assert(fs.subrange(0, i + 1).drop_last() =~= fs.subrange(0, i as int));
                    assert(fs.subrange(0, i + 1).last() == f@);
                    assert(out@ =~= before + field_text(f@));
                    assert(out@ =~= head + fields_text(fs.subrange(0, i + 1)));
                }
                i = i + 1;
            }
            assert(fields_view(d.fields@).subrange(0, d.fields.len() as int) =~= fields_view(
                d.fields@,
            ));
            out.append("}\n");
            assert(out@ =~= old(out)@ + declaration_text(d@));
        },
        _ => {
            out.append("pub struct ");
            out.append(d.name.as_str());
            out.append(";\n");
            assert(out@ =~= old(out)@ + declaration_text(d@));
        },
    }
}

/// Appends the text of the namespace `n` to `out`.
fn push_namespace_text(out: &mut String, n: &Namespace)
    ensures
        final(out)@ == old(out)@ + namespace_text(n@),
{
    out.append("pub mod ");
    out.append(n.name.as_str());
    out.append(" {\n");
    let ghost head = out@;
    let mut i: usize = 0;
    assert(declarations_view(n.declarations@).subrange(0, 0) =~= Seq::empty());
    assert(head + Seq::<char>::empty() =~= head);
    while i < n.declarations.len()
        invariant
            i <= n.declarations.len(),
            out@ == head + declarations_text(
                declarations_view(n.declarations@).subrange(0, i as int),
            ),
        decreases n.declarations.len() - i,
    {
        let ghost before = out@;
        push_declaration(out, &n.declarations[i]);
        proof {
            let ds = declarations_view(n.declarations@);
            assert(ds.subrange(0, i + 1).drop_last() =~= ds.subrange(0, i as int));
            assert(ds.subrange(0, i + 1).last() == n.declarations@[i as int]@);
            assert(out@ =~= head + declarations_text(ds.subrange(0, i + 1)));
        }
        i = i + 1;
    }
    assert(declarations_view(n.declarations@).subrange(0, n.declarations.len() as int)
        =~= declarations_view(n.declarations@));
    out.append("}\n");
    assert(out@ =~= old(out)@ + namespace_text(n@));
}

/// Appends the text of the bindings `m` to `out`.
pub fn push_module(out: &mut String, m: &Module)
    ensures
        final(out)@ == old(out)@ + module_text(m@),
{
    out.append("pub mod ");
    out.append(m.name.as_str());
    out.append(" {\n");
    let ghost head = out@;
    let mut i: usize = 0;
    assert(namespaces_view(m.namespaces@).subrange(0, 0) =~= Seq::empty());
    assert(head + Seq::<char>::empty() =~= head);
    while i < m.namespaces.len()
        invariant
            i <= m.namespaces.len(),
            out@ == head + namespaces_text(namespaces_view(m.namespaces@).subrange(0, i as int)),
        decreases m.namespaces.len() - i,
    {
        push_namespace_text(out, &m.namespaces[i]);
        proof {
            let ns = namespaces_view(m.namespaces@);
            assert(ns.subrange(0, i + 1).drop_last() =~= ns.subrange(0, i as int));
            assert(ns.subrange(0, i + 1).last() == m.namespaces@[i as int]@);
            assert(out@ =~= head + namespaces_text(ns.subrange(0, i + 1)));
        }
        i = i + 1;
    }
    assert(namespaces_view(m.namespaces@).subrange(0, m.namespaces.len() as int)
        =~= namespaces_view(m.namespaces@));
    out.append("}\n");
    assert(out@ =~= old(out)@ + module_text(m@));
}

/// The text of the bindings `m`.
pub fn render(m: &Module) -> (r: String)
    ensures
        r@ == module_text(m@),
{
    let mut out = String::new();
    push_module(&mut out, m);
    assert(Seq::<char>::empty() + module_text(m@) =~= module_text(m@));
    out
}

/// From the lines of a definition to the fields of its declaration, the
/// order is kept: where `lines` define a message and declare at least
/// one member, the declaration of the message has one field for each
/// line that declares a member, in the order of the lines, and each
/// field has the name that its line declares.
pub proof fn lemma_fields_follow_lines(
    package: Seq<char>,
    name: Seq<char>,
    lines: Seq<Seq<char>>,
)
    requires
        message_of_lines(package, name, lines) is Ok,
        member_lines(lines).len() > 0,
    ensures
        message_declaration(message_of_lines(package, name, lines)->Ok_0).fields.len()
            == member_lines(lines).len(),
        forall|i: int|
            0 <= i < member_lines(lines).len() ==> {
                &&& member_of(trimmed(#[trigger] member_lines(lines)[i])) is Ok
                &&& message_declaration(
                    message_of_lines(package, name, lines)->Ok_0,
                ).fields[i].name == member_of(trimmed(member_lines(lines)[i]))->Ok_0.name
            },
{
    lemma_declaration_order(lines);
}

} // verus!
