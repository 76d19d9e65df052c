use rclrust_msg_gen::generator::{
    declare_message, generate, member_target_name, render, Declaration, DeclarationKind, Field,
};
use rclrust_msg_gen::parser::message::parse_message_string;
use rclrust_msg_gen::parser::package::{build_package, parse_line, IdlFile};
use rclrust_msg_gen::types::member::MemberType;
use rclrust_msg_gen::types::primitives::{
    BasicType, GenericString, NamedType, NamespacedType, NestableType,
};
use rclrust_msg_gen::types::sequences::{Array, BoundedSequence, Sequence};

fn file(line: &str, text: &str) -> IdlFile {
    IdlFile { line: parse_line(line).unwrap().unwrap(), text: text.to_string() }
}

#[test]
fn target_types() {
    let table = [
        (BasicType::I8, "i8"),
        (BasicType::I16, "i16"),
        (BasicType::I32, "i32"),
        (BasicType::I64, "i64"),
        (BasicType::U8, "u8"),
        (BasicType::U16, "u16"),
        (BasicType::U32, "u32"),
        (BasicType::U64, "u64"),
        (BasicType::F32, "f32"),
        (BasicType::F64, "f64"),
        (BasicType::Bool, "bool"),
        (BasicType::Char, "::std::os::raw::c_char"),
        (BasicType::Byte, "u8"),
    ];
    for (t, name) in table {
        assert_eq!(member_target_name("pkg", &t.into()), name);
    }
    assert_eq!(member_target_name("pkg", &GenericString::String.into()), "::std::string::String");
    assert_eq!(
        member_target_name("pkg", &GenericString::BoundedString(3).into()),
        "::std::string::String"
    );
    assert_eq!(member_target_name("pkg", &GenericString::WString.into()), "::std::vec::Vec<u16>");
    assert_eq!(
        member_target_name("pkg", &GenericString::BoundedWString(3).into()),
        "::std::vec::Vec<u16>"
    );
    assert_eq!(
        member_target_name("pkg", &NamedType("Thing".into()).into()),
        "crate::pkg::msg::Thing"
    );
    let reference =
        NamespacedType { package: "other".into(), namespace: "srv".into(), name: "Thing".into() };
    assert_eq!(member_target_name("pkg", &reference.clone().into()), "crate::other::srv::Thing");
    assert_eq!(
        member_target_name(
            "pkg",
            &MemberType::Array(Array {
                value_type: NestableType::BasicType(BasicType::F64),
                size: 36
            })
        ),
        "[f64; 36]"
    );
    assert_eq!(
        member_target_name(
            "pkg",
            &MemberType::Array(Array { value_type: NestableType::BasicType(BasicType::U8), size: 0 })
        ),
        "[u8; 0]"
    );
    assert_eq!(
        member_target_name(
            "pkg",
            &MemberType::Sequence(Sequence { value_type: NestableType::NamespacedType(reference) })
        ),
        "::std::vec::Vec<crate::other::srv::Thing>"
    );
    assert_eq!(
        member_target_name(
            "pkg",
            &MemberType::BoundedSequence(BoundedSequence {
                value_type: NestableType::GenericString(GenericString::String),
                max_size: 4
            })
        ),
        "::std::vec::Vec<::std::string::String>"
    );
}

#[test]
fn fields_keep_the_order_of_the_declarations() {
    let text = "int32 zeta\nuint8 LIMIT=3\n# comment\nstring alpha 'a'\nThing[2] mid\nfloat32[] beta\n";
    let m = parse_message_string("pkg", "Order", text).unwrap();
    let d = declare_message(&m);
    assert_eq!(
        d,
        Declaration {
            kind: DeclarationKind::Message,
            name: "Order".into(),
            fields: vec![
                Field { name: "zeta".into(), type_: "i32".into() },
                Field { name: "alpha".into(), type_: "::std::string::String".into() },
                Field { name: "mid".into(), type_: "[crate::pkg::msg::Thing; 2]".into() },
                Field { name: "beta".into(), type_: "::std::vec::Vec<f32>".into() },
            ],
        }
    );
}

#[test]
fn empty_messages_have_a_stand_in_field() {
    let m = parse_message_string("pkg", "Empty", "").unwrap();
    assert_eq!(
        declare_message(&m).fields,
        vec![Field { name: "structure_needs_at_least_one_member".into(), type_: "u8".into() }]
    );
}

#[test]
fn bindings_of_a_package() {
    let p = build_package(
        "pkg",
        &vec![
            file("msg/Point.idl", "float64 x\nfloat64 y\n"),
            file("srv/Reset.idl", "---\nbool done\n"),
        ],
    )
    .unwrap();
    let m = generate(&p);
    assert_eq!(m.name, "pkg");
    let names: Vec<&str> = m.namespaces.iter().map(|n| n.name.as_str()).collect();
    assert_eq!(names, vec!["msg", "srv"]);
    let names: Vec<&str> = m.namespaces[1].declarations.iter().map(|d| d.name.as_str()).collect();
    assert_eq!(names, vec!["Reset", "Reset_Request", "Reset_Response"]);
    assert_eq!(m.namespaces[1].declarations[0].kind, DeclarationKind::Service);
    assert!(m.namespaces[1].declarations[0].fields.is_empty());
    let expected = "pub mod pkg {\n\
pub mod msg {\n\
#[repr(C)]\n\
#[derive(Debug)]\n\
pub struct Point {\n\
\x20   pub x: f64,\n\
\x20   pub y: f64,\n\
}\n\
}\n\
pub mod srv {\n\
pub struct Reset;\n\
#[repr(C)]\n\
#[derive(Debug)]\n\
pub struct Reset_Request {\n\
\x20   pub structure_needs_at_least_one_member: u8,\n\
}\n\
#[repr(C)]\n\
#[derive(Debug)]\n\
pub struct Reset_Response {\n\
\x20   pub done: bool,\n\
}\n\
}\n\
}\n";
    assert_eq!(render(&m), expected);
}

#[test]
fn bindings_of_an_action() {
    let p = build_package(
        "pkg",
        &vec![file(
            "action/Fibonacci.idl",
            "int32 order\n---\nint32[] sequence\n---\nint32[] sequence\n",
        )],
    )
    .unwrap();
    let m = generate(&p);
    assert_eq!(m.namespaces.len(), 1);
    assert_eq!(m.namespaces[0].name, "action");
    let names: Vec<(DeclarationKind, &str)> =
        m.namespaces[0].declarations.iter().map(|d| (d.kind, d.name.as_str())).collect();
    assert_eq!(
        names,
        vec![
            (DeclarationKind::Action, "Fibonacci"),
            (DeclarationKind::Message, "Fibonacci_Goal"),
            (DeclarationKind::Message, "Fibonacci_Result"),
            (DeclarationKind::Message, "Fibonacci_Feedback"),
            (DeclarationKind::Service, "Fibonacci_SendGoal"),
            (DeclarationKind::Message, "Fibonacci_SendGoal_Request"),
            (DeclarationKind::Message, "Fibonacci_SendGoal_Response"),
            (DeclarationKind::Service, "Fibonacci_GetResult"),
            (DeclarationKind::Message, "Fibonacci_GetResult_Request"),
            (DeclarationKind::Message, "Fibonacci_GetResult_Response"),
            (DeclarationKind::Message, "Fibonacci_FeedbackMessage"),
        ]
    );
    assert_eq!(
        m.namespaces[0].declarations[5].fields,
        vec![
            Field {
                name: "goal_id".into(),
                type_: "crate::unique_identifier_msgs::msg::UUID".into()
            },
            Field { name: "goal".into(), type_: "crate::pkg::action::Fibonacci_Goal".into() },
        ]
    );
    assert_eq!(
        m.namespaces[0].declarations[2].fields,
        vec![Field { name: "sequence".into(), type_: "::std::vec::Vec<i32>".into() }]
    );
    let text = render(&m);
    assert!(text.starts_with("pub mod pkg {\npub mod action {\npub struct Fibonacci;\n"));
    assert!(text.ends_with("pub struct Fibonacci_FeedbackMessage {\n    pub goal_id: crate::unique_identifier_msgs::msg::UUID,\n    pub feedback: crate::pkg::action::Fibonacci_Feedback,\n}\n}\n}\n"));
}

#[test]
fn bindings_of_an_empty_package() {
    let p = build_package("nothing", &vec![]).unwrap();
    let m = generate(&p);
    assert!(m.namespaces.is_empty());
    assert_eq!(render(&m), "pub mod nothing {\n}\n");
}
