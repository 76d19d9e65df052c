use rclrust_msg_gen::parser::action::parse_action_string;
use rclrust_msg_gen::parser::error::{ErrorKind, Fault, RclMsgError};
use rclrust_msg_gen::parser::message::parse_message_string;
use rclrust_msg_gen::parser::service::parse_service_string;
use rclrust_msg_gen::parser::utils::fix_newlines;
use rclrust_msg_gen::types::action::goal_id_type;
use rclrust_msg_gen::types::member::MemberType;
use rclrust_msg_gen::types::message::Member;
use rclrust_msg_gen::types::primitives::{BasicType, NamespacedType, NestableType};
use rclrust_msg_gen::types::sequences::{Array, Sequence};

const FIBONACCI: &str = "#goal definition\nint32 order\n---\n#result definition\nint32[] sequence\n---\n#feedback\nint32[] sequence\n";

const BASIC_TYPES: &str = "bool bool_value\nbyte byte_value\nchar char_value\nfloat32 float32_value\nfloat64 float64_value\nint8 int8_value\nuint8 uint8_value\nint16 int16_value\nuint16 uint16_value\nint32 int32_value\nuint32 uint32_value\nint64 int64_value\nuint64 uint64_value\nstring string_value\n";

const ARRAYS: &str = "bool[3] bool_values\nbyte[3] byte_values\nchar[3] char_values\nfloat32[3] float32_values\nfloat64[3] float64_values\nint8[3] int8_values\nuint8[3] uint8_values\nint16[3] int16_values\nuint16[3] uint16_values\nint32[3] int32_values\nuint32[3] uint32_values\nint64[3] int64_values\nuint64[3] uint64_values\nstring[3] string_values\nBasicTypes[3] basic_types_values\nConstants[3] constants_values\nDefaults[3] defaults_values\nbool[3] bool_values_default [false, true, false]\nbyte[3] byte_values_default [0, 1, 255]\nchar[3] char_values_default [0, 1, 127]\nfloat32[3] float32_values_default [1.125, 0.0, -1.125]\nfloat64[3] float64_values_default [3.1415, 0.0, -3.1415]\nint8[3] int8_values_default [0, 127, -128]\nuint8[3] uint8_values_default [0, 1, 255]\nint16[3] int16_values_default [0, 32767, -32768]\nuint16[3] uint16_values_default [0, 1, 65535]\nint32[3] int32_values_default [0, 2147483647, -2147483648]\nuint32[3] uint32_values_default [0, 1, 4294967295]\nint64[3] int64_values_default [0, 9223372036854775807, -9223372036854775808]\nuint64[3] uint64_values_default [0, 1, 18446744073709551615]\nstring[3] string_values_default [\"\", \"max value\", \"min value\"]\n";

fn service_text(section: &str) -> String {
    format!("{}---\n{}", section, section)
}

#[test]
fn parse_fibonacci() {
    let action = parse_action_string("test_msgs", "Fibonacci", FIBONACCI).unwrap();
    assert_eq!(action.package, "test_msgs".to_string());
    assert_eq!(action.name, "Fibonacci".to_string());

    assert_eq!(action.goal.name, "Fibonacci_Goal".to_string());
    assert_eq!(action.goal.members.len(), 1);
    assert_eq!(action.goal.members[0].name, "order".to_string());
    assert_eq!(action.goal.members[0].type_, BasicType::I32.into());
    assert_eq!(action.goal.constants.len(), 0);

    assert_eq!(action.result.name, "Fibonacci_Result".to_string());
    assert_eq!(action.result.members.len(), 1);
    assert_eq!(action.result.members[0].name, "sequence".to_string());
    assert_eq!(
        action.result.members[0].type_,
        MemberType::Sequence(Sequence { value_type: NestableType::BasicType(BasicType::I32) })
    );
    assert_eq!(action.result.constants.len(), 0);

    assert_eq!(action.feedback.name, "Fibonacci_Feedback".to_string());
    assert_eq!(action.feedback.members.len(), 1);
    assert_eq!(action.feedback.members[0].name, "sequence".to_string());
    assert_eq!(
        action.feedback.members[0].type_,
        MemberType::Sequence(Sequence { value_type: NestableType::BasicType(BasicType::I32) })
    );
    assert_eq!(action.feedback.constants.len(), 0);
}

#[test]
fn parse_arrays() {
    let result = parse_service_string("test_msgs", "Arrays", &service_text(ARRAYS)).unwrap();
    assert_eq!(result.package, "test_msgs".to_string());
    assert_eq!(result.name, "Arrays".to_string());
    assert_eq!(result.request.name, "Arrays_Request".to_string());
    assert_eq!(result.response.name, "Arrays_Response".to_string());
    assert_eq!(result.request.members.len(), 31);
    assert_eq!(result.response.members.len(), 31);
    assert_eq!(result.request.members[30].name, "string_values_default");
    assert_eq!(
        result.request.members[30].default,
        Some(vec!["".to_string(), "max value".to_string(), "min value".to_string()])
    );
    assert_eq!(
        result.request.members[22].default,
        Some(vec!["0".to_string(), "127".to_string(), "-128".to_string()])
    );
    assert_eq!(
        result.request.members[2].type_,
        MemberType::Array(Array { value_type: NestableType::BasicType(BasicType::Char), size: 3 })
    );
}

#[test]
fn parse_basic_types() {
    let result =
        parse_service_string("test_msgs", "BasicTypes", &service_text(BASIC_TYPES)).unwrap();
    assert_eq!(result.request.members.len(), 14);
    assert_eq!(result.response.members.len(), 14);
}

#[test]
fn parse_empty() {
    let result = parse_service_string("test_msgs", "Empty", "---\n").unwrap();
    assert_eq!(result.request.name, "Empty_Request");
    assert_eq!(result.request.members.len(), 0);
    assert_eq!(result.response.members.len(), 0);
    let result = parse_service_string("test_msgs", "Empty", "---").unwrap();
    assert_eq!(result.response.name, "Empty_Response");
}

#[test]
fn service_sections() {
    let s = parse_service_string("pkg", "AddTwoInts", "int64 a\nint64 b\n---\nint64 sum\n").unwrap();
    assert_eq!(s.request, parse_message_string("pkg", "AddTwoInts_Request", "int64 a\nint64 b\n").unwrap());
    assert_eq!(s.response, parse_message_string("pkg", "AddTwoInts_Response", "int64 sum\n").unwrap());
    assert_eq!(s.package, "pkg");
    assert_eq!(s.name, "AddTwoInts");
}

#[test]
fn service_separators() {
    let fault = "Expect one '---' seperator in pkg/Srv service definition".to_string();
    for text in ["", "int64 a\n", "int64 a\n---\nint64 b\n---\n", "---\n---\n", "int64 a\n --- \nint64 b", "int64 a\n----\nint64 b"] {
        let e = parse_service_string("pkg", "Srv", text).unwrap_err();
        assert_eq!(e, RclMsgError::InvalidServiceSpecification(fault.clone()), "{:?}", text);
        assert_eq!(e.kind(), ErrorKind::Structure);
    }
    assert!(parse_service_string("pkg", "Srv", "int64 a\r\n---\r\nint64 b").is_ok());
    assert_eq!(
        parse_service_string("pkg", "Srv", "int64 A\n---\nint64 B\n"),
        Err(RclMsgError::ParseMemberError { input: "int64 A".into(), reason: Fault::InvalidName })
    );
    assert_eq!(
        parse_service_string("pkg", "Srv", "int64 a\n---\nint64 B\n"),
        Err(RclMsgError::ParseMemberError { input: "int64 B".into(), reason: Fault::InvalidName })
    );
}

#[test]
fn action_separators() {
    let fault = "Number of '---' separators nonconformant with action definition".to_string();
    for text in ["", "int32 a\n", "int32 a\n---\nint32 b\n", "a\n---\n---\n---\n", "---\n---\n---"] {
        let e = parse_action_string("pkg", "Act", text).unwrap_err();
        assert_eq!(e, RclMsgError::InvalidActionSpecification(fault.clone()), "{:?}", text);
        assert_eq!(e.kind(), ErrorKind::Structure);
    }
    let a = parse_action_string("pkg", "Act", "---\n---").unwrap();
    assert_eq!(a.goal.name, "Act_Goal");
    assert_eq!(a.result.name, "Act_Result");
    assert_eq!(a.feedback.name, "Act_Feedback");
    assert_eq!(
        parse_action_string("pkg", "Act", "int32 a\n---\nint32 b 1.5\n---\nint32 c"),
        Err(RclMsgError::ParseDefaultValueError("1.5".into()))
    );
}

#[test]
fn fibonacci_derived_definitions() {
    let action = parse_action_string("test_msgs", "Fibonacci", FIBONACCI).unwrap();
    let reference = |name: &str, package: &str, namespace: &str, target: &str| Member {
        name: name.into(),
        type_: NamespacedType {
            package: package.into(),
            namespace: namespace.into(),
            name: target.into(),
        }
        .into(),
        default: None,
    };
    let goal_id = reference("goal_id", "unique_identifier_msgs", "msg", "UUID");
    assert_eq!(goal_id_type(), goal_id);

    let send_goal = action.send_goal_srv();
    assert_eq!(send_goal.package, "test_msgs");
    assert_eq!(send_goal.name, "Fibonacci_SendGoal");
    assert_eq!(send_goal.request.package, "test_msgs");
    assert_eq!(send_goal.request.name, "Fibonacci_SendGoal_Request");
    assert_eq!(
        send_goal.request.members,
        vec![goal_id.clone(), reference("goal", "test_msgs", "action", "Fibonacci_Goal")]
    );
    assert!(send_goal.request.constants.is_empty());
    assert_eq!(send_goal.response.name, "Fibonacci_SendGoal_Response");
    assert_eq!(
        send_goal.response.members,
        vec![
            Member { name: "accepted".into(), type_: BasicType::Bool.into(), default: None },
            reference("stamp", "builtin_interfaces", "msg", "Time"),
        ]
    );

    let get_result = action.get_result_srv();
    assert_eq!(get_result.name, "Fibonacci_GetResult");
    assert_eq!(get_result.request.name, "Fibonacci_GetResult_Request");
    assert_eq!(get_result.request.members, vec![goal_id.clone()]);
    assert_eq!(get_result.response.name, "Fibonacci_GetResult_Response");
    assert_eq!(
        get_result.response.members,
        vec![
            Member { name: "status".into(), type_: BasicType::I8.into(), default: None },
            reference("result", "test_msgs", "action", "Fibonacci_Result"),
        ]
    );

    let feedback = action.feedback_message_msg();
    assert_eq!(feedback.package, "test_msgs");
    assert_eq!(feedback.name, "Fibonacci_FeedbackMessage");
    assert_eq!(
        feedback.members,
        vec![goal_id, reference("feedback", "test_msgs", "action", "Fibonacci_Feedback")]
    );
    assert!(feedback.constants.is_empty());
}

#[test]
fn message_lines() {
    let text = "# A comment\n\n  \t \nint32 first\n   # indented comment\nuint8 SECOND=2\nstring third 'x'\n\tfloat64 fourth  \nbool FIFTH = true\n";
    let m = parse_message_string("pkg", "Thing", text).unwrap();
    assert_eq!(m.package, "pkg");
    assert_eq!(m.name, "Thing");
    let names: Vec<&str> = m.members.iter().map(|x| x.name.as_str()).collect();
    assert_eq!(names, vec!["first", "third", "fourth"]);
    let names: Vec<&str> = m.constants.iter().map(|x| x.name.as_str()).collect();
    assert_eq!(names, vec!["SECOND", "FIFTH"]);
    assert_eq!(m.constants[1].value, vec!["true"]);
    assert_eq!(m.members[1].default, Some(vec!["x".to_string()]));
}

#[test]
fn message_keeps_declaration_order() {
    let names = ["zeta", "alpha", "mid", "beta", "a1", "a0"];
    let text: String = names.iter().map(|n| format!("int32 {}\n", n)).collect();
    let m = parse_message_string("pkg", "Order", &text).unwrap();
    let parsed: Vec<&str> = m.members.iter().map(|x| x.name.as_str()).collect();
    assert_eq!(parsed, names);
}

#[test]
fn message_without_final_newline() {
    let m = parse_message_string("pkg", "Thing", "int32 a\r\nint32 b").unwrap();
    assert_eq!(m.members.len(), 2);
    assert_eq!(m.members[1].name, "b");
    let m = parse_message_string("pkg", "Thing", "").unwrap();
    assert!(m.members.is_empty() && m.constants.is_empty());
}

#[test]
fn message_errors() {
    assert_eq!(
        parse_message_string("pkg", "Thing", "int32 a\nint32\nint32 B\n"),
        Err(RclMsgError::ParseMemberError { input: "int32".into(), reason: Fault::MissingName })
    );
    assert_eq!(
        parse_message_string("pkg", "Thing", "int32 a\n  int32 b=1  \n"),
        Err(RclMsgError::ParseConstantError {
            input: "int32 b=1".into(),
            reason: Fault::InvalidName
        })
    );
    assert_eq!(
        parse_message_string("pkg", "Thing", "string s \"a=b\"\nint32 x # no comment here\n"),
        Err(RclMsgError::ParseDefaultValueError("# no comment here".into()))
    );
    assert_eq!(
        parse_message_string("pkg", "Thing", "int32 a\rint32 b\n"),
        Err(RclMsgError::ParseMemberError {
            input: "int32 a\rint32 b".into(),
            reason: Fault::InvalidName
        })
    );
    let m = parse_message_string("pkg", "Thing", "string s \"a=b\"\n").unwrap();
    assert_eq!(m.members[0].default, Some(vec!["a=b".to_string()]));
}

#[test]
fn newlines_are_fixed() {
    assert_eq!(fix_newlines("a\r\nb\r\n"), "a\nb\n");
    assert_eq!(fix_newlines("a\r\nb"), "a\nb\n");
    assert_eq!(fix_newlines("a\nb\n"), "a\nb\n");
    assert_eq!(fix_newlines(""), "\n");
    assert_eq!(fix_newlines("\n"), "\n");
    assert_eq!(fix_newlines("a\rb\r"), "a\rb\r\n");
    assert_eq!(fix_newlines("\r\r\n\r"), "\r\n\r\n");
    assert_eq!(fix_newlines("a\n\n"), "a\n\n");
}

#[test]
fn errors_have_messages() {
    let e = parse_message_string("pkg", "Thing", "int32 Bad\n").unwrap_err();
    assert_eq!(e.message(), "cannot parse member 'int32 Bad': the name has not the right form");
    assert_eq!(Fault::InvalidType.describe(), "the line does not begin with a type");
    assert_eq!(Fault::MissingName.describe(), "no name follows the type");
    assert_eq!(Fault::MissingEquals.describe(), "no equals sign follows the name");
    assert_eq!(Fault::MissingValue.describe(), "no value follows the equals sign");
    let e = parse_message_string("pkg", "Thing", "int32 BAD=\n").unwrap_err();
    assert_eq!(e.message(), "cannot parse constant 'int32 BAD=': no value follows the equals sign");
    assert_eq!(
        RclMsgError::ParseDefaultValueError("x".into()).message(),
        "cannot parse default value 'x'"
    );
    assert_eq!(
        RclMsgError::ParseConstantValueError("x".into()).message(),
        "cannot parse constant value 'x'"
    );
    assert_eq!(
        RclMsgError::InvalidDefaultError("pkg/msg/T".into()).message(),
        "no default value can be given for 'pkg/msg/T'"
    );
    assert_eq!(
        RclMsgError::InvalidServiceSpecification("why".into()).message(),
        "invalid service specification 'why'"
    );
    assert_eq!(
        RclMsgError::InvalidActionSpecification("why".into()).message(),
        "invalid action specification 'why'"
    );
    assert_eq!(RclMsgError::UnknownType("x/y.idl".into()).message(), "unknown type 'x/y.idl'");
    assert_eq!(
        RclMsgError::DuplicatePackage("p".into()).message(),
        "multiple packages found with the name 'p'"
    );
    assert_eq!(RclMsgError::InvalidMsgPath("a/b".into()).message(), "invalid message path 'a/b'");
}
