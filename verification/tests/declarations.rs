use rclrust_msg_gen::parser::constant::{constant_def, validate_value};
use rclrust_msg_gen::parser::error::{ErrorKind, Fault, RclMsgError};
use rclrust_msg_gen::parser::member::{member_def, validate_default};
use rclrust_msg_gen::types::constant::ConstantType;
use rclrust_msg_gen::types::member::MemberType;
use rclrust_msg_gen::types::primitives::{
    BasicType, GenericString, GenericUnboundedString, NamedType, NamespacedType, NestableType,
    PrimitiveType,
};
use rclrust_msg_gen::types::sequences::{Array, BoundedSequence, PrimitiveArray, Sequence};

#[test]
fn constant_parse_member_def_with_default() {
    let result = constant_def("int32 AAA=30").unwrap();
    assert_eq!(result.name, "AAA");
    assert_eq!(result.type_, BasicType::I32.into());
    assert_eq!(result.value, vec!["30"]);
}

#[test]
fn parse_member_def() {
    let result = member_def("int32 aaa").unwrap();
    assert_eq!(result.name, "aaa");
    assert_eq!(result.type_, BasicType::I32.into());
    assert_eq!(result.default, None);
}

#[test]
fn member_parse_member_def_with_default() {
    let result = member_def("int32 aaa 30").unwrap();
    assert_eq!(result.name, "aaa");
    assert_eq!(result.type_, BasicType::I32.into());
    assert_eq!(result.default, Some(vec!["30".into()]));
}

#[test]
fn parse_member_def_with_invalid_default() {
    assert!(member_def("uint8 aaa -1").is_err());
    assert!(member_def("uint8 aaa 256").is_err());
}

#[test]
fn uint8_constant_bounds() {
    assert_eq!(constant_def("uint8 AAA=255").unwrap().value, vec!["255"]);
    assert_eq!(constant_def("uint8 AAA=0").unwrap().value, vec!["0"]);
    assert_eq!(
        constant_def("uint8 AAA=256"),
        Err(RclMsgError::ParseConstantValueError("256".into()))
    );
    assert_eq!(
        constant_def("uint8 AAA=-1"),
        Err(RclMsgError::ParseConstantValueError("-1".into()))
    );
}

fn bounds_of(keyword: &str, min: &str, max: &str, below: &str, above: &str) {
    for ok in [min, max] {
        let c = constant_def(&format!("{} LIMIT={}", keyword, ok)).unwrap();
        assert_eq!(c.value, vec![ok.to_string()]);
        let m = member_def(&format!("{} limit {}", keyword, ok)).unwrap();
        assert_eq!(m.default, Some(vec![ok.to_string()]));
    }
    for bad in [below, above] {
        let e = constant_def(&format!("{} LIMIT={}", keyword, bad)).unwrap_err();
        assert_eq!(e, RclMsgError::ParseConstantValueError(bad.to_string()));
        assert_eq!(e.kind(), ErrorKind::Value);
        let e = member_def(&format!("{} limit {}", keyword, bad)).unwrap_err();
        assert_eq!(e, RclMsgError::ParseDefaultValueError(bad.to_string()));
    }
}

#[test]
fn integer_bounds_of_every_width() {
    bounds_of("int8", "-128", "127", "-129", "128");
    bounds_of("uint8", "0", "255", "-1", "256");
    bounds_of("byte", "0", "255", "-1", "256");
    bounds_of("char", "0", "255", "-1", "256");
    bounds_of("int16", "-32768", "32767", "-32769", "32768");
    bounds_of("uint16", "0", "65535", "-1", "65536");
    bounds_of("int32", "-2147483648", "2147483647", "-2147483649", "2147483648");
    bounds_of("uint32", "0", "4294967295", "-1", "4294967296");
    bounds_of(
        "int64",
        "-9223372036854775808",
        "9223372036854775807",
        "-9223372036854775809",
        "9223372036854775808",
    );
    bounds_of("uint64", "0", "18446744073709551615", "-1", "18446744073709551616");
}

#[test]
fn integers_are_canonical() {
    assert_eq!(member_def("int32 a +007").unwrap().default, Some(vec!["7".into()]));
    assert_eq!(member_def("int32 a -0").unwrap().default, Some(vec!["0".into()]));
    assert_eq!(member_def("uint8 a -0").unwrap().default, Some(vec!["0".into()]));
    assert_eq!(member_def("int8 a -0128").unwrap().default, Some(vec!["-128".into()]));
    assert!(member_def("int32 a 1_000").is_err());
    assert!(member_def("int32 a 0x10").is_err());
    assert!(member_def("int32 a +").is_err());
    assert!(member_def("int32 a 99999999999999999999999999999999999999999999").is_err());
}

#[test]
fn float_literals() {
    for ok in ["1.125", "0.0", "-1.125", "3", "+3.", ".5", "1e10", "1E-3", "-2.5e+7"] {
        let m = member_def(&format!("float32 x {}", ok)).unwrap();
        assert_eq!(m.type_, BasicType::F32.into());
        assert_eq!(m.default, Some(vec![ok.to_string()]));
        let c = constant_def(&format!("float64 X={}", ok)).unwrap();
        assert_eq!(c.value, vec![ok.to_string()]);
    }
    for bad in [".", "e5", "1e", "1e+", "1.5x", "--1", "1..2", "nan"] {
        assert_eq!(
            member_def(&format!("float64 x {}", bad)),
            Err(RclMsgError::ParseDefaultValueError(bad.to_string()))
        );
    }
}

#[test]
fn bool_literals() {
    for (text, value) in [("true", "true"), ("TRUE", "true"), ("False", "false"), ("fAlSe", "false")] {
        let m = member_def(&format!("bool b {}", text)).unwrap();
        assert_eq!(m.default, Some(vec![value.to_string()]));
    }
    for bad in ["1", "0", "yes", "tru", "truee"] {
        assert!(member_def(&format!("bool b {}", bad)).is_err());
    }
}

#[test]
fn string_literals() {
    let m = member_def(r#"string s "Hello world!""#).unwrap();
    assert_eq!(m.type_, GenericString::String.into());
    assert_eq!(m.default, Some(vec!["Hello world!".into()]));
    let m = member_def(r#"string s "Hello'world!""#).unwrap();
    assert_eq!(m.default, Some(vec!["Hello'world!".into()]));
    let m = member_def(r#"string s 'Hello"world!'"#).unwrap();
    assert_eq!(m.default, Some(vec!["Hello\"world!".into()]));
    let m = member_def(r#"string s 'Hello\'world!'"#).unwrap();
    assert_eq!(m.default, Some(vec!["Hello'world!".into()]));
    let m = member_def(r#"string s "Hello\"world!""#).unwrap();
    assert_eq!(m.default, Some(vec!["Hello\"world!".into()]));
    let m = member_def(r#"wstring s "a\\b""#).unwrap();
    assert_eq!(m.type_, GenericString::WString.into());
    assert_eq!(m.default, Some(vec!["a\\b".into()]));
    let m = member_def(r#"string s """#).unwrap();
    assert_eq!(m.default, Some(vec!["".into()]));
    for bad in [r#"hello"#, r#""hello"#, r#""a"b""#, r#""a\nb""#, r#""a" x"#, r#"'a""#] {
        assert_eq!(
            member_def(&format!("string s {}", bad)),
            Err(RclMsgError::ParseDefaultValueError(bad.to_string()))
        );
    }
}

#[test]
fn bounded_strings() {
    let m = member_def(r#"string<=5 s "12345""#).unwrap();
    assert_eq!(m.type_, GenericString::BoundedString(5).into());
    assert_eq!(m.default, Some(vec!["12345".into()]));
    assert!(member_def(r#"string<=5 s "123456""#).is_err());
    let m = member_def(r#"wstring<=2 s "\"\"""#).unwrap();
    assert_eq!(m.type_, GenericString::BoundedWString(2).into());
    assert_eq!(m.default, Some(vec!["\"\"".into()]));
    let m = member_def(r#"string<=22[<=3] s ["a", "b"]"#).unwrap();
    assert_eq!(
        m.type_,
        MemberType::BoundedSequence(BoundedSequence {
            value_type: NestableType::GenericString(GenericString::BoundedString(22)),
            max_size: 3,
        })
    );
    assert_eq!(m.default, Some(vec!["a".into(), "b".into()]));
    assert!(member_def(r#"string<=1[] s ["a", "bc"]"#).is_err());
}

#[test]
fn sequence_defaults_have_no_upper_bound() {
    let m = member_def("int32[] xs [1, 2, 3, 4, 5, 6, 7]").unwrap();
    assert_eq!(
        m.type_,
        MemberType::Sequence(Sequence { value_type: NestableType::BasicType(BasicType::I32) })
    );
    assert_eq!(m.default.unwrap().len(), 7);
    let m = member_def("int32[] xs [ 10 ,-2,+3 ]").unwrap();
    assert_eq!(m.default, Some(vec!["10".into(), "-2".into(), "3".into()]));
    let m = member_def("int32[] xs []").unwrap();
    assert_eq!(m.default, Some(vec![]));
    let m = member_def("int32[] xs [  ]").unwrap();
    assert_eq!(m.default, Some(vec![]));
}

#[test]
fn bounded_sequence_defaults() {
    let ty = MemberType::BoundedSequence(BoundedSequence {
        value_type: NestableType::BasicType(BasicType::I32),
        max_size: 3,
    });
    assert_eq!(
        member_def("int32[<=3] xs [1, 2, 3, 4]"),
        Err(RclMsgError::ParseDefaultValueError("[1, 2, 3, 4]".into()))
    );
    for (text, n) in [("[1, 2, 3]", 3), ("[1, 2]", 2), ("[1]", 1), ("[]", 0)] {
        let m = member_def(&format!("int32[<=3] xs {}", text)).unwrap();
        assert_eq!(m.type_, ty);
        assert_eq!(m.default.unwrap().len(), n);
    }
}

#[test]
fn array_defaults() {
    let m = member_def("uint8[3] xs [0, 1, 255]").unwrap();
    assert_eq!(
        m.type_,
        MemberType::Array(Array { value_type: NestableType::BasicType(BasicType::U8), size: 3 })
    );
    assert_eq!(m.default, Some(vec!["0".into(), "1".into(), "255".into()]));
    assert!(member_def("uint8[3] xs [0, 1]").is_err());
    assert!(member_def("uint8[3] xs [0, 1, 2, 3]").is_err());
    assert!(member_def("uint8[3] xs [0, 1, 256]").is_err());
    assert!(member_def("uint8[3] xs [0, 1,, 2]").is_err());
    assert!(member_def("uint8[3] xs [0, 1, 2,]").is_err());
    assert!(member_def("uint8[3] xs 0, 1, 2").is_err());
    assert!(member_def("uint8[3] xs [0, 1, 2").is_err());
    let m = member_def(r#"string[3] xs ["", "max, value", 'min value']"#).unwrap();
    assert_eq!(m.default, Some(vec!["".into(), "max, value".into(), "min value".into()]));
    assert!(member_def(r#"string[2] xs ["a" "b"]"#).is_err());
    assert!(member_def(r#"string[2] xs ["a",]"#).is_err());
    assert!(member_def(r#"string[2] xs ["a"]"#).is_err());
}

#[test]
fn member_types() {
    assert_eq!(
        member_def("pkg_a/Thing t").unwrap().type_,
        NamespacedType { package: "pkg_a".into(), namespace: "msg".into(), name: "Thing".into() }
            .into()
    );
    assert_eq!(member_def("Thing t").unwrap().type_, NamedType("Thing".into()).into());
    assert_eq!(member_def("thing t").unwrap().type_, NamedType("thing".into()).into());
    assert_eq!(
        member_def("Thing[4] t").unwrap().type_,
        MemberType::Array(Array {
            value_type: NestableType::NamedType(NamedType("Thing".into())),
            size: 4
        })
    );
    assert_eq!(
        member_def("pkg/Thing[<=4] t").unwrap().type_,
        MemberType::BoundedSequence(BoundedSequence {
            value_type: NestableType::NamespacedType(NamespacedType {
                package: "pkg".into(),
                namespace: "msg".into(),
                name: "Thing".into()
            }),
            max_size: 4
        })
    );
    for bad in ["int32[", "int32]", "int32[3", "int32[x]", "int32[<=]", "int32[<3]", "int32[3][2]",
        "Pkg/Thing", "pkg/", "/Thing", "pkg/a/B", "string<=", "string<=x", "str-ing", "9lives",
        "int32[-1]", "int32[99999999999999999999999]"]
    {
        assert_eq!(
            member_def(&format!("{} t", bad)),
            Err(RclMsgError::ParseMemberError {
                input: format!("{} t", bad),
                reason: Fault::InvalidType
            }),
            "{}",
            bad
        );
    }
}

#[test]
fn member_grammar_errors() {
    let err = |line: &str, reason: Fault| {
        assert_eq!(
            member_def(line),
            Err(RclMsgError::ParseMemberError { input: line.to_string(), reason })
        );
        assert_eq!(member_def(line).unwrap_err().kind(), ErrorKind::Grammar);
        assert_eq!(member_def(line).unwrap_err().text(), line);
    };
    err("", Fault::InvalidType);
    err(" int32 a", Fault::InvalidType);
    err("int32", Fault::MissingName);
    err("int32   ", Fault::MissingName);
    err("int32 Aaa", Fault::InvalidName);
    err("int32 a__b", Fault::InvalidName);
    err("int32 a_", Fault::InvalidName);
    err("int32 _a", Fault::InvalidName);
    err("int32 1a", Fault::InvalidName);
    err("int32 a-b", Fault::InvalidName);
    let m = member_def("int32 \t a_b2_c  \t ").unwrap();
    assert_eq!(m.name, "a_b2_c");
    assert_eq!(m.default, None);
    let m = member_def("int32 a   5  ").unwrap();
    assert_eq!(m.default, Some(vec!["5".into()]));
}

#[test]
fn defaults_for_references_are_refused() {
    let e = member_def("Thing t 5").unwrap_err();
    assert_eq!(e, RclMsgError::InvalidDefaultError("Thing".into()));
    assert_eq!(e.kind(), ErrorKind::Structure);
    assert_eq!(
        member_def("pkg/Thing t 5"),
        Err(RclMsgError::InvalidDefaultError("pkg/msg/Thing".into()))
    );
    assert_eq!(
        member_def("pkg/Thing[] t [5]"),
        Err(RclMsgError::InvalidDefaultError("pkg/msg/Thing".into()))
    );
    assert_eq!(
        validate_default(&NamedType("Other".into()).into(), "1"),
        Err(RclMsgError::InvalidDefaultError("Other".into()))
    );
}

#[test]
fn validate_default_by_type() {
    assert_eq!(validate_default(&BasicType::I8.into(), "-128"), Ok(vec!["-128".to_string()]));
    assert_eq!(
        validate_default(&BasicType::I8.into(), "-129"),
        Err(RclMsgError::ParseDefaultValueError("-129".into()))
    );
    let seq = MemberType::Sequence(Sequence { value_type: NestableType::BasicType(BasicType::Bool) });
    assert_eq!(
        validate_default(&seq, "[true, FALSE]"),
        Ok(vec!["true".to_string(), "false".to_string()])
    );
    assert_eq!(
        validate_default(&seq, "true"),
        Err(RclMsgError::ParseDefaultValueError("true".into()))
    );
}

#[test]
fn constants() {
    let c = constant_def("string NAME = 'x y'  ").unwrap();
    assert_eq!(c.name, "NAME");
    assert_eq!(c.type_, GenericUnboundedString::String.into());
    assert_eq!(c.value, vec!["x y"]);
    let c = constant_def("uint8[2] TWO_BYTES=[1, 2]").unwrap();
    assert_eq!(
        c.type_,
        ConstantType::PrimitiveArray(PrimitiveArray {
            value_type: PrimitiveType::BasicType(BasicType::U8),
            size: 2
        })
    );
    assert_eq!(c.value, vec!["1", "2"]);
    let c = constant_def(r#"wstring[2] NAMES = ["a", "b"]"#).unwrap();
    assert_eq!(
        c.type_,
        ConstantType::PrimitiveArray(PrimitiveArray {
            value_type: PrimitiveType::GenericUnboundedString(GenericUnboundedString::WString),
            size: 2
        })
    );
    assert_eq!(c.value, vec!["a", "b"]);
    assert_eq!(
        constant_def(r#"string[2] NAMES = ["a"]"#),
        Err(RclMsgError::ParseConstantValueError(r#"["a"]"#.into()))
    );
    assert_eq!(
        constant_def("uint8[2] TWO=[1, 2, 3]"),
        Err(RclMsgError::ParseConstantValueError("[1, 2, 3]".into()))
    );
    assert_eq!(
        validate_value(BasicType::U16.into(), "65536"),
        Err(RclMsgError::ParseConstantValueError("65536".into()))
    );
    assert_eq!(validate_value(BasicType::U16.into(), "65535"), Ok(vec!["65535".to_string()]));
}

#[test]
fn constant_grammar_errors() {
    let err = |line: &str, reason: Fault| {
        assert_eq!(
            constant_def(line),
            Err(RclMsgError::ParseConstantError { input: line.to_string(), reason })
        );
    };
    err("int32[] AAA=[1]", Fault::InvalidType);
    err("int32[<=3] AAA=[1]", Fault::InvalidType);
    err("string<=3 AAA='a'", Fault::InvalidType);
    err("Thing AAA=1", Fault::InvalidType);
    err("int32", Fault::MissingName);
    err("int32 aaa=1", Fault::InvalidName);
    err("int32 A__B=1", Fault::InvalidName);
    err("int32 =1", Fault::InvalidName);
    err("int32 AAA", Fault::MissingEquals);
    err("int32 AAA 1", Fault::MissingEquals);
    err("int32 AAA=", Fault::MissingValue);
    err("int32 AAA =  ", Fault::MissingValue);
}
