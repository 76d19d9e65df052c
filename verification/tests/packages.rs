use rclrust_msg_gen::parser::error::RclMsgError;
use rclrust_msg_gen::parser::package::{
    add_support_files, build_package, camel2snake, detail_file_name, index_package,
    load_rosidl_interfaces, new_package, parse_line, AmentPrefix, FileError, IdlFile, IdlLine,
    IndexFile, Ns, PackageDir, PackageSource,
};

fn assert_line(path: &str, expect_ns: Ns, expect_file_name: &str) {
    assert!(matches!(
            parse_line(path),
            Ok(Some(IdlLine{ns, file_name, ..}))
                if ns == expect_ns && file_name == expect_file_name));
}

#[test]
fn package_parse_line_test() {
    assert_line("msg/TestHoge.idl", Ns::Msg, "TestHoge.msg");
    assert_line("srv/TestHoge.idl", Ns::Srv, "TestHoge.srv");
    assert_line("action/TestHoge.idl", Ns::Action, "TestHoge.action");

    assert!(matches!(parse_line("test/Test.msg"), Ok(None)));
    assert!(matches!(parse_line("test/Test.srv"), Ok(None)));
    assert!(matches!(parse_line("test/Test.action"), Ok(None)));

    assert!(matches!(parse_line("msg/Test.test"), Ok(None)));
    assert!(matches!(parse_line("srv/Test.test"), Ok(None)));
    assert!(matches!(parse_line("action/Test.test"), Ok(None)));
}

#[test]
fn index_lines_of_unknown_kind() {
    for line in ["test/Test.idl", "Test.idl", "/Test.idl", "MSG/Test.idl", ".idl", "msgs/a.idl"] {
        assert_eq!(parse_line(line), Err(RclMsgError::UnknownType(line.to_string())));
    }
    assert_line("msg/dir/Nested.idl", Ns::Msg, "dir/Nested.msg");
    assert_line("msg/.idl", Ns::Msg, ".msg");
    assert_eq!(parse_line(""), Ok(None));
    assert_eq!(parse_line("msg/Test.idl "), Ok(None));
}

#[test]
fn names_of_index_lines() {
    let line = parse_line("msg/TestHoge.idl").unwrap().unwrap();
    assert_eq!(line.name(), "TestHoge");
    assert_eq!(line.share_suffix("pkg"), "pkg/msg/TestHoge.msg");
    let line = IdlLine { ns: Ns::Action, file_name: "a.b.action".into() };
    assert_eq!(line.name(), "a.b");
    assert_eq!(line.share_suffix("p"), "p/action/a.b.action");
}

#[test]
fn snake_case_names() {
    assert_eq!(camel2snake("TestHoge"), "test_hoge");
    assert_eq!(camel2snake("TestHoge"), camel2snake("TestHoge"));
    assert_eq!(camel2snake("BasicTypes"), "basic_types");
    assert_eq!(camel2snake("UUID"), "uuid");
    assert_eq!(camel2snake("MultiArrayLayout"), "multi_array_layout");
    assert_eq!(camel2snake("UInt8MultiArray"), "u_int8_multi_array");
    assert_eq!(camel2snake("Float32"), "float32");
    assert_eq!(camel2snake("TFMessage"), "tf_message");
    assert_eq!(camel2snake("Point32Stamped"), "point32_stamped");
}

#[test]
fn files_that_go_with_a_definition() {
    assert_eq!(
        detail_file_name("pkg", Ns::Srv, "test_hoge", "__struct.h"),
        "pkg/srv/detail/test_hoge__struct.h"
    );
    let p = add_support_files(new_package("pkg"), Ns::Msg, "TestHoge.msg", "test_hoge");
    assert_eq!(p.name, "pkg");
    assert_eq!(p.share_suffixes, vec!["pkg/msg/TestHoge.msg"]);
    assert_eq!(p.rosidl_generator_c_lib.library_name, "pkg__rosidl_generator_c");
    assert_eq!(
        p.rosidl_generator_c_lib.include_suffixes,
        vec!["pkg/msg/detail/test_hoge__struct.h", "pkg/msg/detail/test_hoge__functions.h"]
    );
    assert_eq!(
        p.rosidl_generator_c_lib.source_suffixes,
        vec!["pkg/msg/detail/test_hoge__functions.c"]
    );
    assert_eq!(p.rosidl_typesupport_c_lib.library_name, "pkg__rosidl_typesupport_c");
    assert_eq!(
        p.rosidl_typesupport_c_lib.include_suffixes,
        vec!["pkg/msg/detail/test_hoge__type_support.h"]
    );
    assert_eq!(
        p.rosidl_typesupport_c_lib.source_suffixes,
        vec!["pkg/msg/detail/test_hoge__type_support.c"]
    );
    assert_eq!(
        p.library_names(),
        ["pkg__rosidl_generator_c", "pkg__rosidl_typesupport_c"]
    );
    assert!(p.is_empty());
}

fn file(line: &str, text: &str) -> IdlFile {
    IdlFile { line: parse_line(line).unwrap().unwrap(), text: text.to_string() }
}

fn sample_files() -> Vec<IdlFile> {
    vec![
        file("msg/TestHoge.idl", "int32 a\n"),
        file("srv/AddTwoInts.idl", "int64 a\nint64 b\n---\nint64 sum\n"),
        file("action/Fibonacci.idl", "int32 order\n---\nint32[] sequence\n---\nint32[] sequence\n"),
        file("msg/Other.idl", "TestHoge[] hoges\n"),
    ]
}

#[test]
fn packages_are_assembled_in_order() {
    let p = build_package("pkg", &sample_files()).unwrap();
    assert!(!p.is_empty());
    assert_eq!(p.name, "pkg");
    assert_eq!(p.msgs.len(), 2);
    assert_eq!(p.msgs[0].name, "TestHoge");
    assert_eq!(p.msgs[0].package, "pkg");
    assert_eq!(p.msgs[1].name, "Other");
    assert_eq!(p.srvs.len(), 1);
    assert_eq!(p.srvs[0].name, "AddTwoInts");
    assert_eq!(p.srvs[0].request.name, "AddTwoInts_Request");
    assert_eq!(p.actions.len(), 1);
    assert_eq!(p.actions[0].name, "Fibonacci");
    assert_eq!(
        p.share_suffixes,
        vec![
            "pkg/msg/TestHoge.msg",
            "pkg/srv/AddTwoInts.srv",
            "pkg/action/Fibonacci.action",
            "pkg/msg/Other.msg"
        ]
    );
    assert_eq!(
        p.rosidl_generator_c_lib.source_suffixes,
        vec![
            "pkg/msg/detail/test_hoge__functions.c",
            "pkg/srv/detail/add_two_ints__functions.c",
            "pkg/action/detail/fibonacci__functions.c",
            "pkg/msg/detail/other__functions.c"
        ]
    );
    assert_eq!(p.rosidl_generator_c_lib.include_suffixes.len(), 8);
    assert_eq!(p.rosidl_typesupport_c_lib.include_suffixes.len(), 4);
    assert_eq!(PackageDir::load("pkg", &sample_files()).unwrap().packages, p);
    assert!(build_package("empty", &vec![]).unwrap().is_empty());
}

#[test]
fn the_first_bad_file_gives_the_error() {
    let mut files = sample_files();
    files.insert(1, file("srv/Broken.idl", "int64 a\n"));
    files.push(file("msg/Late.idl", "int32\n"));
    assert_eq!(
        build_package("pkg", &files),
        Err(FileError {
            file: "pkg/srv/Broken.srv".into(),
            error: RclMsgError::InvalidServiceSpecification(
                "Expect one '---' seperator in pkg/Broken service definition".into()
            ),
        })
    );
}

#[test]
fn indexes_of_packages() {
    let lines: Vec<String> =
        ["msg/A.idl", "msg/A.msg", "", "srv/B.idl", "action/C.idl", "msg/A.idl.bak"]
            .iter()
            .map(|s| s.to_string())
            .collect();
    let p = index_package("pkg", &lines).unwrap();
    assert_eq!(p.pkg_name, "pkg");
    assert_eq!(
        p.lines,
        vec![
            IdlLine { ns: Ns::Msg, file_name: "A.msg".into() },
            IdlLine { ns: Ns::Srv, file_name: "B.srv".into() },
            IdlLine { ns: Ns::Action, file_name: "C.action".into() },
        ]
    );
    let files = vec![
        IndexFile { pkg_name: "one".into(), lines: lines.clone() },
        IndexFile { pkg_name: "two".into(), lines: vec![] },
    ];
    let ps = load_rosidl_interfaces(&files).unwrap();
    assert_eq!(ps.len(), 2);
    assert_eq!(ps[0].pkg_name, "one");
    assert_eq!(ps[0].lines.len(), 3);
    assert_eq!(ps[1].pkg_name, "two");
    assert!(ps[1].lines.is_empty());
    let bad = vec![
        IndexFile { pkg_name: "one".into(), lines },
        IndexFile { pkg_name: "two".into(), lines: vec!["x/Y.idl".into(), "z/W.idl".into()] },
    ];
    assert_eq!(load_rosidl_interfaces(&bad), Err(RclMsgError::UnknownType("x/Y.idl".into())));
}

#[test]
fn prefixes_are_loaded_without_excluded_packages() {
    let sources = vec![
        PackageSource { pkg_name: "first".into(), files: sample_files() },
        PackageSource { pkg_name: "skipped".into(), files: vec![file("msg/Bad.idl", "???\n")] },
        PackageSource { pkg_name: "second".into(), files: vec![file("msg/M.idl", "bool b\n")] },
    ];
    let exclude = vec!["libstatistics_collector".to_string(), "skipped".to_string()];
    let prefix = AmentPrefix::load("/opt/ros", &sources, &exclude).unwrap();
    assert_eq!(
        prefix.resource_dir,
        "/opt/ros/share/ament_index/resource_index/rosidl_interfaces"
    );
    assert_eq!(prefix.lib_dir, "/opt/ros/lib");
    assert_eq!(prefix.include_dir, "/opt/ros/include");
    let names: Vec<&str> = prefix.packages.iter().map(|p| p.name.as_str()).collect();
    assert_eq!(names, vec!["first", "second"]);
    assert_eq!(prefix.packages[0], build_package("first", &sample_files()).unwrap());

    let e = AmentPrefix::load("/opt/ros", &sources, &vec![]).unwrap_err();
    assert_eq!(e.file, "skipped/msg/Bad.msg");
    assert_eq!(
        e.message(),
        "unable to parse file 'skipped/msg/Bad.msg': cannot parse member '???': the line does not begin with a type"
    );
    assert_eq!(
        e.error,
        RclMsgError::ParseMemberError {
            input: "???".into(),
            reason: rclrust_msg_gen::parser::error::Fault::InvalidType
        }
    );
}
