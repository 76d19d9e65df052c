use rclrust_msg_gen::compiler::{CompileOutput, Compiler, GeneratedFile};
use rclrust_msg_gen::config::CompileConfig;
use rclrust_msg_gen::generator::{generate, render};
use rclrust_msg_gen::names::unique_sorted;
use rclrust_msg_gen::parser::error::{ErrorKind, RclMsgError};
use rclrust_msg_gen::parser::package::{parse_line, AmentPrefix, IdlFile, PackageSource};

fn file(line: &str, text: &str) -> IdlFile {
    IdlFile { line: parse_line(line).unwrap().unwrap(), text: text.to_string() }
}

fn prefix(root: &str, packages: &[&str]) -> AmentPrefix {
    let sources: Vec<PackageSource> = packages
        .iter()
        .map(|name| PackageSource {
            pkg_name: name.to_string(),
            files: vec![file("msg/Point.idl", "float64 x\n")],
        })
        .collect();
    AmentPrefix::load(root, &sources, &vec![]).unwrap()
}

fn strings(v: &[&str]) -> Vec<String> {
    v.iter().map(|s| s.to_string()).collect()
}

#[test]
fn configuration_starts_with_defaults() {
    let c = CompileConfig::new("/out");
    assert!(c.search_env);
    assert!(c.codegen_single_file);
    assert!(c.link_rpath);
    assert!(c.emit_build_script);
    assert!(c.ament_prefix_paths.is_empty());
    assert_eq!(c.exclude_packages, vec!["libstatistics_collector"]);
    assert_eq!(c.output_dir, "/out");
    assert_eq!(c.rust_src_dir(), "/out/rust");
}

#[test]
fn configuration_is_built_step_by_step() {
    let start = CompileConfig::new("/out");
    let c = start.clone().search_env(false);
    assert_eq!(c, CompileConfig { search_env: false, ..start.clone() });
    let c = start.clone().link_rpath(false);
    assert_eq!(c, CompileConfig { link_rpath: false, ..start.clone() });
    let c = start.clone().emit_build_script(false);
    assert_eq!(c, CompileConfig { emit_build_script: false, ..start.clone() });
    let c = start.clone().codegen_single_file(false);
    assert_eq!(c, CompileConfig { codegen_single_file: false, ..start.clone() });
    let c = start.clone().search_env(false).search_env(true);
    assert_eq!(c, start);
    let c = start.clone().out_dir("/elsewhere");
    assert_eq!(c, CompileConfig { output_dir: "/elsewhere".into(), ..start.clone() });
    let c = start
        .clone()
        .ament_prefix_path("/a")
        .ament_prefix_paths(strings(&["/b", "/c"]))
        .ament_prefix_path("/a");
    assert_eq!(c.ament_prefix_paths, vec!["/a", "/b", "/c", "/a"]);
    let c = start.clone().clear_exclude_packages();
    assert!(c.exclude_packages.is_empty());
    let c = start.clone().exclude_package("x").exclude_packages(strings(&["y", "z"]));
    for name in ["libstatistics_collector", "x", "y", "z"] {
        assert!(c.exclude_packages.iter().any(|p| p == name));
    }
    assert!(!c.exclude_packages.iter().any(|p| p == "w"));
    let c = c.clear_exclude_packages().exclude_package("only");
    assert_eq!(c.exclude_packages, vec!["only"]);
}

#[test]
fn names_are_sorted_and_unique() {
    assert_eq!(
        unique_sorted(strings(&["std_msgs", "action_msgs", "b", "a", "ab", "B", ""])),
        Ok(strings(&["", "B", "a", "ab", "action_msgs", "b", "std_msgs"]))
    );
    assert_eq!(unique_sorted(vec![]), Ok(vec![]));
    assert_eq!(unique_sorted(strings(&["b", "a", "c", "a"])), Err("a".to_string()));
    assert_eq!(unique_sorted(strings(&["c", "b", "c", "a", "b", "c"])), Err("b".to_string()));
}

#[test]
fn building_starts_the_script() {
    let aments = vec![prefix("/opt/two", &["zz", "mm"]), prefix("/opt/one", &["aa"])];
    let compiler = CompileConfig::new("/out").build(aments.clone()).unwrap();
    assert_eq!(compiler.package_names, vec!["aa", "mm", "zz"]);
    assert_eq!(
        compiler.build_script(),
        [
            "cargo:rerun-if-env-changed=AMENT_PREFIX_PATH",
            "cargo:rerun-if-changed=/opt/two/share/ament_index/resource_index/rosidl_interfaces",
            "cargo:rerun-if-changed=/opt/two/include",
            "cargo:rerun-if-changed=/opt/one/share/ament_index/resource_index/rosidl_interfaces",
            "cargo:rerun-if-changed=/opt/one/include",
        ]
    );
    assert_eq!(compiler.aments, aments);
    assert_eq!(compiler.config, CompileConfig::new("/out"));
    let compiler = CompileConfig::new("/out").search_env(false).build(vec![]).unwrap();
    assert!(compiler.build_script().is_empty());
    assert!(compiler.package_names.is_empty());
}

#[test]
fn the_first_duplicate_is_reported() {
    let aments = vec![prefix("/opt/two", &["zz", "mm", "bb"]), prefix("/opt/one", &["zz", "bb"])];
    assert_eq!(
        CompileConfig::new("/out").build(aments),
        Err(RclMsgError::DuplicatePackage("bb".into()))
    );
}

#[test]
fn duplicate_packages_are_rejected() {
    let aments = vec![prefix("/opt/two", &["zz", "mm"]), prefix("/opt/one", &["aa", "zz"])];
    let e = CompileConfig::new("/out").build(aments.clone()).unwrap_err();
    assert_eq!(e, RclMsgError::DuplicatePackage("zz".into()));
    assert_eq!(e.kind(), ErrorKind::Duplicate);
    assert_eq!(
        CompileConfig::new("/out").run(aments),
        Err(RclMsgError::DuplicatePackage("zz".into()))
    );
}

#[test]
fn code_is_generated_into_one_file_or_one_for_each_package() {
    let aments = vec![prefix("/opt/two", &["zz", "mm"]), prefix("/opt/one", &["aa"])];
    let text = |i: usize, j: usize| render(&generate(&aments[i].packages[j]));
    let mut compiler = CompileConfig::new("/out").search_env(false).build(aments.clone()).unwrap();
    let files = compiler.codegen();
    assert_eq!(
        files,
        vec![GeneratedFile {
            path: "/out/bindings.rs".into(),
            content: format!("{}{}{}", text(0, 0), text(0, 1), text(1, 0)),
        }]
    );
    assert!(files[0].content.starts_with("pub mod zz {\npub mod msg {\n"));
    assert_eq!(compiler.build_script().len(), 8);
    assert_eq!(compiler.build_script()[0..4], compiler.build_script()[4..8]);

    let mut compiler = CompileConfig::new("/out")
        .codegen_single_file(false)
        .build(aments.clone())
        .unwrap();
    assert_eq!(
        compiler.codegen(),
        vec![
            GeneratedFile { path: "/out/rust/zz.rs".into(), content: text(0, 0) },
            GeneratedFile { path: "/out/rust/mm.rs".into(), content: text(0, 1) },
            GeneratedFile { path: "/out/rust/aa.rs".into(), content: text(1, 0) },
        ]
    );
}

fn link_commands(rpath: bool) -> Vec<String> {
    let mut compiler = Compiler {
        aments: vec![prefix("/opt/two", &["zz", "mm"]), prefix("/opt/one", &["aa"])],
        config: CompileConfig::new("/out").link_rpath(rpath),
        build_script: vec!["first".to_string()],
        package_names: vec![],
    };
    compiler.dynamic_link();
    compiler.build_script
}

#[test]
fn libraries_are_linked_dynamically() {
    assert_eq!(
        link_commands(true),
        vec![
            "first",
            "cargo:rustc-link-search=native=/opt/two/lib",
            "cargo:rustc-link-arg=-Wl,-rpath=/opt/two/lib",
            "cargo:rustc-link-arg=-Wl,--disable-new-dtags",
            "cargo:rustc-link-search=native=/opt/one/lib",
            "cargo:rustc-link-arg=-Wl,-rpath=/opt/one/lib",
            "cargo:rustc-link-arg=-Wl,--disable-new-dtags",
            "cargo:rustc-link-lib=dylib=zz__rosidl_generator_c",
            "cargo:rustc-link-lib=dylib=zz__rosidl_typesupport_c",
            "cargo:rustc-link-lib=dylib=mm__rosidl_generator_c",
            "cargo:rustc-link-lib=dylib=mm__rosidl_typesupport_c",
            "cargo:rustc-link-lib=dylib=aa__rosidl_generator_c",
            "cargo:rustc-link-lib=dylib=aa__rosidl_typesupport_c",
        ]
    );
    assert_eq!(
        link_commands(false),
        vec![
            "first",
            "cargo:rustc-link-search=native=/opt/two/lib",
            "cargo:rustc-link-search=native=/opt/one/lib",
            "cargo:rustc-link-lib=dylib=zz__rosidl_generator_c",
            "cargo:rustc-link-lib=dylib=zz__rosidl_typesupport_c",
            "cargo:rustc-link-lib=dylib=mm__rosidl_generator_c",
            "cargo:rustc-link-lib=dylib=mm__rosidl_typesupport_c",
            "cargo:rustc-link-lib=dylib=aa__rosidl_generator_c",
            "cargo:rustc-link-lib=dylib=aa__rosidl_typesupport_c",
        ]
    );
}

#[test]
fn libraries_are_planned_for_static_linking() {
    let compiler = CompileConfig::new("/out")
        .build(vec![prefix("/opt/two", &["zz"]), prefix("/opt/one", &["aa"])])
        .unwrap();
    let libs = compiler.static_libraries();
    assert_eq!(libs.len(), 4);
    assert_eq!(libs[0].library_name, "zz__rosidl_generator_c");
    assert_eq!(libs[0].include_dir, "/opt/two/include");
    assert_eq!(libs[0].out_dir, "/out/zz__rosidl_generator_c");
    assert_eq!(libs[0].source_files, vec!["/opt/two/include/zz/msg/detail/point__functions.c"]);
    assert_eq!(
        libs[0].commands,
        vec![
            "cargo:rustc-link-search=/out/zz__rosidl_generator_c",
            "cargo:rustc-link-lib=zz__rosidl_generator_c"
        ]
    );
    assert_eq!(libs[1].library_name, "zz__rosidl_typesupport_c");
    assert_eq!(libs[1].source_files, vec!["/opt/two/include/zz/msg/detail/point__type_support.c"]);
    assert_eq!(libs[2].library_name, "aa__rosidl_generator_c");
    assert_eq!(libs[3].library_name, "aa__rosidl_typesupport_c");
    assert_eq!(libs[3].include_dir, "/opt/one/include");
}

#[test]
fn the_script_is_extended() {
    let mut compiler = CompileConfig::new("/out").search_env(false).build(vec![]).unwrap();
    compiler.extend_build_script(strings(&["a", "b"]));
    compiler.extend_build_script(strings(&[]));
    compiler.extend_build_script(strings(&["c"]));
    assert_eq!(compiler.build_script(), ["a", "b", "c"]);
}

#[test]
fn a_run_builds_generates_and_links() {
    let aments = vec![prefix("/opt/two", &["zz"]), prefix("/opt/one", &["aa"])];
    let out = CompileConfig::new("/out").link_rpath(false).run(aments.clone()).unwrap();
    let text = |i: usize| render(&generate(&aments[i].packages[0]));
    assert_eq!(
        out,
        CompileOutput {
            package_names: strings(&["aa", "zz"]),
            build_commands: strings(&[
                "cargo:rerun-if-env-changed=AMENT_PREFIX_PATH",
                "cargo:rerun-if-changed=/opt/two/share/ament_index/resource_index/rosidl_interfaces",
                "cargo:rerun-if-changed=/opt/two/include",
                "cargo:rerun-if-changed=/opt/one/share/ament_index/resource_index/rosidl_interfaces",
                "cargo:rerun-if-changed=/opt/one/include",
                "cargo:rerun-if-changed=/opt/two/share/ament_index/resource_index/rosidl_interfaces",
                "cargo:rerun-if-changed=/opt/two/include",
                "cargo:rerun-if-changed=/opt/one/share/ament_index/resource_index/rosidl_interfaces",
                "cargo:rerun-if-changed=/opt/one/include",
                "cargo:rustc-link-search=native=/opt/two/lib",
                "cargo:rustc-link-search=native=/opt/one/lib",
                "cargo:rustc-link-lib=dylib=zz__rosidl_generator_c",
                "cargo:rustc-link-lib=dylib=zz__rosidl_typesupport_c",
                "cargo:rustc-link-lib=dylib=aa__rosidl_generator_c",
                "cargo:rustc-link-lib=dylib=aa__rosidl_typesupport_c",
            ]),
            generated_rust_files: vec![GeneratedFile {
                path: "/out/bindings.rs".into(),
                content: format!("{}{}", text(0), text(1)),
            }],
        }
    );
}
