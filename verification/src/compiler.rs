//! A compilation under way: the packages, the build script as it
//! grows, and the files that are generated.

use vstd::prelude::*;
use crate::collect::{concat_map, lemma_concat_map_step};
use crate::config::{CompileConfig, CompileConfigView};
use crate::generator::{generate, module_of, module_text, push_module};
use crate::parser::package::{AmentPrefix, AmentPrefixView};
use crate::text::{joined, lemma_strings_view_push, strings_view};
use crate::types::package::{Library, LibraryView, Package, PackageView};

verus! {

/// The contents of a sequence of installation prefixes.
pub open spec fn aments_view(v: Seq<AmentPrefix>) -> Seq<AmentPrefixView> {
    Seq::new(v.len(), |i: int| v[i]@)
}

/// The packages of the prefixes `aments`, prefix by prefix.
pub open spec fn all_packages(aments: Seq<AmentPrefixView>) -> Seq<PackageView> {
    concat_map(aments, |a: AmentPrefixView| a.packages)
}

/// The commands to run the build again when the prefix `a` changes: one
/// for its index of interfaces, one for its headers.
pub open spec fn rerun_commands_of(a: AmentPrefixView) -> Seq<Seq<char>> {
    seq!["cargo:rerun-if-changed="@ + a.resource_dir, "cargo:rerun-if-changed="@ + a.include_dir]
}

/// The commands to run the build again when one of the prefixes
/// `aments` changes.
pub open spec fn rerun_commands(aments: Seq<AmentPrefixView>) -> Seq<Seq<char>> {
    concat_map(aments, |a: AmentPrefixView| rerun_commands_of(a))
}

/// The commands that make the linker search the libraries of the
/// prefix `a`: its library directory as a search path and, if
/// `link_rpath` is set, as a run-time search path too.
pub open spec fn search_commands(link_rpath: bool, a: AmentPrefixView) -> Seq<Seq<char>> {
    seq!["cargo:rustc-link-search=native="@ + a.lib_dir] + (if link_rpath {
        seq![
            "cargo:rustc-link-arg=-Wl,-rpath="@ + a.lib_dir,
            "cargo:rustc-link-arg=-Wl,--disable-new-dtags"@,
        ]
    } else {
        Seq::empty()
    })
}

/// The commands that link the two libraries of the package `p`.
pub open spec fn library_commands(p: PackageView) -> Seq<Seq<char>> {
    seq![
        "cargo:rustc-link-lib=dylib="@ + p.rosidl_generator_c_lib.library_name,
        "cargo:rustc-link-lib=dylib="@ + p.rosidl_typesupport_c_lib.library_name,
    ]
}

/// The commands that link the libraries of the packages of `aments`
/// dynamically: first the search commands of every prefix, then the
/// library commands of every package.
pub open spec fn dynamic_link_commands(link_rpath: bool, aments: Seq<AmentPrefixView>) -> Seq<
    Seq<char>,
> {
    concat_map(aments, |a: AmentPrefixView| search_commands(link_rpath, a)) + concat_map(
        all_packages(aments),
        |p: PackageView| library_commands(p),
    )
}

/// A generated file: where it goes, and what it holds.
#[derive(Debug, Clone, PartialEq, Eq)]
pub struct GeneratedFile {
    pub path: String,
    pub content: String,
}

/// The mathematical content of a [`GeneratedFile`].
pub struct GeneratedFileView {
    pub path: Seq<char>,
    pub content: Seq<char>,
}

impl View for GeneratedFile {
    type V = GeneratedFileView;

    open spec fn view(&self) -> GeneratedFileView {
        GeneratedFileView { path: self.path@, content: self.content@ }
    }
}

/// The contents of a sequence of generated files.
pub open spec fn generated_view(v: Seq<GeneratedFile>) -> Seq<GeneratedFileView> {
    Seq::new(v.len(), |i: int| v[i]@)
}

/// The text of the bindings of the packages `packages`, one after the
/// other.
pub open spec fn bindings_text(packages: Seq<PackageView>) -> Seq<char> {
    concat_map(packages, |p: PackageView| module_text(module_of(p)))
}

/// The file of the bindings of the package `p` alone: in the directory
/// of the generated sources, named as the package.
pub open spec fn package_file(config: CompileConfigView, p: PackageView) -> GeneratedFileView {
    GeneratedFileView {
        path: config.rust_src_dir() + "/"@ + p.name + ".rs"@,
        content: module_text(module_of(p)),
    }
}

/// The files that are generated for the packages of `aments`: the file
/// `bindings.rs` in the output directory with the bindings of all the
/// packages, or, if the configuration asks for it, a file for each
/// package.
pub open spec fn generated_files(config: CompileConfigView, aments: Seq<AmentPrefixView>) -> Seq<
    GeneratedFileView,
> {
    if config.codegen_single_file {
        seq![
            GeneratedFileView {
                path: config.output_dir + "/bindings.rs"@,
                content: bindings_text(all_packages(aments)),
            },
        ]
    } else {
        Seq::new(
            all_packages(aments).len(),
            |i: int| package_file(config, all_packages(aments)[i]),
        )
    }
}

/// A library to build from its sources, with the commands that link
/// it.
#[derive(Debug, Clone, PartialEq, Eq)]
pub struct StaticLibrary {
    pub library_name: String,
    pub include_dir: String,
    pub source_files: Vec<String>,
    pub out_dir: String,
    pub commands: Vec<String>,
}

/// The mathematical content of a [`StaticLibrary`].
pub struct StaticLibraryView {
    pub library_name: Seq<char>,
    pub include_dir: Seq<char>,
    pub source_files: Seq<Seq<char>>,
    pub out_dir: Seq<char>,
    pub commands: Seq<Seq<char>>,
}

impl View for StaticLibrary {
    type V = StaticLibraryView;

    open spec fn view(&self) -> StaticLibraryView {
        StaticLibraryView {
            library_name: self.library_name@,
            include_dir: self.include_dir@,
            source_files: strings_view(self.source_files@),
            out_dir: self.out_dir@,
            commands: strings_view(self.commands@),
        }
    }
}

/// The contents of a sequence of libraries to build.
pub open spec fn static_libraries_view(v: Seq<StaticLibrary>) -> Seq<StaticLibraryView> {
    Seq::new(v.len(), |i: int| v[i]@)
}

/// How the library `lib` is built for static linking: its sources are
/// found below `include_dir`, what is built goes to a directory of the
/// output directory that is named as the library, and two commands
/// make the linker search that directory and link the library.
pub open spec fn static_library(output_dir: Seq<char>, include_dir: Seq<char>, lib: LibraryView)
    -> StaticLibraryView {
    let out_dir = output_dir + "/"@ + lib.library_name;
    StaticLibraryView {
        library_name: lib.library_name,
        include_dir,
        source_files: Seq::new(
            lib.source_suffixes.len(),
            |i: int| include_dir + "/"@ + lib.source_suffixes[i],
        ),
        out_dir,
        commands: seq![
            "cargo:rustc-link-search="@ + out_dir,
            "cargo:rustc-link-lib="@ + lib.library_name,
        ],
    }
}

/// How the two libraries of each package of the prefix `a` are built.
pub open spec fn static_libraries_of(output_dir: Seq<char>, a: AmentPrefixView) -> Seq<
    StaticLibraryView,
> {
    concat_map(
        a.packages,
        |p: PackageView|
            seq![
                static_library(output_dir, a.include_dir, p.rosidl_generator_c_lib),
                static_library(output_dir, a.include_dir, p.rosidl_typesupport_c_lib),
            ],
    )
}

/// A compilation under way.
#[derive(Debug, Clone, PartialEq, Eq)]
pub struct Compiler {
    pub aments: Vec<AmentPrefix>,
    pub config: CompileConfig,
    pub build_script: Vec<String>,
    pub package_names: Vec<String>,
}

/// The mathematical content of a [`Compiler`].
pub struct CompilerView {
    pub aments: Seq<AmentPrefixView>,
    pub config: CompileConfigView,
    pub build_script: Seq<Seq<char>>,
    pub package_names: Seq<Seq<char>>,
}

impl View for Compiler {
    type V = CompilerView;

    open spec fn view(&self) -> CompilerView {
        CompilerView {
            aments: aments_view(self.aments@),
            config: self.config@,
            build_script: strings_view(self.build_script@),
            package_names: strings_view(self.package_names@),
        }
    }
}

/// What a compilation gives.
#[derive(Debug, Clone, PartialEq, Eq)]
pub struct CompileOutput {
    pub package_names: Vec<String>,
    pub build_commands: Vec<String>,
    pub generated_rust_files: Vec<GeneratedFile>,
}

/// The mathematical content of a [`CompileOutput`].
pub struct CompileOutputView {
    pub package_names: Seq<Seq<char>>,
    pub build_commands: Seq<Seq<char>>,
    pub generated_rust_files: Seq<GeneratedFileView>,
}

impl View for CompileOutput {
    type V = CompileOutputView;

    open spec fn view(&self) -> CompileOutputView {
        CompileOutputView {
            package_names: strings_view(self.package_names@),
            build_commands: strings_view(self.build_commands@),
            generated_rust_files: generated_view(self.generated_rust_files@),
        }
    }
}

/// The packages of the prefixes `aments`, prefix by prefix.
pub fn collect_packages<'a>(aments: &'a Vec<AmentPrefix>) -> (r: Vec<&'a Package>)
    ensures
        r.len() == all_packages(aments_view(aments@)).len(),
        forall|k: int|
            0 <= k < r.len() ==> (#[trigger] r@[k])@ == all_packages(aments_view(aments@))[k],
{
    let ghost all = aments_view(aments@);
    let ghost f = |a: AmentPrefixView| a.packages;
    let mut r: Vec<&'a Package> = Vec::new();
    let mut i: usize = 0;
    proof {
        if all.len() > 0 {
            lemma_concat_map_step(all, f, 0);
        } else {
            assert(all.subrange(0, 0) =~= all);
        }
    }
    while i < aments.len()
        invariant
            i <= aments.len(),
            all == aments_view(aments@),
            f == |a: AmentPrefixView| a.packages,
            r.len() == concat_map(all.subrange(0, i as int), f).len(),
            forall|k: int|
                0 <= k < r.len() ==> (#[trigger] r@[k])@ == concat_map(
                    all.subrange(0, i as int),
                    f,
                )[k],
        decreases aments.len() - i,
    {
        let packages = &aments[i].packages;
        let ghost done = concat_map(all.subrange(0, i as int), f);
        proof {
            lemma_concat_map_step(all, f, i as int);
        }
        let mut j: usize = 0;
        while j < packages.len()
            invariant
                j <= packages.len(),
                i < aments.len(),
                packages == &aments@[i as int].packages,
                all == aments_view(aments@),
                r.len() == done.len() + j,
                forall|k: int| 0 <= k < done.len() ==> (#[trigger] r@[k])@ == done[k],
                forall|k: int| 0 <= k < j ==> (#[trigger] r@[done.len() + k])@ == packages@[k]@,
            decreases packages.len() - j,
        {
            r.push(&packages[j]);
            j = j + 1;
        }
        proof {
            let next = concat_map(all.subrange(0, i + 1), f);
            assert(next == done + all[i as int].packages);
            assert forall|k: int| 0 <= k < r.len() implies (#[trigger] r@[k])@ == next[k] by {
                if k >= done.len() {
                    assert(r@[done.len() + (k - done.len())]@ == packages@[k - done.len()]@);
                }
            }
        }
        i = i + 1;
    }
    proof {
        assert(all.subrange(0, aments.len() as int) =~= all);
    }
    r
}

/// Appends to `script` the commands to run the build again when one of
/// the prefixes `aments` changes.
pub fn push_rerun_commands(script: &mut Vec<String>, aments: &Vec<AmentPrefix>)
    ensures
        strings_view(final(script)@) == strings_view(old(script)@) + rerun_commands(
            aments_view(aments@),
        ),
{
    let ghost all = aments_view(aments@);
    let ghost f = |a: AmentPrefixView| rerun_commands_of(a);
    let ghost head = strings_view(script@);
    let mut i: usize = 0;
    proof {
        assert(all.subrange(0, 0) =~= Seq::empty());
        assert(head + Seq::<Seq<char>>::empty() =~= head);
    }
    while i < aments.len()
        invariant
            i <= aments.len(),
            all == aments_view(aments@),
            f == |a: AmentPrefixView| rerun_commands_of(a),
            strings_view(script@) == head + concat_map(all.subrange(0, i as int), f),
        decreases aments.len() - i,
    {
        let a = &aments[i];
        let c1 = joined("cargo:rerun-if-changed=", a.resource_dir.as_str());
        let c2 = joined("cargo:rerun-if-changed=", a.include_dir.as_str());
        proof {
            lemma_concat_map_step(all, f, i as int);
            lemma_strings_view_push(script@, c1);
            lemma_strings_view_push(script@.push(c1), c2);
            assert(head + (concat_map(all.subrange(0, i as int), f) + rerun_commands_of(a@)) =~= (
            head + concat_map(all.subrange(0, i as int), f)).push(c1@).push(c2@));
        }
        script.push(c1);
        script.push(c2);
        i = i + 1;
    }
    proof {
        assert(all.subrange(0, aments.len() as int) =~= all);
    }
}

/// How the library `lib` is built for static linking.
pub fn plan_static_library(output_dir: &str, include_dir: &str, lib: &Library) -> (r:
    StaticLibrary)
    ensures
        r@ == static_library(output_dir@, include_dir@, lib@),
{
    let mut out_dir = String::from_str(output_dir);
    out_dir.append("/");
    out_dir.append(lib.library_name.as_str());
    let mut source_files: Vec<String> = Vec::new();
    let mut i: usize = 0;
    while i < lib.source_suffixes.len()
        invariant
            i <= lib.source_suffixes.len(),
            source_files.len() == i,
            forall|k: int|
                0 <= k < i ==> (#[trigger] source_files@[k])@ == include_dir@ + "/"@
                    + lib.source_suffixes@[k]@,
        decreases lib.source_suffixes.len() - i,
    {
        let mut f = String::from_str(include_dir);
        f.append("/");
        f.append(lib.source_suffixes[i].as_str());
        source_files.push(f);
        i = i + 1;
    }
    let mut commands: Vec<String> = Vec::new();
    commands.push(joined("cargo:rustc-link-search=", out_dir.as_str()));
    commands.push(joined("cargo:rustc-link-lib=", lib.library_name.as_str()));
    let r = StaticLibrary {
        library_name: lib.library_name.clone(),
        include_dir: String::from_str(include_dir),
        source_files,
        out_dir,
        commands,
    };
    proof {
        let e = static_library(output_dir@, include_dir@, lib@);
        assert(r@.source_files =~= e.source_files);
        assert(r@.commands =~= e.commands);
    }
    r
}

impl Compiler {
    /// Generates the bindings of the packages, and adds to the build
    /// script the commands to run the build again when a prefix
    /// changes.
    pub fn codegen(&mut self) -> (files: Vec<GeneratedFile>)
        ensures
            generated_view(files@) == generated_files(old(self)@.config, old(self)@.aments),
            final(self)@ == (CompilerView {
                build_script: old(self)@.build_script + rerun_commands(old(self)@.aments),
                ..old(self)@
            }),
    {
        push_rerun_commands(&mut self.build_script, &self.aments);
        let packages = collect_packages(&self.aments);
        let ghost all = all_packages(self@.aments);
        let mut files: Vec<GeneratedFile> = Vec::new();
        if self.config.codegen_single_file {
            let ghost f = |p: PackageView| module_text(module_of(p));
            let mut content = String::new();
            let mut i: usize = 0;
            proof {
                assert(all.subrange(0, 0) =~= Seq::empty());
            }
            while i < packages.len()
                invariant
                    i <= packages.len(),
                    packages.len() == all.len(),
                    f == |p: PackageView| module_text(module_of(p)),
                    forall|k: int| 0 <= k < packages.len() ==> (#[trigger] packages@[k])@ == all[k],
                    content@ == concat_map(all.subrange(0, i as int), f),
                decreases packages.len() - i,
            {
                proof {
                    lemma_concat_map_step(all, f, i as int);
                }
                let m = generate(packages[i]);
                push_module(&mut content, &m);
                i = i + 1;
            }
            proof {
                assert(all.subrange(0, packages.len() as int) =~= all);
            }
            files.push(
                GeneratedFile {
                    path: joined(self.config.output_dir.as_str(), "/bindings.rs"),
                    content,
                },
            );
            assert(generated_view(files@) =~= generated_files(self@.config, self@.aments));
        } else {
            let dir = self.config.rust_src_dir();
            let mut i: usize = 0;
            while i < packages.len()
                invariant
                    i <= packages.len(),
                    packages.len() == all.len(),
                    dir@ == self@.config.rust_src_dir(),
                    forall|k: int| 0 <= k < packages.len() ==> (#[trigger] packages@[k])@ == all[k],
                    files.len() == i,
                    forall|k: int|
                        0 <= k < i ==> (#[trigger] files@[k])@ == package_file(
                            self@.config,
                            all[k],
                        ),
                decreases packages.len() - i,
            {
                let p = packages[i];
                let m = generate(p);
                let mut content = String::new();
                push_module(&mut content, &m);
                assert(content@ =~= module_text(module_of(p@)));
                let mut path = String::from_str(dir.as_str());
                path.append("/");
                path.append(p.name.as_str());
                path.append(".rs");
                files.push(GeneratedFile { path, content });
                i = i + 1;
            }
            assert(generated_view(files@) =~= generated_files(self@.config, self@.aments));
        }
        files
    }

    /// Adds to the build script the commands that link the libraries of
    /// the packages dynamically.
    pub fn dynamic_link(&mut self)
        ensures
            final(self)@ == (CompilerView {
                build_script: old(self)@.build_script + dynamic_link_commands(
                    old(self)@.config.link_rpath,
                    old(self)@.aments,
                ),
                ..old(self)@
            }),
    {
        let link_rpath = self.config.link_rpath;
        let ghost all = self@.aments;
        let ghost head = self@.build_script;
        let ghost f = |a: AmentPrefixView| search_commands(link_rpath, a);
        let mut i: usize = 0;
        proof {
            assert(all.subrange(0, 0) =~= Seq::empty());
            assert(head + Seq::<Seq<char>>::empty() =~= head);
        }
        while i < self.aments.len()
            invariant
                i <= self.aments.len(),
                all == self@.aments,
                self@.config == old(self)@.config,
                self@.aments == old(self)@.aments,
                self@.package_names == old(self)@.package_names,
                link_rpath == self.config.link_rpath,
                f == |a: AmentPrefixView| search_commands(link_rpath, a),
                self@.build_script == head + concat_map(all.subrange(0, i as int), f),
            decreases self.aments.len() - i,
        {
            let lib_dir = &self.aments[i].lib_dir;
            let ghost a = self.aments@[i as int]@;
            let ghost before = self@.build_script;
            let c1 = joined("cargo:rustc-link-search=native=", lib_dir.as_str());
            let c2 = joined("cargo:rustc-link-arg=-Wl,-rpath=", lib_dir.as_str());
            proof {
                lemma_concat_map_step(all, f, i as int);
                lemma_strings_view_push(self.build_script@, c1);
            }
            self.build_script.push(c1);
            if link_rpath {
                let c3 = String::from_str("cargo:rustc-link-arg=-Wl,--disable-new-dtags");
                proof {
                    lemma_strings_view_push(self.build_script@, c2);
                    lemma_strings_view_push(self.build_script@.push(c2), c3);
                }
                self.build_script.push(c2);
                self.build_script.push(c3);
            }
            proof {
                assert(self@.build_script =~= before + search_commands(link_rpath, a));
                assert(self@.build_script =~= head + concat_map(all.subrange(0, i + 1), f));
            }
            i = i + 1;
        }
        proof {
            assert(all.subrange(0, self.aments.len() as int) =~= all);
        }
        let ghost middle = self@.build_script;
        let ghost packages_all = all_packages(all);
        let ghost g = |p: PackageView| library_commands(p);
        let mut names: Vec<String> = Vec::new();
        {
            let packages = collect_packages(&self.aments);
            let mut j: usize = 0;
            proof {
                assert(packages_all.subrange(0, 0) =~= Seq::empty());
                assert(strings_view(names@) =~= Seq::empty());
            }
            while j < packages.len()
                invariant
                    j <= packages.len(),
                    packages.len() == packages_all.len(),
                    g == |p: PackageView| library_commands(p),
                    forall|k: int|
                        0 <= k < packages.len() ==> (#[trigger] packages@[k])@ == packages_all[k],
                    strings_view(names@) == concat_map(packages_all.subrange(0, j as int), g),
                decreases packages.len() - j,
            {
                let names_of_two = packages[j].library_names();
                let c1 = joined("cargo:rustc-link-lib=dylib=", names_of_two[0]);
                let c2 = joined("cargo:rustc-link-lib=dylib=", names_of_two[1]);
                proof {
                    lemma_concat_map_step(packages_all, g, j as int);
                    lemma_strings_view_push(names@, c1);
                    lemma_strings_view_push(names@.push(c1), c2);
                    assert(strings_view(names@.push(c1).push(c2)) =~= strings_view(names@)
                        + library_commands(packages_all[j as int]));
                }
                names.push(c1);
                names.push(c2);
                j = j + 1;
            }
            proof {
                assert(packages_all.subrange(0, packages.len() as int) =~= packages_all);
            }
        }
        self.extend_build_script(names);
        proof {
            assert(self@.build_script =~= head + dynamic_link_commands(link_rpath, all));
        }
    }

    /// How the libraries of the packages are built for static linking:
    /// the two libraries of each package, package by package and prefix
    /// by prefix. The commands of a library are to be added to the build
    /// script when the library has been built.
    pub fn static_libraries(&self) -> (r: Vec<StaticLibrary>)
        ensures
            static_libraries_view(r@) == concat_map(
                self@.aments,
                |a: AmentPrefixView| static_libraries_of(self@.config.output_dir, a),
            ),
    {
        let ghost all = self@.aments;
        let ghost output_dir = self@.config.output_dir;
        let ghost f = |a: AmentPrefixView| static_libraries_of(output_dir, a);
        let mut r: Vec<StaticLibrary> = Vec::new();
        let mut i: usize = 0;
        proof {
            assert(all.subrange(0, 0) =~= Seq::empty());
            assert(static_libraries_view(r@) =~= Seq::empty());
        }
        while i < self.aments.len()
            invariant
                i <= self.aments.len(),
                all == self@.aments,
                output_dir == self@.config.output_dir,
                f == |a: AmentPrefixView| static_libraries_of(output_dir, a),
                static_libraries_view(r@) == concat_map(all.subrange(0, i as int), f),
            decreases self.aments.len() - i,
        {
            let ament = &self.aments[i];
            let ghost a = ament@;
            let ghost head = static_libraries_view(r@);
            let ghost g = |p: PackageView|
                seq![
                    static_library(output_dir, a.include_dir, p.rosidl_generator_c_lib),
                    static_library(output_dir, a.include_dir, p.rosidl_typesupport_c_lib),
                ];
            let mut j: usize = 0;
            proof {
                lemma_concat_map_step(all, f, i as int);
                assert(a.packages.subrange(0, 0) =~= Seq::empty());
                assert(head + Seq::<StaticLibraryView>::empty() =~= head);
            }
            while j < ament.packages.len()
                invariant
                    j <= ament.packages.len(),
                    i < self.aments.len(),
                    ament == &self.aments@[i as int],
                    a == ament@,
                    output_dir == self@.config.output_dir,
                    g == |p: PackageView|
                        seq![
                            static_library(output_dir, a.include_dir, p.rosidl_generator_c_lib),
                            static_library(output_dir, a.include_dir, p.rosidl_typesupport_c_lib),
                        ],
                    static_libraries_view(r@) == head + concat_map(
                        a.packages.subrange(0, j as int),
                        g,
                    ),
                decreases ament.packages.len() - j,
            {
                let p = &ament.packages[j];
                let l1 = plan_static_library(
                    self.config.output_dir.as_str(),
                    ament.include_dir.as_str(),
                    &p.rosidl_generator_c_lib,
                );
                let l2 = plan_static_library(
                    self.config.output_dir.as_str(),
                    ament.include_dir.as_str(),
                    &p.rosidl_typesupport_c_lib,
                );
                proof {
                    lemma_concat_map_step(a.packages, g, j as int);
                    assert(a.packages[j as int] == p@);
                    assert(static_libraries_view(r@.push(l1).push(l2)) =~= static_libraries_view(
                        r@,
                    ) + seq![l1@, l2@]);
                    assert(head + (concat_map(a.packages.subrange(0, j as int), g) + g(p@)) =~= (
                    head + concat_map(a.packages.subrange(0, j as int), g)) + seq![l1@, l2@]);
                }
                r.push(l1);
                r.push(l2);
                j = j + 1;
            }
            proof {
                assert(a.packages.subrange(0, ament.packages.len() as int) =~= a.packages);
                assert(static_libraries_of(output_dir, a) == concat_map(a.packages, g));
            }
            i = i + 1;
        }
        proof {
            assert(all.subrange(0, self.aments.len() as int) =~= all);
        }
        r
    }

    /// The build script as it stands.
    pub fn build_script(&self) -> (r: &[String])
        ensures
            r@ == self.build_script@,
    {
        self.build_script.as_slice()
    }

    /// Adds the commands `commands` to the build script, in their
    /// order.
    pub fn extend_build_script(&mut self, commands: Vec<String>)
        ensures
            final(self)@ == (CompilerView {
                build_script: old(self)@.build_script + strings_view(commands@),
                ..old(self)@
            }),
    {
        let ghost head = self@.build_script;
        let mut i: usize = 0;
        proof {
            assert(head + strings_view(commands@).subrange(0, 0) =~= head);
        }
        while i < commands.len()
            invariant
                i <= commands.len(),
                self@.config == old(self)@.config,
                self@.aments == old(self)@.aments,
                self@.package_names == old(self)@.package_names,
                self@.build_script == head + strings_view(commands@).subrange(0, i as int),
            decreases commands.len() - i,
        {
            let c = commands[i].clone();
            proof {
                lemma_strings_view_push(self.build_script@, c);
                assert(head + strings_view(commands@).subrange(0, i + 1) =~= (head + strings_view(
                    commands@,
                ).subrange(0, i as int)).push(c@));
            }
            self.build_script.push(c);
            i = i + 1;
        }
        proof {
            assert(strings_view(commands@).subrange(0, commands.len() as int) =~= strings_view(
                commands@,
            ));
        }
    }
}

} // verus!
