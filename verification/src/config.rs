//! The configuration of a compilation.

use vstd::prelude::*;
use crate::collect::names_of;
use crate::compiler::{
    collect_packages, rerun_commands, all_packages, aments_view, push_rerun_commands, CompileOutput,
    Compiler,
};
use crate::names::{lex_le, sorted, unique_sorted};
use crate::parser::error::RclMsgError;
use crate::parser::package::{AmentPrefix, AmentPrefixView};
use crate::text::{joined, lemma_strings_view_push, strings_view};
use crate::types::package::PackageView;

verus! {

/// How to compile: where to look for packages, which to leave out, and
/// what to write where.
#[derive(Debug, Clone, PartialEq, Eq)]
pub struct CompileConfig {
    /// Whether the installation prefixes of the environment are
    /// searched.
    pub search_env: bool,
    /// Whether the bindings of all packages go to one file.
    pub codegen_single_file: bool,
    /// Whether the directories of the libraries are given to the
    /// linker as run-time search paths.
    pub link_rpath: bool,
    /// Whether the build script is printed as it grows.
    pub emit_build_script: bool,
    /// The installation prefixes to search besides those of the
    /// environment.
    pub ament_prefix_paths: Vec<String>,
    /// The packages to leave out.
    pub exclude_packages: Vec<String>,
    /// The directory for what is generated.
    pub output_dir: String,
}

/// The mathematical content of a [`CompileConfig`].
pub struct CompileConfigView {
    pub search_env: bool,
    pub codegen_single_file: bool,
    pub link_rpath: bool,
    pub emit_build_script: bool,
    pub ament_prefix_paths: Seq<Seq<char>>,
    pub exclude_packages: Set<Seq<char>>,
    pub output_dir: Seq<char>,
}

impl View for CompileConfig {
    type V = CompileConfigView;

    open spec fn view(&self) -> CompileConfigView {
        CompileConfigView {
            search_env: self.search_env,
            codegen_single_file: self.codegen_single_file,
            link_rpath: self.link_rpath,
            emit_build_script: self.emit_build_script,
            ament_prefix_paths: strings_view(self.ament_prefix_paths@),
            exclude_packages: names_of(self.exclude_packages@),
            output_dir: self.output_dir@,
        }
    }
}

impl CompileConfigView {
    /// The configuration that a compilation starts from: the
    /// environment is searched, all bindings go to one file, run-time
    /// search paths are given, the build script is printed, no other
    /// prefix is searched, and the package `libstatistics_collector` is
    /// left out.
    pub open spec fn initial(output_dir: Seq<char>) -> CompileConfigView {
        CompileConfigView {
            search_env: true,
            codegen_single_file: true,
            link_rpath: true,
            emit_build_script: true,
            ament_prefix_paths: Seq::empty(),
            exclude_packages: set!["libstatistics_collector"@],
            output_dir,
        }
    }

    /// The directory for the generated sources: `rust` in the output
    /// directory.
    pub open spec fn rust_src_dir(self) -> Seq<char> {
        self.output_dir + "/rust"@
    }
}

/// The names of the packages `packages`, in their order.
pub open spec fn package_names(packages: Seq<PackageView>) -> Seq<Seq<char>> {
    Seq::new(packages.len(), |i: int| packages[i].name)
}

/// The build script that a compilation starts with: if the environment
/// is searched, the command to run again when the variable of the
/// prefixes changes; then the commands to run again when a prefix
/// changes.
pub open spec fn initial_script(search_env: bool, aments: Seq<AmentPrefixView>) -> Seq<
    Seq<char>,
> {
    (if search_env {
        seq!["cargo:rerun-if-env-changed=AMENT_PREFIX_PATH"@]
    } else {
        Seq::empty()
    }) + rerun_commands(aments)
}

/// Whether `name` is, in the order of strings, the first of the names
/// that occur more than once among `names`.
pub open spec fn is_first_duplicate(names: Seq<Seq<char>>, name: Seq<char>) -> bool {
    &&& names.to_multiset().count(name) >= 2
    &&& forall|n: Seq<char>| names.to_multiset().count(n) >= 2 ==> lex_le(name, n)
}

impl CompileConfig {
    /// The configuration that a compilation starts from, with
    /// `out_dir` as the directory for what is generated.
    pub fn new(out_dir: &str) -> (r: Self)
        ensures
            r@ == CompileConfigView::initial(out_dir@),
    {
        let mut exclude_packages: Vec<String> = Vec::new();
        exclude_packages.push(String::from_str("libstatistics_collector"));
        let r = CompileConfig {
            search_env: true,
            codegen_single_file: true,
            link_rpath: true,
            emit_build_script: true,
            ament_prefix_paths: Vec::new(),
            exclude_packages,
            output_dir: String::from_str(out_dir),
        };
        assert(r@.ament_prefix_paths =~= Seq::empty());
        assert(r@.exclude_packages =~= set!["libstatistics_collector"@]) by {
            assert(r.exclude_packages@[0]@ == "libstatistics_collector"@);
        }
        r
    }

    /// Sets whether the build script is printed as it grows.
    pub fn emit_build_script(self, yes: bool) -> (r: Self)
        ensures
            r@ == (CompileConfigView { emit_build_script: yes, ..self@ }),
    {
        let mut r = self;
        r.emit_build_script = yes;
        r
    }

    /// Sets whether the installation prefixes of the environment are
    /// searched.
    pub fn search_env(self, yes: bool) -> (r: Self)
        ensures
            r@ == (CompileConfigView { search_env: yes, ..self@ }),
    {
        let mut r = self;
        r.search_env = yes;
        r
    }

    /// Adds an installation prefix to search.
    pub fn ament_prefix_path(self, dir: &str) -> (r: Self)
        ensures
            r@ == (CompileConfigView {
                ament_prefix_paths: self@.ament_prefix_paths.push(dir@),
                ..self@
            }),
    {
        let mut r = self;
        let d = String::from_str(dir);
        proof {
            lemma_strings_view_push(r.ament_prefix_paths@, d);
        }
        r.ament_prefix_paths.push(d);
        r
    }

    /// Adds installation prefixes to search, in their order.
    pub fn ament_prefix_paths(self, dirs: Vec<String>) -> (r: Self)
        ensures
            r@ == (CompileConfigView {
                ament_prefix_paths: self@.ament_prefix_paths + strings_view(dirs@),
                ..self@
            }),
    {
        let mut r = self;
        let mut i: usize = 0;
        assert(self@.ament_prefix_paths + strings_view(dirs@).subrange(0, 0)
            =~= self@.ament_prefix_paths);
        while i < dirs.len()
            invariant
                i <= dirs.len(),
                r@ == (CompileConfigView {
                    ament_prefix_paths: self@.ament_prefix_paths + strings_view(dirs@).subrange(
                        0,
                        i as int,
                    ),
                    ..self@
                }),
            decreases dirs.len() - i,
        {
            let d = dirs[i].clone();
            proof {
                lemma_strings_view_push(r.ament_prefix_paths@, d);
                assert(self@.ament_prefix_paths + strings_view(dirs@).subrange(0, i + 1) =~= (
                self@.ament_prefix_paths + strings_view(dirs@).subrange(0, i as int)).push(d@));
            }
            r.ament_prefix_paths.push(d);
            i = i + 1;
        }
        assert(strings_view(dirs@).subrange(0, dirs.len() as int) =~= strings_view(dirs@));
        r
    }

    /// Sets whether the bindings of all packages go to one file.
    pub fn codegen_single_file(self, yes: bool) -> (r: Self)
        ensures
            r@ == (CompileConfigView { codegen_single_file: yes, ..self@ }),
    {
        let mut r = self;
        r.codegen_single_file = yes;
        r
    }

    /// Sets whether the directories of the libraries are given to the
    /// linker as run-time search paths.
    pub fn link_rpath(self, yes: bool) -> (r: Self)
        ensures
            r@ == (CompileConfigView { link_rpath: yes, ..self@ }),
    {
        let mut r = self;
        r.link_rpath = yes;
        r
    }

    /// Sets the directory for what is generated.
    pub fn out_dir(self, dir: &str) -> (r: Self)
        ensures
            r@ == (CompileConfigView { output_dir: dir@, ..self@ }),
    {
        let mut r = self;
        r.output_dir = String::from_str(dir);
        r
    }

    /// Leaves no package out.
    pub fn clear_exclude_packages(self) -> (r: Self)
        ensures
            r@ == (CompileConfigView { exclude_packages: Set::empty(), ..self@ }),
    {
        let mut r = self;
        r.exclude_packages = Vec::new();
        assert(r@.exclude_packages =~= Set::empty());
        r
    }

    /// Leaves the package `package` out.
    pub fn exclude_package(self, package: &str) -> (r: Self)
        ensures
            r@ == (CompileConfigView {
                exclude_packages: self@.exclude_packages.insert(package@),
                ..self@
            }),
    {
        let mut r = self;
        let p = String::from_str(package);
        let ghost before = r.exclude_packages@;
        r.exclude_packages.push(p);
        proof {
            lemma_names_push(before, p);
        }
        r
    }

    /// Leaves the packages `packages` out.
    pub fn exclude_packages(self, packages: Vec<String>) -> (r: Self)
        ensures
            r@ == (CompileConfigView {
                exclude_packages: self@.exclude_packages.union(names_of(packages@)),
                ..self@
            }),
    {
        let mut r = self;
        let mut i: usize = 0;
        assert(self@.exclude_packages.union(names_of(packages@.subrange(0, 0)))
            =~= self@.exclude_packages);
        while i < packages.len()
            invariant
                i <= packages.len(),
                r@ == (CompileConfigView {
                    exclude_packages: self@.exclude_packages.union(
                        names_of(packages@.subrange(0, i as int)),
                    ),
                    ..self@
                }),
            decreases packages.len() - i,
        {
            let p = packages[i].clone();
            let ghost before = r.exclude_packages@;
            r.exclude_packages.push(p);
            proof {
                lemma_names_push(before, p);
                lemma_names_push(packages@.subrange(0, i as int), p);
                assert(packages@.subrange(0, i + 1) =~= packages@.subrange(0, i as int).push(p));
                assert(self@.exclude_packages.union(names_of(packages@.subrange(0, i + 1)))
                    =~= self@.exclude_packages.union(
                    names_of(packages@.subrange(0, i as int)),
                ).insert(p@));
            }
            i = i + 1;
        }
        assert(packages@.subrange(0, packages.len() as int) =~= packages@);
        r
    }

    /// The directory for the generated sources.
    pub fn rust_src_dir(&self) -> (r: String)
        ensures
            r@ == self@.rust_src_dir(),
    {
        joined(self.output_dir.as_str(), "/rust")
    }

    /// Starts a compilation of the packages of the prefixes `aments`.
    ///
    /// No two packages may have one name: if a name occurs more than
    /// once, the result is the error that names the first such name in
    /// the order of strings. Else the compiler
    /// holds the names of the packages in order, and the build script
    /// that a compilation starts with.
    pub fn build(self, aments: Vec<AmentPrefix>) -> (r: Result<Compiler, RclMsgError>)
        ensures
            match r {
                Ok(c) => {
                    &&& package_names(all_packages(aments_view(aments@))).no_duplicates()
                    &&& c@.config == self@
                    &&& c@.aments == aments_view(aments@)
                    &&& c@.build_script == initial_script(self.search_env, aments_view(aments@))
                    &&& sorted(c@.package_names)
                    &&& c@.package_names.to_multiset() == package_names(
                        all_packages(aments_view(aments@)),
                    ).to_multiset()
                },
                Err(e) => {
                    &&& !package_names(all_packages(aments_view(aments@))).no_duplicates()
                    &&& e@ is DuplicatePackage
                    &&& is_first_duplicate(
                        package_names(all_packages(aments_view(aments@))),
                        e@->DuplicatePackage_0,
                    )
                },
            },
    {
        let mut build_script: Vec<String> = Vec::new();
        assert(strings_view(build_script@) =~= Seq::empty());
        if self.search_env {
            build_script.push(String::from_str("cargo:rerun-if-env-changed=AMENT_PREFIX_PATH"));
            assert(strings_view(build_script@) =~= seq![
                "cargo:rerun-if-env-changed=AMENT_PREFIX_PATH"@,
            ]);
        }
        let packages = collect_packages(&aments);
        let mut names: Vec<String> = Vec::new();
        let mut i: usize = 0;
        while i < packages.len()
            invariant
                i <= packages.len(),
                names.len() == i,
                packages.len() == all_packages(aments_view(aments@)).len(),
                forall|k: int|
                    0 <= k < packages.len() ==> (#[trigger] packages@[k])@ == all_packages(
                        aments_view(aments@),
                    )[k],
                forall|k: int| 0 <= k < i ==> (#[trigger] names@[k])@ == packages@[k]@.name,
            decreases packages.len() - i,
        {
            names.push(packages[i].name.clone());
            i = i + 1;
        }
        assert(strings_view(names@) =~= package_names(all_packages(aments_view(aments@))));
        let package_names = match unique_sorted(names) {
            Ok(sorted_names) => sorted_names,
            Err(name) => {
                return Err(RclMsgError::DuplicatePackage(name));
            },
        };
        push_rerun_commands(&mut build_script, &aments);
        Ok(Compiler { config: self, build_script, package_names, aments })
    }

    /// Compiles the packages of the prefixes `aments`: starts the
    /// compilation, generates the bindings, and adds the commands that
    /// link the libraries of the packages.
    pub fn run(self, aments: Vec<AmentPrefix>) -> (r: Result<CompileOutput, RclMsgError>)
        ensures
            match r {
                Ok(out) => {
                    &&& package_names(all_packages(aments_view(aments@))).no_duplicates()
                    &&& sorted(out@.package_names)
                    &&& out@.package_names.to_multiset() == package_names(
                        all_packages(aments_view(aments@)),
                    ).to_multiset()
                    &&& out@.build_commands == initial_script(
                        self.search_env,
                        aments_view(aments@),
                    ) + rerun_commands(aments_view(aments@))
                        + crate::compiler::dynamic_link_commands(
                        self.link_rpath,
                        aments_view(aments@),
                    )
                    &&& out@.generated_rust_files == crate::compiler::generated_files(
                        self@,
                        aments_view(aments@),
                    )
                },
                Err(e) => {
                    &&& !package_names(all_packages(aments_view(aments@))).no_duplicates()
                    &&& e@ is DuplicatePackage
                    &&& is_first_duplicate(
                        package_names(all_packages(aments_view(aments@))),
                        e@->DuplicatePackage_0,
                    )
                },
            },
    {
        let mut compiler = self.build(aments)?;
        let generated_rust_files = compiler.codegen();
        compiler.dynamic_link();
        let Compiler { aments: _, config: _, build_script, package_names } = compiler;
        Ok(CompileOutput { package_names, build_commands: build_script, generated_rust_files })
    }
}

/// One more name in a list is one more name in its set.
pub proof fn lemma_names_push(list: Seq<String>, name: String)
    ensures
        names_of(list.push(name)) == names_of(list).insert(name@),
{
    let a = names_of(list.push(name));
    let b = names_of(list).insert(name@);
    assert forall|n: Seq<char>| a.contains(n) implies b.contains(n) by {
        let i = choose|i: int| 0 <= i < list.push(name).len() && (#[trigger] list.push(name)[i])@ == n;
        if i < list.len() {
            assert(list[i]@ == n);
        }
    }
    assert forall|n: Seq<char>| b.contains(n) implies a.contains(n) by {
        if n == name@ {
            assert(list.push(name)[list.len() as int]@ == n);
        } else {
            let i = choose|i: int| 0 <= i < list.len() && (#[trigger] list[i])@ == n;
            assert(list.push(name)[i]@ == n);
        }
    }
    assert(a =~= b);
}

} // verus!
