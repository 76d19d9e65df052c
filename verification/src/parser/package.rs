//! Packages: the index of the interface files of a package, the names
//! of the files that go with each interface, and the assembly of a
//! package from the text of its files.

use vstd::prelude::*;
use convert_case::Casing;
use crate::collect::{
    contains_name, lemma_try_collect_error, lemma_try_collect_step, names_of, try_collect,
};
use crate::parser::action::{action_of, parse_action_string};
use crate::parser::error::{RclMsgError, RclMsgErrorView};
use crate::parser::message::{message_of, parse_message_string};
use crate::parser::service::{parse_service_string, service_of};
use crate::text::{
    chars_eq, chars_of, find_char, find_from, joined, lemma_find_from_bounds,
    lemma_strings_view_push, slice_of, string_of,
};
use crate::types::package::{Library, LibraryView, Package, PackageView};

verus! {

/// The namespace of a definition in its package.
#[derive(Debug, Clone, Copy, PartialEq, Eq, Hash, Structural)]
pub enum Ns {
    Msg,
    Srv,
    Action,
}

impl Ns {
    /// The name of the namespace, which is also the extension of its
    /// files.
    pub open spec fn spec_name(self) -> Seq<char> {
        match self {
            Ns::Msg => "msg"@,
            Ns::Srv => "srv"@,
            Ns::Action => "action"@,
        }
    }

    /// The name of the namespace.
    pub fn name(self) -> (r: &'static str)
        ensures
            r@ == self.spec_name(),
    {
        match self {
            Ns::Msg => "msg",
            Ns::Srv => "srv",
            Ns::Action => "action",
        }
    }
}

/// The namespace that `s` names.
pub open spec fn ns_of(s: Seq<char>) -> Option<Ns> {
    if s == "msg"@ {
        Some(Ns::Msg)
    } else if s == "srv"@ {
        Some(Ns::Srv)
    } else if s == "action"@ {
        Some(Ns::Action)
    } else {
        None
    }
}

/// A line of the index of the interfaces of a package: the namespace
/// and the name of a definition file.
#[derive(Debug, Clone, PartialEq, Eq)]
pub struct IdlLine {
    pub ns: Ns,
    pub file_name: String,
}

/// The mathematical content of an [`IdlLine`].
pub struct IdlLineView {
    pub ns: Ns,
    pub file_name: Seq<char>,
}

impl View for IdlLine {
    type V = IdlLineView;

    open spec fn view(&self) -> IdlLineView {
        IdlLineView { ns: self.ns, file_name: self.file_name@ }
    }
}

/// The index of the last point of `s`, or -1 when `s` holds none.
pub open spec fn last_point(s: Seq<char>) -> int
    decreases s.len(),
{
    if s.len() == 0 {
        -1
    } else if s.last() == '.' {
        s.len() - 1
    } else {
        last_point(s.drop_last())
    }
}

impl IdlLineView {
    /// Whether the file name has an extension, set off by a point.
    pub open spec fn has_extension(self) -> bool {
        last_point(self.file_name) >= 0
    }

    /// The file name without its extension.
    pub open spec fn name(self) -> Seq<char> {
        self.file_name.subrange(0, last_point(self.file_name))
    }

    /// The path of the file below the share directory of an
    /// installation prefix: package, namespace and file name.
    pub open spec fn share_suffix(self, package: Seq<char>) -> Seq<char> {
        package + "/"@ + self.ns.spec_name() + "/"@ + self.file_name
    }
}

impl IdlLine {
    /// The name of the definition: the file name without its extension.
    pub fn name(&self) -> (r: &str)
        requires
            self@.has_extension(),
        ensures
            r@ == self@.name(),
    {
        let v = chars_of(self.file_name.as_str());
        let mut n: usize = v.len();
        assert(v@.subrange(0, n as int) =~= v@);
        while n > 0 && v[n - 1] != '.'
            invariant
                n <= v.len(),
                v@ == self.file_name@,
                last_point(v@) == last_point(v@.subrange(0, n as int)),
                last_point(v@) >= 0,
            decreases n,
        {
            assert(v@.subrange(0, n as int).drop_last() =~= v@.subrange(0, n - 1));
            n = n - 1;
        }
        self.file_name.as_str().substring_char(0, n - 1)
    }

    /// The path of the file below the share directory of an
    /// installation prefix.
    pub fn share_suffix(&self, pkg_name: &str) -> (r: String)
        ensures
            r@ == self@.share_suffix(pkg_name@),
    {
        let mut r = String::from_str(pkg_name);
        r.append("/");
        r.append(self.ns.name());
        r.append("/");
        r.append(self.file_name.as_str());
        r
    }
}

/// Whether `s` ends with `p`.
pub open spec fn has_suffix(s: Seq<char>, p: Seq<char>) -> bool {
    s.len() >= p.len() && s.subrange(s.len() - p.len(), s.len() as int) == p
}

/// What a line of the index of interfaces names.
///
/// A line that does not end with `.idl` names nothing. Any other line
/// is a namespace, a slash and a file name; it names the file of that
/// namespace whose name is the given one with the namespace in place of
/// the final `idl`.
pub open spec fn idl_line_of(line: Seq<char>) -> Result<Option<IdlLineView>, RclMsgErrorView> {
    let k = find_from(line, '/', 0);
    if !has_suffix(line, ".idl"@) {
        Ok(None)
    } else if k >= line.len() {
        Err(RclMsgErrorView::UnknownType(line))
    } else {
        match ns_of(line.subrange(0, k)) {
            Some(ns) => Ok(
                Some(
                    IdlLineView {
                        ns,
                        file_name: line.subrange(k + 1, line.len() - "idl"@.len())
                            + ns.spec_name(),
                    },
                ),
            ),
            None => Err(RclMsgErrorView::UnknownType(line)),
        }
    }
}

/// The content of the result of reading a line of the index.
pub open spec fn idl_line_result_view(r: Result<Option<IdlLine>, RclMsgError>) -> Result<
    Option<IdlLineView>,
    RclMsgErrorView,
> {
    match r {
        Ok(Some(l)) => Ok(Some(l@)),
        Ok(None) => Ok(None),
        Err(e) => Err(e@),
    }
}

/// Whether `v` ends with `p`.
fn ends_with(v: &Vec<char>, p: &str) -> (b: bool)
    ensures
        b == has_suffix(v@, p@),
{
    let n = p.unicode_len();
    if v.len() < n {
        return false;
    }
    let tail = slice_of(v, v.len() - n, v.len());
    chars_eq(&tail, p)
}

/// Reads a line of the index of the interfaces of a package.
pub fn parse_line(line: &str) -> (r: Result<Option<IdlLine>, RclMsgError>)
    ensures
        idl_line_result_view(r) == idl_line_of(line@),
        r is Ok && r->Ok_0 is Some ==> r->Ok_0->0@.has_extension(),
{
    let v = chars_of(line);
    let n = v.len();
    if !ends_with(&v, ".idl") {
        return Ok(None);
    }
    proof {
        reveal_strlit(".idl");
        reveal_strlit("idl");
        reveal_strlit("msg");
        reveal_strlit("srv");
        reveal_strlit("action");
    }
    let k = find_char(&v, '/', 0);
    if k >= n {
        return Err(RclMsgError::UnknownType(String::from_str(line)));
    }
    let head = slice_of(&v, 0, k);
    let ns = if chars_eq(&head, "msg") {
        Ns::Msg
    } else if chars_eq(&head, "srv") {
        Ns::Srv
    } else if chars_eq(&head, "action") {
        Ns::Action
    } else {
        return Err(RclMsgError::UnknownType(String::from_str(line)));
    };
    assert(v@.subrange(n - 4, n as int)[0] == '.');
    assert(k + 1 <= n - 4) by {
        lemma_find_from_bounds(v@, '/', 0);
        assert(v@[n - 4] == '.');
        assert(forall|j: int| 0 <= j < head@.len() ==> head@[j] != '.');
        if k > n - 4 {
            assert(head@[n - 4] == v@[n - 4]);
        }
    }
    let stem = string_of(&v, k + 1, n - 3);
    let file_name = stem.concat(ns.name());
    proof {
        let f = file_name@;
        let e = ns.spec_name();
        let p = f.len() - e.len() - 1;
        assert(f[p] == v@.subrange(n - 4, n as int)[0]);
        lemma_point_found(f, p);
    }
    Ok(Some(IdlLine { ns, file_name }))
}

/// Where `s` holds a point, a last point is found.
pub proof fn lemma_point_found(s: Seq<char>, i: int)
    requires
        0 <= i < s.len(),
        s[i] == '.',
    ensures
        last_point(s) >= i,
    decreases s.len(),
{
    if s.last() != '.' {
        lemma_point_found(s.drop_last(), i);
    }
}

/// The snake-case form of a name: what `convert_case` makes of the
/// name when it reads it as camel case, cuts it into words between a
/// lower-case and an upper-case letter, between a digit and an
/// upper-case letter and before the last letter of an acronym, and
/// writes the words in snake case.
pub uninterp spec fn snake_case_of(name: Seq<char>) -> Seq<char>;

/// Converts a name in camel case to snake case.
///
/// Trusted: the chain `Casing::from_case`, `StateConverter::with_boundaries`
/// and `StateConverter::to_case` of `convert_case` computes its result
/// from the characters of the name alone.
#[verifier::external_body]
fn to_snake_case(input: &str) -> (r: String)
    ensures
        r@ == snake_case_of(input@),
{
    input.from_case(convert_case::Case::Camel).with_boundaries(
        &[
            convert_case::Boundary::LowerUpper,
            convert_case::Boundary::DigitUpper,
            convert_case::Boundary::Acronym,
        ],
    ).to_case(convert_case::Case::Snake)
}

/// The snake-case form is a function of the name: names with the same
/// characters have the same snake-case form, whenever and wherever it
/// is computed.
pub proof fn lemma_snake_case_deterministic(a: Seq<char>, b: Seq<char>)
    requires
        a == b,
    ensures
        snake_case_of(a) == snake_case_of(b),
{
}

/// The snake-case form of the camel-case name `input`, by which the
/// files that go with a definition are named. The same name always has
/// the same snake-case form.
pub fn camel2snake(input: &str) -> (r: String)
    ensures
        r@ == snake_case_of(input@),
{
    to_snake_case(input)
}

/// A definition file: its line in the index of its package, and its
/// text.
#[derive(Debug, Clone, PartialEq, Eq)]
pub struct IdlFile {
    pub line: IdlLine,
    pub text: String,
}

/// The mathematical content of an [`IdlFile`].
pub struct IdlFileView {
    pub line: IdlLineView,
    pub text: Seq<char>,
}

impl View for IdlFile {
    type V = IdlFileView;

    open spec fn view(&self) -> IdlFileView {
        IdlFileView { line: self.line@, text: self.text@ }
    }
}

/// The contents of a sequence of definition files.
pub open spec fn files_view(v: Seq<IdlFile>) -> Seq<IdlFileView> {
    Seq::new(v.len(), |i: int| v[i]@)
}

/// An error in a definition file: the path of the file below the share
/// directory, and what is wrong in it.
#[derive(Debug, Clone, PartialEq, Eq)]
pub struct FileError {
    pub file: String,
    pub error: RclMsgError,
}

/// The mathematical content of a [`FileError`].
pub struct FileErrorView {
    pub file: Seq<char>,
    pub error: RclMsgErrorView,
}

impl View for FileError {
    type V = FileErrorView;

    open spec fn view(&self) -> FileErrorView {
        FileErrorView { file: self.file@, error: self.error@ }
    }
}

impl FileErrorView {
    /// The message of the error for the user: the file, and what is
    /// wrong in it.
    pub open spec fn message(self) -> Seq<char> {
        "unable to parse file '"@ + self.file + "': "@ + self.error.message()
    }
}

impl FileError {
    /// The message of the error for the user.
    pub fn message(&self) -> (r: String)
        ensures
            r@ == self@.message(),
    {
        let mut r = String::from_str("unable to parse file '");
        r.append(self.file.as_str());
        r.append("': ");
        r.append(self.error.message().as_str());
        r
    }
}

/// A library of the package `package` that is named with `ending` and
/// built from no file yet.
pub open spec fn empty_library(package: Seq<char>, ending: Seq<char>) -> LibraryView {
    LibraryView {
        library_name: package + ending,
        include_suffixes: Seq::empty(),
        source_suffixes: Seq::empty(),
    }
}

/// The package `name` without definitions. Its libraries are named
/// `{name}__rosidl_generator_c` and `{name}__rosidl_typesupport_c`.
pub open spec fn empty_package(name: Seq<char>) -> PackageView {
    PackageView {
        name,
        msgs: Seq::empty(),
        srvs: Seq::empty(),
        actions: Seq::empty(),
        share_suffixes: Seq::empty(),
        rosidl_generator_c_lib: empty_library(name, "__rosidl_generator_c"@),
        rosidl_typesupport_c_lib: empty_library(name, "__rosidl_typesupport_c"@),
    }
}

/// The path of a file that goes with a definition: in the directory
/// `detail` of the namespace of the package, the snake-case name of the
/// definition and an ending.
pub open spec fn detail_file(package: Seq<char>, ns: Ns, snake: Seq<char>, ending: Seq<char>)
    -> Seq<char> {
    package + "/"@ + ns.spec_name() + "/detail/"@ + snake + ending
}

/// The package `p` with the files that go with one more definition: the
/// definition file itself among the shared files, two headers and a
/// source file in the generator library, and a header and a source file
/// in the type support library.
pub open spec fn with_support_files(
    p: PackageView,
    ns: Ns,
    file_name: Seq<char>,
    snake: Seq<char>,
) -> PackageView {
    PackageView {
        share_suffixes: p.share_suffixes.push(p.name + "/"@ + ns.spec_name() + "/"@ + file_name),
        rosidl_generator_c_lib: LibraryView {
            library_name: p.rosidl_generator_c_lib.library_name,
            include_suffixes: p.rosidl_generator_c_lib.include_suffixes.push(
                detail_file(p.name, ns, snake, "__struct.h"@),
            ).push(detail_file(p.name, ns, snake, "__functions.h"@)),
            source_suffixes: p.rosidl_generator_c_lib.source_suffixes.push(
                detail_file(p.name, ns, snake, "__functions.c"@),
            ),
        },
        rosidl_typesupport_c_lib: LibraryView {
            library_name: p.rosidl_typesupport_c_lib.library_name,
            include_suffixes: p.rosidl_typesupport_c_lib.include_suffixes.push(
                detail_file(p.name, ns, snake, "__type_support.h"@),
            ),
            source_suffixes: p.rosidl_typesupport_c_lib.source_suffixes.push(
                detail_file(p.name, ns, snake, "__type_support.c"@),
            ),
        },
        ..p
    }
}

/// The package `p` with the definition of the file `f`, which is named
/// by the name of the file without its extension, and with the files
/// that go with it; or the error of the file.
pub open spec fn add_file(p: PackageView, f: IdlFileView) -> Result<PackageView, FileErrorView> {
    let name = f.line.name();
    let q = with_support_files(p, f.line.ns, f.line.file_name, snake_case_of(name));
    let file = f.line.share_suffix(p.name);
    match f.line.ns {
        Ns::Msg => match message_of(p.name, name, f.text) {
            Ok(m) => Ok(PackageView { msgs: q.msgs.push(m), ..q }),
            Err(error) => Err(FileErrorView { file, error }),
        },
        Ns::Srv => match service_of(p.name, name, f.text) {
            Ok(m) => Ok(PackageView { srvs: q.srvs.push(m), ..q }),
            Err(error) => Err(FileErrorView { file, error }),
        },
        Ns::Action => match action_of(p.name, name, f.text) {
            Ok(m) => Ok(PackageView { actions: q.actions.push(m), ..q }),
            Err(error) => Err(FileErrorView { file, error }),
        },
    }
}

/// The package `name` with the definitions of `files`, in the order of
/// the files, or the error of the first file that has one.
pub open spec fn package_of(name: Seq<char>, files: Seq<IdlFileView>) -> Result<
    PackageView,
    FileErrorView,
>
    decreases files.len(),
{
    if files.len() == 0 {
        Ok(empty_package(name))
    } else {
        match package_of(name, files.drop_last()) {
            Ok(p) => add_file(p, files.last()),
            Err(e) => Err(e),
        }
    }
}

/// An error among the first `k` files is the error of all the files.
pub proof fn lemma_first_file_error(name: Seq<char>, files: Seq<IdlFileView>, k: int)
    requires
        0 <= k <= files.len(),
        package_of(name, files.subrange(0, k)) is Err,
    ensures
        package_of(name, files) == package_of(name, files.subrange(0, k)),
    decreases files.len() - k,
{
    if k == files.len() {
        assert(files.subrange(0, k) =~= files);
    } else {
        assert(files.subrange(0, k + 1).drop_last() =~= files.subrange(0, k));
        lemma_first_file_error(name, files, k + 1);
    }
}

/// The content of the result of assembling a package.
pub open spec fn package_result_view(r: Result<Package, FileError>) -> Result<
    PackageView,
    FileErrorView,
> {
    match r {
        Ok(p) => Ok(p@),
        Err(e) => Err(e@),
    }
}

/// The path of a file that goes with a definition.
pub fn detail_file_name(pkg_name: &str, ns: Ns, snake_name: &str, ending: &str) -> (r: String)
    ensures
        r@ == detail_file(pkg_name@, ns, snake_name@, ending@),
{
    let mut r = String::from_str(pkg_name);
    r.append("/");
    r.append(ns.name());
    r.append("/detail/");
    r.append(snake_name);
    r.append(ending);
    r
}

/// The package named `name` without definitions.
pub fn new_package(name: &str) -> (r: Package)
    ensures
        r@ == empty_package(name@),
{
    let r = Package {
        name: String::from_str(name),
        msgs: Vec::new(),
        srvs: Vec::new(),
        actions: Vec::new(),
        share_suffixes: Vec::new(),
        rosidl_generator_c_lib: Library {
            library_name: joined(name, "__rosidl_generator_c"),
            include_suffixes: Vec::new(),
            source_suffixes: Vec::new(),
        },
        rosidl_typesupport_c_lib: Library {
            library_name: joined(name, "__rosidl_typesupport_c"),
            include_suffixes: Vec::new(),
            source_suffixes: Vec::new(),
        },
    };
    assert(r@.msgs =~= Seq::empty());
    assert(r@.srvs =~= Seq::empty());
    assert(r@.actions =~= Seq::empty());
    assert(r@.share_suffixes =~= Seq::empty());
    assert(r@.rosidl_generator_c_lib.include_suffixes =~= Seq::empty());
    assert(r@.rosidl_generator_c_lib.source_suffixes =~= Seq::empty());
    assert(r@.rosidl_typesupport_c_lib.include_suffixes =~= Seq::empty());
    assert(r@.rosidl_typesupport_c_lib.source_suffixes =~= Seq::empty());
    r
}

/// Adds to `package` the files that go with the definition in the file
/// `file_name` of the namespace `ns`, whose snake-case name is
/// `snake_name`.
pub fn add_support_files(package: Package, ns: Ns, file_name: &str, snake_name: &str) -> (r:
    Package)
    ensures
        r@ == with_support_files(package@, ns, file_name@, snake_name@),
{
    let ghost old_view = package@;
    let Package {
        name,
        msgs,
        srvs,
        actions,
        mut share_suffixes,
        rosidl_generator_c_lib,
        rosidl_typesupport_c_lib,
    } = package;
    let Library {
        library_name: generator_name,
        include_suffixes: mut generator_includes,
        source_suffixes: mut generator_sources,
    } = rosidl_generator_c_lib;
    let Library {
        library_name: typesupport_name,
        include_suffixes: mut typesupport_includes,
        source_suffixes: mut typesupport_sources,
    } = rosidl_typesupport_c_lib;
    let pkg = name.as_str();
    let mut share = String::from_str(pkg);
    share.append("/");
    share.append(ns.name());
    share.append("/");
    share.append(file_name);
    proof {
        lemma_strings_view_push(share_suffixes@, share);
    }
    share_suffixes.push(share);
    let f1 = detail_file_name(pkg, ns, snake_name, "__struct.h");
    let f2 = detail_file_name(pkg, ns, snake_name, "__functions.h");
    let f3 = detail_file_name(pkg, ns, snake_name, "__functions.c");
    let f4 = detail_file_name(pkg, ns, snake_name, "__type_support.h");
    let f5 = detail_file_name(pkg, ns, snake_name, "__type_support.c");
    proof {
        lemma_strings_view_push(generator_includes@, f1);
        lemma_strings_view_push(generator_includes@.push(f1), f2);
        lemma_strings_view_push(generator_sources@, f3);
        lemma_strings_view_push(typesupport_includes@, f4);
        lemma_strings_view_push(typesupport_sources@, f5);
    }
    generator_includes.push(f1);
    generator_includes.push(f2);
    generator_sources.push(f3);
    typesupport_includes.push(f4);
    typesupport_sources.push(f5);
    Package {
        name,
        msgs,
        srvs,
        actions,
        share_suffixes,
        rosidl_generator_c_lib: Library {
            library_name: generator_name,
            include_suffixes: generator_includes,
            source_suffixes: generator_sources,
        },
        rosidl_typesupport_c_lib: Library {
            library_name: typesupport_name,
            include_suffixes: typesupport_includes,
            source_suffixes: typesupport_sources,
        },
    }
}

/// Adds to `package` the definition of the file `file` and the files
/// that go with it.
pub fn add_definition(package: Package, file: &IdlFile) -> (r: Result<Package, FileError>)
    requires
        file.line@.has_extension(),
    ensures
        package_result_view(r) == add_file(package@, file@),
{
    let name = file.line.name();
    let snake_name = camel2snake(name);
    let share = file.line.share_suffix(package.name.as_str());
    let q = add_support_files(
        package,
        file.line.ns,
        file.line.file_name.as_str(),
        snake_name.as_str(),
    );
    let Package {
        name: pkg_name,
        mut msgs,
        mut srvs,
        mut actions,
        share_suffixes,
        rosidl_generator_c_lib,
        rosidl_typesupport_c_lib,
    } = q;
    match file.line.ns {
        Ns::Msg => match parse_message_string(pkg_name.as_str(), name, file.text.as_str()) {
            Ok(m) => {
                msgs.push(m);
            },
            Err(error) => {
                return Err(FileError { file: share, error });
            },
        },
        Ns::Srv => match parse_service_string(pkg_name.as_str(), name, file.text.as_str()) {
            Ok(m) => {
                srvs.push(m);
            },
            Err(error) => {
                return Err(FileError { file: share, error });
            },
        },
        Ns::Action => match parse_action_string(pkg_name.as_str(), name, file.text.as_str()) {
            Ok(m) => {
                actions.push(m);
            },
            Err(error) => {
                return Err(FileError { file: share, error });
            },
        },
    }
    let r = Package {
        name: pkg_name,
        msgs,
        srvs,
        actions,
        share_suffixes,
        rosidl_generator_c_lib,
        rosidl_typesupport_c_lib,
    };
    proof {
        let expected = add_file(package@, file@)->Ok_0;
        assert(r@.msgs =~= expected.msgs);
        assert(r@.srvs =~= expected.srvs);
        assert(r@.actions =~= expected.actions);
    }
    Ok(r)
}

/// Assembles the package named `pkg_name` from its definition files.
///
/// The definitions of each namespace stand in the order of their
/// files. The first file that does not parse gives the error.
pub fn build_package(pkg_name: &str, files: &Vec<IdlFile>) -> (r: Result<Package, FileError>)
    requires
        forall|i: int| 0 <= i < files.len() ==> (#[trigger] files@[i]).line@.has_extension(),
    ensures
        package_result_view(r) == package_of(pkg_name@, files_view(files@)),
{
    let ghost all = files_view(files@);
    let mut package = new_package(pkg_name);
    let mut i: usize = 0;
    assert(all.subrange(0, 0) =~= Seq::empty());
    while i < files.len()
        invariant
            i <= files.len(),
            all == files_view(files@),
            forall|i: int| 0 <= i < files.len() ==> (#[trigger] files@[i]).line@.has_extension(),
            package_of(pkg_name@, all.subrange(0, i as int)) == Ok::<PackageView, FileErrorView>(
                package@,
            ),
        decreases files.len() - i,
    {
        proof {
            let next = all.subrange(0, i + 1);
            assert(next.drop_last() =~= all.subrange(0, i as int));
            assert(next.last() == files@[i as int]@);
        }
        match add_definition(package, &files[i]) {
            Ok(p) => {
                package = p;
            },
            Err(e) => {
                proof {
                    lemma_first_file_error(pkg_name@, all, i + 1);
                }
                return Err(e);
            },
        }
        i = i + 1;
    }
    assert(all.subrange(0, files.len() as int) =~= all);
    Ok(package)
}

/// The index of the interfaces of a package as it is read: the name of
/// the package and the lines of its index.
#[derive(Debug, Clone, PartialEq, Eq)]
pub struct IndexFile {
    pub pkg_name: String,
    pub lines: Vec<String>,
}

/// The index of the interfaces of a package: the name of the package
/// and what each line of its index names.
#[derive(Debug, Clone, PartialEq, Eq)]
pub struct IdlPackage {
    pub pkg_name: String,
    pub lines: Vec<IdlLine>,
}

/// The mathematical content of an [`IdlPackage`].
pub struct IdlPackageView {
    pub pkg_name: Seq<char>,
    pub lines: Seq<IdlLineView>,
}

/// The contents of a sequence of index lines.
pub open spec fn lines_view(v: Seq<IdlLine>) -> Seq<IdlLineView> {
    Seq::new(v.len(), |i: int| v[i]@)
}

impl View for IdlPackage {
    type V = IdlPackageView;

    open spec fn view(&self) -> IdlPackageView {
        IdlPackageView { pkg_name: self.pkg_name@, lines: lines_view(self.lines@) }
    }
}

impl IdlPackage {
    /// Every line names a file with an extension.
    pub open spec fn well_formed(&self) -> bool {
        forall|i: int| 0 <= i < self.lines.len() ==> (#[trigger] self.lines@[i])@.has_extension()
    }
}

/// What the lines of an index name, in the order of the lines and
/// without the lines that name nothing, or the error of the first line
/// that has one.
pub open spec fn idl_lines_of(lines: Seq<String>) -> Result<Seq<IdlLineView>, RclMsgErrorView> {
    try_collect(lines, |line: String| idl_line_of(line@))
}

/// Reads the index of the interfaces of the package `pkg_name`.
pub fn index_package(pkg_name: &str, lines: &Vec<String>) -> (r: Result<IdlPackage, RclMsgError>)
    ensures
        match r {
            Ok(p) => idl_lines_of(lines@) == Ok::<Seq<IdlLineView>, RclMsgErrorView>(p@.lines)
                && p@.pkg_name == pkg_name@ && p.well_formed(),
            Err(e) => idl_lines_of(lines@) == Err::<Seq<IdlLineView>, RclMsgErrorView>(e@),
        },
{
    let ghost f = |line: String| idl_line_of(line@);
    let mut out: Vec<IdlLine> = Vec::new();
    let mut i: usize = 0;
    assert(lines@.subrange(0, 0) =~= Seq::empty());
    assert(lines_view(out@) =~= Seq::empty());
    while i < lines.len()
        invariant
            i <= lines.len(),
            f == |line: String| idl_line_of(line@),
            try_collect(lines@.subrange(0, i as int), f) == Ok::<
                Seq<IdlLineView>,
                RclMsgErrorView,
            >(lines_view(out@)),
            forall|k: int| 0 <= k < out.len() ==> (#[trigger] out@[k])@.has_extension(),
        decreases lines.len() - i,
    {
        proof {
            lemma_try_collect_step(lines@, f, i as int);
        }
        match parse_line(lines[i].as_str()) {
            Ok(Some(line)) => {
                assert(lines_view(out@.push(line)) =~= lines_view(out@).push(line@));
                out.push(line);
            },
            Ok(None) => {},
            Err(e) => {
                proof {
                    lemma_try_collect_error(lines@, f, i + 1);
                }
                return Err(e);
            },
        }
        i = i + 1;
    }
    assert(lines@.subrange(0, lines.len() as int) =~= lines@);
    Ok(IdlPackage { pkg_name: String::from_str(pkg_name), lines: out })
}

/// Reads the indexes of the interfaces of the packages of an
/// installation prefix, one for each index file and in their order. The
/// first line that names a file of no known kind gives the error.
pub fn load_rosidl_interfaces(files: &Vec<IndexFile>) -> (r: Result<Vec<IdlPackage>, RclMsgError>)
    ensures
        match r {
            Ok(ps) => ps.len() == files.len() && forall|i: int|
                0 <= i < ps.len() ==> (#[trigger] ps@[i])@.pkg_name == files@[i].pkg_name@
                    && idl_lines_of(files@[i].lines@) == Ok::<Seq<IdlLineView>, RclMsgErrorView>(
                    ps@[i]@.lines,
                ) && ps@[i].well_formed(),
            Err(e) => exists|i: int|
                0 <= i < files.len() && idl_lines_of(#[trigger] files@[i].lines@) == Err::<
                    Seq<IdlLineView>,
                    RclMsgErrorView,
                >(e@) && forall|k: int| 0 <= k < i ==> idl_lines_of(files@[k].lines@) is Ok,
        },
{
    let mut out: Vec<IdlPackage> = Vec::new();
    let mut i: usize = 0;
    while i < files.len()
        invariant
            i <= files.len(),
            out.len() == i,
            forall|k: int|
                0 <= k < i ==> (#[trigger] out@[k])@.pkg_name == files@[k].pkg_name@
                    && idl_lines_of(files@[k].lines@) == Ok::<Seq<IdlLineView>, RclMsgErrorView>(
                    out@[k]@.lines,
                ) && out@[k].well_formed(),
        decreases files.len() - i,
    {
        match index_package(files[i].pkg_name.as_str(), &files[i].lines) {
            Ok(p) => {
                out.push(p);
            },
            Err(e) => {
                assert(idl_lines_of(files@[i as int].lines@) == Err::<
                    Seq<IdlLineView>,
                    RclMsgErrorView,
                >(e@));
                assert(forall|k: int| 0 <= k < i ==> idl_lines_of(files@[k].lines@) is Ok) by {
                    assert forall|k: int| 0 <= k < i implies idl_lines_of(files@[k].lines@) is Ok by {
                        assert(out@[k]@.pkg_name == files@[k].pkg_name@);
                    }
                }
                return Err(e);
            },
        }
        i = i + 1;
    }
    Ok(out)
}

/// The definition files of a package, with its name.
#[derive(Debug, Clone, PartialEq, Eq)]
pub struct PackageSource {
    pub pkg_name: String,
    pub files: Vec<IdlFile>,
}

/// The mathematical content of a [`PackageSource`].
pub struct PackageSourceView {
    pub pkg_name: Seq<char>,
    pub files: Seq<IdlFileView>,
}

impl View for PackageSource {
    type V = PackageSourceView;

    open spec fn view(&self) -> PackageSourceView {
        PackageSourceView { pkg_name: self.pkg_name@, files: files_view(self.files@) }
    }
}

impl PackageSource {
    /// Every file has a name with an extension.
    pub open spec fn well_formed(&self) -> bool {
        forall|i: int|
            0 <= i < self.files.len() ==> (#[trigger] self.files@[i]).line@.has_extension()
    }
}

/// The contents of a sequence of packages.
pub open spec fn packages_view(v: Seq<Package>) -> Seq<PackageView> {
    Seq::new(v.len(), |i: int| v[i]@)
}

/// The packages of an installation prefix, with the directories of the
/// prefix that the build needs.
#[derive(Debug, Clone, PartialEq, Eq)]
pub struct AmentPrefix {
    pub packages: Vec<Package>,
    pub resource_dir: String,
    pub lib_dir: String,
    pub include_dir: String,
}

/// The mathematical content of an [`AmentPrefix`].
pub struct AmentPrefixView {
    pub packages: Seq<PackageView>,
    pub resource_dir: Seq<char>,
    pub lib_dir: Seq<char>,
    pub include_dir: Seq<char>,
}

impl View for AmentPrefix {
    type V = AmentPrefixView;

    open spec fn view(&self) -> AmentPrefixView {
        AmentPrefixView {
            packages: packages_view(self.packages@),
            resource_dir: self.resource_dir@,
            lib_dir: self.lib_dir@,
            include_dir: self.include_dir@,
        }
    }
}

/// What the source `s` gives to a prefix from which the packages
/// `excluded` are left out: nothing if its package is excluded, else
/// the package assembled from its files, or the error of a file.
pub open spec fn source_package(excluded: Set<Seq<char>>, s: PackageSourceView) -> Result<
    Option<PackageView>,
    FileErrorView,
> {
    if excluded.contains(s.pkg_name) {
        Ok(None)
    } else {
        match package_of(s.pkg_name, s.files) {
            Ok(p) => Ok(Some(p)),
            Err(e) => Err(e),
        }
    }
}

/// The installation prefix at `root_dir` with the packages of
/// `sources` that are not excluded, in the order of the sources, or the
/// error of the first file that has one. The index of interfaces is the
/// directory `share/ament_index/resource_index/rosidl_interfaces` of
/// the prefix; libraries are in `lib`, headers in `include`.
pub open spec fn prefix_of(
    root_dir: Seq<char>,
    sources: Seq<PackageSource>,
    excluded: Set<Seq<char>>,
) -> Result<AmentPrefixView, FileErrorView> {
    match try_collect(sources, |s: PackageSource| source_package(excluded, s@)) {
        Ok(packages) => Ok(
            AmentPrefixView {
                packages,
                resource_dir: root_dir + "/share/ament_index/resource_index/rosidl_interfaces"@,
                lib_dir: root_dir + "/lib"@,
                include_dir: root_dir + "/include"@,
            },
        ),
        Err(e) => Err(e),
    }
}

impl AmentPrefix {
    /// Assembles the packages of the installation prefix at `root_dir`
    /// from the text of their definition files, leaving out the packages
    /// named in `exclude_packages`.
    pub fn load(root_dir: &str, sources: &Vec<PackageSource>, exclude_packages: &Vec<String>) -> (r:
        Result<AmentPrefix, FileError>)
        requires
            forall|i: int| 0 <= i < sources.len() ==> (#[trigger] sources@[i]).well_formed(),
        ensures
            match r {
                Ok(p) => prefix_of(root_dir@, sources@, names_of(exclude_packages@)) == Ok::<
                    AmentPrefixView,
                    FileErrorView,
                >(p@),
                Err(e) => prefix_of(root_dir@, sources@, names_of(exclude_packages@)) == Err::<
                    AmentPrefixView,
                    FileErrorView,
                >(e@),
            },
    {
        let ghost excluded = names_of(exclude_packages@);
        let ghost f = |s: PackageSource| source_package(excluded, s@);
        let mut packages: Vec<Package> = Vec::new();
        let mut i: usize = 0;
        assert(sources@.subrange(0, 0) =~= Seq::empty());
        assert(packages_view(packages@) =~= Seq::empty());
        while i < sources.len()
            invariant
                i <= sources.len(),
                excluded == names_of(exclude_packages@),
                f == |s: PackageSource| source_package(excluded, s@),
                forall|i: int| 0 <= i < sources.len() ==> (#[trigger] sources@[i]).well_formed(),
                try_collect(sources@.subrange(0, i as int), f) == Ok::<
                    Seq<PackageView>,
                    FileErrorView,
                >(packages_view(packages@)),
            decreases sources.len() - i,
        {
            proof {
                lemma_try_collect_step(sources@, f, i as int);
            }
            let source = &sources[i];
            if !contains_name(exclude_packages, source.pkg_name.as_str()) {
                match build_package(source.pkg_name.as_str(), &source.files) {
                    Ok(p) => {
                        assert(packages_view(packages@.push(p)) =~= packages_view(packages@).push(
                            p@,
                        ));
                        packages.push(p);
                    },
                    Err(e) => {
                        proof {
                            lemma_try_collect_error(sources@, f, i + 1);
                        }
                        return Err(e);
                    },
                }
            }
            i = i + 1;
        }
        assert(sources@.subrange(0, sources.len() as int) =~= sources@);
        Ok(
            AmentPrefix {
                packages,
                resource_dir: joined(
                    root_dir,
                    "/share/ament_index/resource_index/rosidl_interfaces",
                ),
                lib_dir: joined(root_dir, "/lib"),
                include_dir: joined(root_dir, "/include"),
            },
        )
    }
}

/// The package of a directory of definition files.
#[derive(Debug, Clone, PartialEq, Eq)]
pub struct PackageDir {
    pub packages: Package,
}

impl PackageDir {
    /// Assembles the package of the directory named `dir_name` from the
    /// text of its definition files. The package is named as the
    /// directory.
    pub fn load(dir_name: &str, files: &Vec<IdlFile>) -> (r: Result<PackageDir, FileError>)
        requires
            forall|i: int| 0 <= i < files.len() ==> (#[trigger] files@[i]).line@.has_extension(),
        ensures
            match r {
                Ok(d) => package_of(dir_name@, files_view(files@)) == Ok::<
                    PackageView,
                    FileErrorView,
                >(d.packages@),
                Err(e) => package_of(dir_name@, files_view(files@)) == Err::<
                    PackageView,
                    FileErrorView,
                >(e@),
            },
    {
        match build_package(dir_name, files) {
            Ok(packages) => Ok(PackageDir { packages }),
            Err(e) => Err(e),
        }
    }
}

} // verus!
