//! Paths that select definitions, and a tree that holds a value for
//! each path.
//!
//! A path is a package, a kind and a name with slashes between them.
//! Each may be a star, which selects all: `*/*/*` selects every
//! definition, `pkg/*/*` those of a package, `pkg/msg/*` the messages of
//! a package, and `pkg/msg/Name` one message.

use vstd::prelude::*;
use crate::parser::error::{RclMsgError, RclMsgErrorView};
use crate::text::{
    chars_eq, chars_of, digit, find_char, find_from, is_digit, is_lower, is_upper, lower, slice_of,
    string_of_all, upper,
};

verus! {

/// The kind of a definition.
#[derive(Debug, Clone, Copy, PartialEq, Eq, Hash, Structural)]
pub enum MsgKind {
    Msg,
    Srv,
    Action,
}

/// A path that selects definitions.
#[derive(Debug, Clone, PartialEq, Eq, Hash)]
pub enum MsgPath {
    Wild,
    PkgWild { pkg: String },
    PkgMsgWild { pkg: String },
    PkgMsgMsg { pkg: String, msg: String },
    PkgSrvWild { pkg: String },
    PkgSrvMsg { pkg: String, srv: String },
    PkgActionWild { pkg: String },
    PkgActionMsg { pkg: String, action: String },
}

/// The mathematical content of a [`MsgPath`].
pub enum MsgPathView {
    Wild,
    PkgWild { pkg: Seq<char> },
    PkgMsgWild { pkg: Seq<char> },
    PkgMsgMsg { pkg: Seq<char>, msg: Seq<char> },
    PkgSrvWild { pkg: Seq<char> },
    PkgSrvMsg { pkg: Seq<char>, srv: Seq<char> },
    PkgActionWild { pkg: Seq<char> },
    PkgActionMsg { pkg: Seq<char>, action: Seq<char> },
}

impl View for MsgPath {
    type V = MsgPathView;

    open spec fn view(&self) -> MsgPathView {
        match self {
            MsgPath::Wild => MsgPathView::Wild,
            MsgPath::PkgWild { pkg } => MsgPathView::PkgWild { pkg: pkg@ },
            MsgPath::PkgMsgWild { pkg } => MsgPathView::PkgMsgWild { pkg: pkg@ },
            MsgPath::PkgMsgMsg { pkg, msg } => MsgPathView::PkgMsgMsg { pkg: pkg@, msg: msg@ },
            MsgPath::PkgSrvWild { pkg } => MsgPathView::PkgSrvWild { pkg: pkg@ },
            MsgPath::PkgSrvMsg { pkg, srv } => MsgPathView::PkgSrvMsg { pkg: pkg@, srv: srv@ },
            MsgPath::PkgActionWild { pkg } => MsgPathView::PkgActionWild { pkg: pkg@ },
            MsgPath::PkgActionMsg { pkg, action } => MsgPathView::PkgActionMsg {
                pkg: pkg@,
                action: action@,
            },
        }
    }
}

/// An ASCII letter or digit.
pub open spec fn is_alphanumeric(c: char) -> bool {
    is_lower(c) || is_upper(c) || is_digit(c)
}

/// Whether `s` holds only ASCII letters and digits.
pub open spec fn is_package_token(s: Seq<char>) -> bool {
    forall|i: int| 0 <= i < s.len() ==> is_alphanumeric(#[trigger] s[i])
}

/// Whether `s` holds only ASCII letters, digits and underscores.
pub open spec fn is_name_token(s: Seq<char>) -> bool {
    forall|i: int| 0 <= i < s.len() ==> is_alphanumeric(#[trigger] s[i]) || s[i] == '_'
}

/// The kind that `s` names.
pub open spec fn kind_of(s: Seq<char>) -> Option<MsgKind> {
    if s == "msg"@ {
        Some(MsgKind::Msg)
    } else if s == "srv"@ {
        Some(MsgKind::Srv)
    } else if s == "action"@ {
        Some(MsgKind::Action)
    } else {
        None
    }
}

/// The path of the names of one kind in the package `pkg`, or of the
/// name `name` of that kind.
pub open spec fn kind_path(kind: MsgKind, pkg: Seq<char>, name: Option<Seq<char>>) -> MsgPathView {
    match (kind, name) {
        (MsgKind::Msg, None) => MsgPathView::PkgMsgWild { pkg },
        (MsgKind::Msg, Some(msg)) => MsgPathView::PkgMsgMsg { pkg, msg },
        (MsgKind::Srv, None) => MsgPathView::PkgSrvWild { pkg },
        (MsgKind::Srv, Some(srv)) => MsgPathView::PkgSrvMsg { pkg, srv },
        (MsgKind::Action, None) => MsgPathView::PkgActionWild { pkg },
        (MsgKind::Action, Some(action)) => MsgPathView::PkgActionMsg { pkg, action },
    }
}

/// The path that the three tokens `pkg`, `kind` and `msg` make.
///
/// The package is a star or letters and digits; the kind a star, `msg`,
/// `srv` or `action`; the name a star or letters, digits and
/// underscores. A star for the package goes only with stars for kind
/// and name, and a star for the kind only with a star for the name.
pub open spec fn path_of_tokens(pkg: Seq<char>, kind: Seq<char>, msg: Seq<char>) -> Option<
    MsgPathView,
> {
    let star = "*"@;
    if pkg != star && !is_package_token(pkg) {
        None
    } else if kind != star && kind_of(kind) is None {
        None
    } else if msg != star && !is_name_token(msg) {
        None
    } else if pkg == star {
        if kind == star && msg == star {
            Some(MsgPathView::Wild)
        } else {
            None
        }
    } else if kind == star {
        if msg == star {
            Some(MsgPathView::PkgWild { pkg })
        } else {
            None
        }
    } else {
        Some(
            kind_path(
                kind_of(kind)->0,
                pkg,
                if msg == star {
                    None
                } else {
                    Some(msg)
                },
            ),
        )
    }
}

/// The path that `text` denotes: three tokens with a slash between one
/// and the next.
pub open spec fn msg_path_of(text: Seq<char>) -> Option<MsgPathView> {
    let k1 = find_from(text, '/', 0);
    let k2 = find_from(text, '/', k1 + 1);
    if k1 >= text.len() || k2 >= text.len() || find_from(text, '/', k2 + 1) < text.len() {
        None
    } else {
        path_of_tokens(
            text.subrange(0, k1),
            text.subrange(k1 + 1, k2),
            text.subrange(k2 + 1, text.len() as int),
        )
    }
}

/// Whether `v` holds only ASCII letters and digits, and underscores if
/// `underscores` is set.
fn token(v: &Vec<char>, underscores: bool) -> (b: bool)
    ensures
        b == if underscores {
            is_name_token(v@)
        } else {
            is_package_token(v@)
        },
{
    let mut i: usize = 0;
    while i < v.len()
        invariant
            i <= v.len(),
            forall|k: int|
                0 <= k < i ==> is_alphanumeric(#[trigger] v@[k]) || (underscores && v@[k] == '_'),
        decreases v.len() - i,
    {
        let c = v[i];
        if !(lower(c) || upper(c) || digit(c) || (underscores && c == '_')) {
            return false;
        }
        i = i + 1;
    }
    true
}

impl MsgPath {
    /// Reads `text` as a path.
    pub fn parse(text: &str) -> (r: Result<MsgPath, RclMsgError>)
        ensures
            match r {
                Ok(p) => msg_path_of(text@) == Some(p@),
                Err(e) => msg_path_of(text@) is None && e@ == RclMsgErrorView::InvalidMsgPath(
                    text@,
                ),
            },
    {
        let v = chars_of(text);
        let n = v.len();
        let k1 = find_char(&v, '/', 0);
        if k1 >= n {
            return Err(RclMsgError::InvalidMsgPath(String::from_str(text)));
        }
        let k2 = find_char(&v, '/', k1 + 1);
        if k2 >= n {
            return Err(RclMsgError::InvalidMsgPath(String::from_str(text)));
        }
        if find_char(&v, '/', k2 + 1) < n {
            return Err(RclMsgError::InvalidMsgPath(String::from_str(text)));
        }
        let pkg = slice_of(&v, 0, k1);
        let kind = slice_of(&v, k1 + 1, k2);
        let msg = slice_of(&v, k2 + 1, n);
        let pkg_star = chars_eq(&pkg, "*");
        let kind_star = chars_eq(&kind, "*");
        let msg_star = chars_eq(&msg, "*");
        if !pkg_star && !token(&pkg, false) {
            return Err(RclMsgError::InvalidMsgPath(String::from_str(text)));
        }
        let kind_found = if chars_eq(&kind, "msg") {
            Some(MsgKind::Msg)
        } else if chars_eq(&kind, "srv") {
            Some(MsgKind::Srv)
        } else if chars_eq(&kind, "action") {
            Some(MsgKind::Action)
        } else {
            None
        };
        if !kind_star && kind_found.is_none() {
            return Err(RclMsgError::InvalidMsgPath(String::from_str(text)));
        }
        if !msg_star && !token(&msg, true) {
            return Err(RclMsgError::InvalidMsgPath(String::from_str(text)));
        }
        if pkg_star {
            return if kind_star && msg_star {
                Ok(MsgPath::Wild)
            } else {
                Err(RclMsgError::InvalidMsgPath(String::from_str(text)))
            };
        }
        let pkg = string_of_all(&pkg);
        if kind_star {
            return if msg_star {
                Ok(MsgPath::PkgWild { pkg })
            } else {
                Err(RclMsgError::InvalidMsgPath(String::from_str(text)))
            };
        }
        let name = string_of_all(&msg);
        Ok(
            match (kind_found.unwrap(), msg_star) {
                (MsgKind::Msg, true) => MsgPath::PkgMsgWild { pkg },
                (MsgKind::Msg, false) => MsgPath::PkgMsgMsg { pkg, msg: name },
                (MsgKind::Srv, true) => MsgPath::PkgSrvWild { pkg },
                (MsgKind::Srv, false) => MsgPath::PkgSrvMsg { pkg, srv: name },
                (MsgKind::Action, true) => MsgPath::PkgActionWild { pkg },
                (MsgKind::Action, false) => MsgPath::PkgActionMsg { pkg, action: name },
            },
        )
    }
}

impl std::str::FromStr for MsgPath {
    type Err = RclMsgError;

    /// Reads `text` as a path: the path that it denotes, or the error
    /// that holds `text` where it denotes none.
    fn from_str(text: &str) -> (r: Result<Self, Self::Err>)
        ensures
            match r {
                Ok(p) => msg_path_of(text@) == Some(p@),
                Err(e) => msg_path_of(text@) is None && e@ == RclMsgErrorView::InvalidMsgPath(
                    text@,
                ),
            },
    {
        MsgPath::parse(text)
    }
}

/// Whether no two of the strings `names` have the same content.
pub open spec fn distinct(names: Seq<String>) -> bool {
    forall|i: int, j: int|
        0 <= i < names.len() && 0 <= j < names.len() && i != j ==> (#[trigger] names[i])@ != (
        #[trigger] names[j])@
}

/// Whether one of the strings `names` has the content `key`.
pub open spec fn has_key(names: Seq<String>, key: Seq<char>) -> bool {
    exists|i: int| 0 <= i < names.len() && (#[trigger] names[i])@ == key
}

/// An index at which `names` holds `key`.
pub open spec fn index_of(names: Seq<String>, key: Seq<char>) -> int {
    choose|i: int| 0 <= i < names.len() && (#[trigger] names[i])@ == key
}

/// The map from the contents of `names` to the values `values` at the
/// same indices.
pub open spec fn assoc_map<V>(names: Seq<String>, values: Seq<V>) -> Map<Seq<char>, V> {
    Map::new(|key: Seq<char>| has_key(names, key), |key: Seq<char>| values[index_of(names, key)])
}

/// Among distinct names, a name is found where it stands.
pub proof fn lemma_index_of(names: Seq<String>, i: int)
    requires
        distinct(names),
        0 <= i < names.len(),
    ensures
        has_key(names, names[i]@),
        index_of(names, names[i]@) == i,
{
    assert(has_key(names, names[i]@));
}

/// A new value at index `i` is a new value for the name at `i`.
pub proof fn lemma_assoc_update<V>(names: Seq<String>, values: Seq<V>, i: int, v: V)
    requires
        distinct(names),
        names.len() == values.len(),
        0 <= i < names.len(),
    ensures
        assoc_map(names, values.update(i, v)) == assoc_map(names, values).insert(names[i]@, v),
{
    let a = assoc_map(names, values.update(i, v));
    let b = assoc_map(names, values).insert(names[i]@, v);
    lemma_index_of(names, i);
    assert forall|key: Seq<char>| a.dom().contains(key) implies a[key] == b[key] by {
        let k = index_of(names, key);
        lemma_index_of(names, k);
    }
    assert(a =~= b);
}

/// A new name with a value at the end is a new entry.
pub proof fn lemma_assoc_push<V>(names: Seq<String>, values: Seq<V>, name: String, v: V)
    requires
        distinct(names),
        names.len() == values.len(),
        !has_key(names, name@),
    ensures
        distinct(names.push(name)),
        assoc_map(names.push(name), values.push(v)) == assoc_map(names, values).insert(name@, v),
{
    let names2 = names.push(name);
    let values2 = values.push(v);
    assert(distinct(names2)) by {
        assert forall|i: int, j: int|
            0 <= i < names2.len() && 0 <= j < names2.len() && i != j implies (#[trigger] names2[i])@
            != (#[trigger] names2[j])@ by {
            if i < names.len() && j < names.len() {
                assert(names[i]@ != names[j]@);
            } else if i < names.len() {
                assert(names[i]@ != name@);
            } else {
                assert(names[j]@ != name@);
            }
        }
    }
    let a = assoc_map(names2, values2);
    let b = assoc_map(names, values).insert(name@, v);
    assert forall|key: Seq<char>| a.dom().contains(key) <==> b.dom().contains(key) by {
        if has_key(names2, key) {
            let k = index_of(names2, key);
            if k < names.len() {
                assert(names[k]@ == key);
            }
        }
        if has_key(names, key) {
            let k = index_of(names, key);
            assert(names2[k]@ == key);
        }
        if key == name@ {
            assert(names2[names.len() as int]@ == key);
        }
    }
    assert forall|key: Seq<char>| a.dom().contains(key) implies a[key] == b[key] by {
        let k = index_of(names2, key);
        lemma_index_of(names2, k);
        if k < names.len() {
            assert(names[k]@ == key);
            lemma_index_of(names, k);
        }
    }
    assert(a =~= b);
}

/// The index at which `names` holds `key`, if it holds it.
pub fn find_name(names: &Vec<String>, key: &str) -> (r: Option<usize>)
    ensures
        match r {
            Some(i) => i < names.len() && names@[i as int]@ == key@,
            None => !has_key(names@, key@),
        },
{
    let wanted = String::from_str(key);
    let mut i: usize = 0;
    while i < names.len()
        invariant
            i <= names.len(),
            wanted@ == key@,
            forall|k: int| 0 <= k < i ==> (#[trigger] names@[k])@ != key@,
        decreases names.len() - i,
    {
        if names[i] == wanted {
            return Some(i);
        }
        i = i + 1;
    }
    None
}

/// The values for the definitions of one kind in a package: one for
/// all of them, and one for each name.
pub struct MsgTree<T> {
    pub wildcard: Option<T>,
    pub names: Vec<String>,
    pub values: Vec<T>,
}

/// The mathematical content of a [`MsgTree`].
pub struct MsgTreeView<T> {
    pub wildcard: Option<T>,
    pub messages: Map<Seq<char>, T>,
}

impl<T> MsgTreeView<T> {
    /// The tree without values.
    pub open spec fn empty() -> Self {
        MsgTreeView { wildcard: None, messages: Map::empty() }
    }
}

impl<T> View for MsgTree<T> {
    type V = MsgTreeView<T>;

    open spec fn view(&self) -> MsgTreeView<T> {
        MsgTreeView { wildcard: self.wildcard, messages: assoc_map(self.names@, self.values@) }
    }
}

impl<T> MsgTree<T> {
    /// Each name has one value.
    pub open spec fn well_formed(&self) -> bool {
        self.names.len() == self.values.len() && distinct(self.names@)
    }

    /// The tree without values.
    pub fn new() -> (r: Self)
        ensures
            r.well_formed(),
            r@ == MsgTreeView::<T>::empty(),
    {
        let r = MsgTree { wildcard: None, names: Vec::new(), values: Vec::new() };
        assert(r@.messages =~= Map::empty());
        r
    }

    /// Sets the value for the name `name`.
    pub fn insert(&mut self, name: &str, value: T)
        requires
            old(self).well_formed(),
        ensures
            final(self).well_formed(),
            final(self)@ == (MsgTreeView {
                messages: old(self)@.messages.insert(name@, value),
                ..old(self)@
            }),
    {
        match find_name(&self.names, name) {
            Some(i) => {
                proof {
                    lemma_assoc_update(self.names@, self.values@, i as int, value);
                }
                self.values[i] = value;
            },
            None => {
                let key = String::from_str(name);
                proof {
                    lemma_assoc_push(self.names@, self.values@, key, value);
                }
                self.names.push(key);
                self.values.push(value);
            },
        }
    }
}

impl<T> Default for MsgTree<T> {
    fn default() -> (r: Self)
        ensures
            r.well_formed(),
            r@ == MsgTreeView::<T>::empty(),
    {
        MsgTree::new()
    }
}

/// The values for the definitions of a package: one for all of them,
/// and a tree for each kind.
pub struct PackageTree<T> {
    pub wildcard: Option<T>,
    pub msg: MsgTree<T>,
    pub srv: MsgTree<T>,
    pub action: MsgTree<T>,
}

/// The mathematical content of a [`PackageTree`].
pub struct PackageTreeView<T> {
    pub wildcard: Option<T>,
    pub msg: MsgTreeView<T>,
    pub srv: MsgTreeView<T>,
    pub action: MsgTreeView<T>,
}

impl<T> PackageTreeView<T> {
    /// The tree without values.
    pub open spec fn empty() -> Self {
        PackageTreeView {
            wildcard: None,
            msg: MsgTreeView::empty(),
            srv: MsgTreeView::empty(),
            action: MsgTreeView::empty(),
        }
    }

    /// The tree of the kind `kind`.
    pub open spec fn tree(self, kind: MsgKind) -> MsgTreeView<T> {
        match kind {
            MsgKind::Msg => self.msg,
            MsgKind::Srv => self.srv,
            MsgKind::Action => self.action,
        }
    }

    /// This tree with `t` as the tree of the kind `kind`.
    pub open spec fn with_tree(self, kind: MsgKind, t: MsgTreeView<T>) -> Self {
        match kind {
            MsgKind::Msg => PackageTreeView { msg: t, ..self },
            MsgKind::Srv => PackageTreeView { srv: t, ..self },
            MsgKind::Action => PackageTreeView { action: t, ..self },
        }
    }
}

impl<T> View for PackageTree<T> {
    type V = PackageTreeView<T>;

    open spec fn view(&self) -> PackageTreeView<T> {
        PackageTreeView {
            wildcard: self.wildcard,
            msg: self.msg@,
            srv: self.srv@,
            action: self.action@,
        }
    }
}

impl<T> PackageTree<T> {
    /// Each of the three trees is well formed.
    pub open spec fn well_formed(&self) -> bool {
        self.msg.well_formed() && self.srv.well_formed() && self.action.well_formed()
    }

    /// The tree without values.
    pub fn new() -> (r: Self)
        ensures
            r.well_formed(),
            r@ == PackageTreeView::<T>::empty(),
    {
        PackageTree { wildcard: None, msg: MsgTree::new(), srv: MsgTree::new(), action: MsgTree::new() }
    }
}

impl<T> Default for PackageTree<T> {
    fn default() -> (r: Self)
        ensures
            r.well_formed(),
            r@ == PackageTreeView::<T>::empty(),
    {
        PackageTree::new()
    }
}

/// The contents of a sequence of package trees.
pub open spec fn trees_view<T>(v: Seq<PackageTree<T>>) -> Seq<PackageTreeView<T>> {
    Seq::new(v.len(), |i: int| v[i]@)
}

/// A value for each path: one for all definitions, and a tree for each
/// package.
pub struct AmentTree<T> {
    pub wildcard: Option<T>,
    pub names: Vec<String>,
    pub packages: Vec<PackageTree<T>>,
}

/// The mathematical content of an [`AmentTree`].
pub struct AmentTreeView<T> {
    pub wildcard: Option<T>,
    pub packages: Map<Seq<char>, PackageTreeView<T>>,
}

/// The value of `o`, if there is one.
pub open spec fn optional<T>(o: Option<T>) -> Seq<T> {
    match o {
        Some(x) => seq![x],
        None => Seq::empty(),
    }
}

/// The value of `m` for `key`, if there is one.
pub open spec fn entry_of<T>(m: Map<Seq<char>, T>, key: Seq<char>) -> Seq<T> {
    if m.contains_key(key) {
        seq![m[key]]
    } else {
        Seq::empty()
    }
}

impl<T> AmentTreeView<T> {
    /// The tree without values.
    pub open spec fn empty() -> Self {
        AmentTreeView { wildcard: None, packages: Map::empty() }
    }

    /// The tree of the package `pkg`: the empty tree if nothing was set
    /// for the package.
    pub open spec fn package(self, pkg: Seq<char>) -> PackageTreeView<T> {
        if self.packages.contains_key(pkg) {
            self.packages[pkg]
        } else {
            PackageTreeView::empty()
        }
    }

    /// This tree with `p` as the tree of the package `pkg`.
    pub open spec fn with_package(self, pkg: Seq<char>, p: PackageTreeView<T>) -> Self {
        AmentTreeView { packages: self.packages.insert(pkg, p), ..self }
    }

    /// This tree with `context` as the value for all the definitions of
    /// the kind `kind` in the package `pkg`.
    pub open spec fn set_kind(self, pkg: Seq<char>, kind: MsgKind, context: T) -> Self {
        let p = self.package(pkg);
        self.with_package(
            pkg,
            p.with_tree(kind, MsgTreeView { wildcard: Some(context), ..p.tree(kind) }),
        )
    }

    /// This tree with `context` as the value for the definition `name`
    /// of the kind `kind` in the package `pkg`.
    pub open spec fn set_name(self, pkg: Seq<char>, kind: MsgKind, name: Seq<char>, context: T)
        -> Self {
        let p = self.package(pkg);
        self.with_package(
            pkg,
            p.with_tree(
                kind,
                MsgTreeView {
                    messages: p.tree(kind).messages.insert(name, context),
                    ..p.tree(kind)
                },
            ),
        )
    }

    /// This tree with `context` as the value for the path `path`. The
    /// values for other paths stay.
    pub open spec fn set(self, path: MsgPathView, context: T) -> Self {
        match path {
            MsgPathView::Wild => AmentTreeView { wildcard: Some(context), ..self },
            MsgPathView::PkgWild { pkg } => self.with_package(
                pkg,
                PackageTreeView { wildcard: Some(context), ..self.package(pkg) },
            ),
            MsgPathView::PkgMsgWild { pkg } => self.set_kind(pkg, MsgKind::Msg, context),
            MsgPathView::PkgMsgMsg { pkg, msg } => self.set_name(pkg, MsgKind::Msg, msg, context),
            MsgPathView::PkgSrvWild { pkg } => self.set_kind(pkg, MsgKind::Srv, context),
            MsgPathView::PkgSrvMsg { pkg, srv } => self.set_name(pkg, MsgKind::Srv, srv, context),
            MsgPathView::PkgActionWild { pkg } => self.set_kind(pkg, MsgKind::Action, context),
            MsgPathView::PkgActionMsg { pkg, action } => self.set_name(
                pkg,
                MsgKind::Action,
                action,
                context,
            ),
        }
    }

    /// The values that apply to the definition `msg` of the kind `kind`
    /// in the package `pkg`, from the widest path to the narrowest: the
    /// value for all definitions, the value for the package, the value
    /// for the kind in the package, and the value for the definition
    /// itself, as far as each was set.
    pub open spec fn get(self, pkg: Seq<char>, kind: MsgKind, msg: Seq<char>) -> Seq<T> {
        optional(self.wildcard) + if self.packages.contains_key(pkg) {
            let p = self.packages[pkg];
            optional(p.wildcard) + optional(p.tree(kind).wildcard) + entry_of(
                p.tree(kind).messages,
                msg,
            )
        } else {
            Seq::empty()
        }
    }
}

impl<T> View for AmentTree<T> {
    type V = AmentTreeView<T>;

    open spec fn view(&self) -> AmentTreeView<T> {
        AmentTreeView {
            wildcard: self.wildcard,
            packages: assoc_map(self.names@, trees_view(self.packages@)),
        }
    }
}

impl<T> Default for AmentTree<T> {
    fn default() -> (r: Self)
        ensures
            r.well_formed(),
            r@ == AmentTreeView::<T>::empty(),
    {
        let r = AmentTree { wildcard: None, names: Vec::new(), packages: Vec::new() };
        assert(r@.packages =~= Map::empty());
        r
    }
}

impl<T> AmentTree<T> {
    /// Each package has one tree, and each tree is well formed.
    pub open spec fn well_formed(&self) -> bool {
        &&& self.names.len() == self.packages.len()
        &&& distinct(self.names@)
        &&& forall|i: int| 0 <= i < self.packages.len() ==> (#[trigger] self.packages@[i]).well_formed()
    }

    /// The index of the tree of the package `pkg`, which is added
    /// without values if the package has none.
    fn entry(&mut self, pkg: &str) -> (i: usize)
        requires
            old(self).well_formed(),
        ensures
            final(self).well_formed(),
            i < final(self).names.len(),
            final(self).names@[i as int]@ == pkg@,
            final(self).packages@[i as int]@ == old(self)@.package(pkg@),
            final(self).wildcard == old(self).wildcard,
            final(self)@.packages == old(self)@.packages.insert(pkg@, old(self)@.package(pkg@)),
    {
        match find_name(&self.names, pkg) {
            Some(i) => {
                proof {
                    lemma_index_of(self.names@, i as int);
                    assert(self@.packages =~= self@.packages.insert(pkg@, self@.package(pkg@)));
                }
                i
            },
            None => {
                let key = String::from_str(pkg);
                let tree = PackageTree::new();
                proof {
                    lemma_assoc_push(self.names@, trees_view(self.packages@), key, tree@);
                    assert(trees_view(self.packages@.push(tree)) =~= trees_view(
                        self.packages@,
                    ).push(tree@));
                }
                self.names.push(key);
                self.packages.push(tree);
                self.names.len() - 1
            },
        }
    }

    /// Sets `context` as the value for the path `path`.
    pub fn set(&mut self, path: &MsgPath, context: T)
        requires
            old(self).well_formed(),
        ensures
            final(self).well_formed(),
            final(self)@ == old(self)@.set(path@, context),
    {
        let pkg = match path {
            MsgPath::Wild => {
                self.wildcard = Some(context);
                return ;
            },
            MsgPath::PkgWild { pkg } => pkg,
            MsgPath::PkgMsgWild { pkg } => pkg,
            MsgPath::PkgMsgMsg { pkg, .. } => pkg,
            MsgPath::PkgSrvWild { pkg } => pkg,
            MsgPath::PkgSrvMsg { pkg, .. } => pkg,
            MsgPath::PkgActionWild { pkg } => pkg,
            MsgPath::PkgActionMsg { pkg, .. } => pkg,
        };
        let i = self.entry(pkg.as_str());
        let ghost names = self.names@;
        let ghost before = trees_view(self.packages@);
        let ghost middle = self@;
        match path {
            MsgPath::Wild => {},
            MsgPath::PkgWild { .. } => {
                self.packages[i].wildcard = Some(context);
            },
            MsgPath::PkgMsgWild { .. } => {
                self.packages[i].msg.wildcard = Some(context);
            },
            MsgPath::PkgMsgMsg { msg, .. } => {
                self.packages[i].msg.insert(msg.as_str(), context);
            },
            MsgPath::PkgSrvWild { .. } => {
                self.packages[i].srv.wildcard = Some(context);
            },
            MsgPath::PkgSrvMsg { srv, .. } => {
                self.packages[i].srv.insert(srv.as_str(), context);
            },
            MsgPath::PkgActionWild { .. } => {
                self.packages[i].action.wildcard = Some(context);
            },
            MsgPath::PkgActionMsg { action, .. } => {
                self.packages[i].action.insert(action.as_str(), context);
            },
        }
        proof {
            let after = trees_view(self.packages@);
            assert(after =~= before.update(i as int, self.packages@[i as int]@));
            lemma_assoc_update(names, before, i as int, self.packages@[i as int]@);
            assert(self@.packages =~= old(self)@.set(path@, context).packages);
        }
    }

    /// The values that apply to the definition `msg` of the kind `kind`
    /// in the package `pkg`, from the widest path to the narrowest.
    pub fn get(&self, pkg: &str, kind: MsgKind, msg: &str) -> (r: Vec<&T>)
        requires
            self.well_formed(),
        ensures
            r.len() == self@.get(pkg@, kind, msg@).len(),
            forall|k: int| 0 <= k < r.len() ==> *(#[trigger] r@[k]) == self@.get(pkg@, kind, msg@)[k],
    {
        let mut r: Vec<&T> = Vec::new();
        match &self.wildcard {
            Some(x) => {
                r.push(x);
            },
            None => {},
        }
        match find_name(&self.names, pkg) {
            Some(i) => {
                proof {
                    lemma_index_of(self.names@, i as int);
                }
                let p = &self.packages[i];
                match &p.wildcard {
                    Some(x) => {
                        r.push(x);
                    },
                    None => {},
                }
                let tree = match kind {
                    MsgKind::Msg => &p.msg,
                    MsgKind::Srv => &p.srv,
                    MsgKind::Action => &p.action,
                };
                match &tree.wildcard {
                    Some(x) => {
                        r.push(x);
                    },
                    None => {},
                }
                match find_name(&tree.names, msg) {
                    Some(j) => {
                        proof {
                            lemma_index_of(tree.names@, j as int);
                        }
                        r.push(&tree.values[j]);
                    },
                    None => {},
                }
            },
            None => {},
        }
        r
    }
}

} // verus!
