//! Packages and the libraries that go with them.

use vstd::prelude::*;
use crate::text::strings_view;
use crate::types::action::{Action, ActionView};
use crate::types::message::{Message, MessageView};
use crate::types::service::{Service, ServiceView};

verus! {

/// A library of a package: its name and the files it is built from,
/// each given by its path below an installation prefix.
#[derive(Debug, Clone, PartialEq, Eq)]
pub struct Library {
    pub library_name: String,
    pub include_suffixes: Vec<String>,
    pub source_suffixes: Vec<String>,
}

/// The mathematical content of a [`Library`].
pub struct LibraryView {
    pub library_name: Seq<char>,
    pub include_suffixes: Seq<Seq<char>>,
    pub source_suffixes: Seq<Seq<char>>,
}

impl View for Library {
    type V = LibraryView;

    open spec fn view(&self) -> LibraryView {
        LibraryView {
            library_name: self.library_name@,
            include_suffixes: strings_view(self.include_suffixes@),
            source_suffixes: strings_view(self.source_suffixes@),
        }
    }
}

/// The definitions of one package.
#[derive(Debug, Clone, PartialEq, Eq)]
pub struct Package {
    pub name: String,
    pub msgs: Vec<Message>,
    pub srvs: Vec<Service>,
    pub actions: Vec<Action>,
    pub share_suffixes: Vec<String>,
    pub rosidl_generator_c_lib: Library,
    pub rosidl_typesupport_c_lib: Library,
}

/// The mathematical content of a [`Package`].
pub struct PackageView {
    pub name: Seq<char>,
    pub msgs: Seq<MessageView>,
    pub srvs: Seq<ServiceView>,
    pub actions: Seq<ActionView>,
    pub share_suffixes: Seq<Seq<char>>,
    pub rosidl_generator_c_lib: LibraryView,
    pub rosidl_typesupport_c_lib: LibraryView,
}

impl View for Package {
    type V = PackageView;

    open spec fn view(&self) -> PackageView {
        PackageView {
            name: self.name@,
            msgs: Seq::new(self.msgs@.len(), |i: int| self.msgs@[i]@),
            srvs: Seq::new(self.srvs@.len(), |i: int| self.srvs@[i]@),
            actions: Seq::new(self.actions@.len(), |i: int| self.actions@[i]@),
            share_suffixes: strings_view(self.share_suffixes@),
            rosidl_generator_c_lib: self.rosidl_generator_c_lib@,
            rosidl_typesupport_c_lib: self.rosidl_typesupport_c_lib@,
        }
    }
}

impl Package {
    /// The names of the two libraries of the package: the generator
    /// library first, the type support library second.
    pub fn library_names(&self) -> (r: [&str; 2])
        ensures
            r[0]@ == self@.rosidl_generator_c_lib.library_name,
            r[1]@ == self@.rosidl_typesupport_c_lib.library_name,
    {
        [
            self.rosidl_generator_c_lib.library_name.as_str(),
            self.rosidl_typesupport_c_lib.library_name.as_str(),
        ]
    }

    /// Whether the package holds no message, no service and no action.
    pub fn is_empty(&self) -> (r: bool)
        ensures
            r == (self@.msgs.len() == 0 && self@.srvs.len() == 0 && self@.actions.len() == 0),
    {
        self.msgs.len() == 0 && self.srvs.len() == 0 && self.actions.len() == 0
    }
}

} // verus!
