//! A compiler for ROS 2 interface definitions.
//!
//! Message, service and action files are parsed into a typed model, and
//! the declarations of their bindings are generated from that model.
//! Everything here is a function of its arguments: files are read and
//! written by the caller.
//!
//! - [`types`] is the model: types, members, constants, messages,
//!   services, actions and packages.
//! - [`parser`] reads the text of definitions: literals, types,
//!   declaration lines, and whole messages, services and actions. It
//!   also assembles packages from the text of their files.
//! - [`generator`] turns a package into the declarations of its
//!   bindings, and the declarations into text.
//! - [`config`] and [`compiler`] hold the settings and the state of a
//!   compilation: the packages, the build script, the generated files.
//! - [`msg_path`] has paths that select definitions and a tree of
//!   values by path.
//! - [`text`], [`decimal`], [`collect`] and [`names`] are the helpers
//!   that the others share.
//!
//! Each data type has a view, its mathematical content, and each
//! function says in its contract what it returns in terms of views.

pub mod collect;
pub mod compiler;
pub mod config;
pub mod decimal;
pub mod generator;
pub mod msg_path;
pub mod names;
pub mod text;
pub mod types;
pub mod parser;

pub use crate::compiler::{CompileOutput, Compiler};
pub use crate::config::CompileConfig;
pub use crate::parser::package::{AmentPrefix, PackageDir};
