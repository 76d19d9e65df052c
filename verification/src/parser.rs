//! Parsers for the text of interface definitions.

pub mod action;
pub mod constant;
pub mod error;
pub mod ident;
pub mod literal;
pub mod member;
pub mod message;
pub mod package;
pub mod service;
pub mod types;
pub mod utils;
