//! The typed model of interface definitions.

pub mod action;
pub mod constant;
pub mod member;
pub mod message;
pub mod package;
pub mod primitives;
pub mod sequences;
pub mod service;
