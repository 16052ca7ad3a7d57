//! A small catalogue of named, schema-described tools over an in-memory set of
//! cats, with the engine that validates an invocation and dispatches it.

pub mod catalog;
pub mod dispatch;
pub mod entity;
pub mod json;
pub mod laws;
pub mod repository;
pub mod server;
pub mod text;
pub mod validate;
