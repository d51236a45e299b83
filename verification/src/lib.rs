//! Core of a workspace-manipulation client that speaks to a compositor over
//! a local IPC channel: binary frame codec, response interpretation, and the
//! workspace/output targeting logic. Transport and process glue live outside
//! this crate; everything here is pure computation over plain values.

pub mod codec;
pub mod commands;
pub mod errors;
pub mod interp;
pub mod json;
pub mod names;
pub mod plan;
pub mod resolver;

pub use errors::IpcError;
