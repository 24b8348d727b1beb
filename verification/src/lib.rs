//! The decision logic of `ark lsp`, the standalone stdio language server that
//! bridges an editor to a sidecar ark kernel, and of the Zed extension that
//! launches it.
//!
//! Everything that talks to the operating system (processes, sockets, stdio,
//! threads, clocks) lives outside this library; the functions here decide what
//! that code does and are verified against their contracts.

pub mod args;
pub mod json;
pub mod pump;
pub mod lifecycle;
pub mod lsp_connection;
pub mod sidecar;
pub mod zed_extension;
