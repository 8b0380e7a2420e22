//! Verified core of a wasmRS host provider for Wasmtime and of the test
//! service component it runs: frame buffers and how they are written into
//! guest memory, the initialization handshake, operation lookups, and the
//! service's operations and input rules.

pub mod frame;
pub mod guest_memory;
pub mod init_protocol;
pub mod inputs;
pub mod operations;
pub mod request;
pub mod responses;
pub mod service;
