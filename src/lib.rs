//! Request handling for a service that compiles model descriptions into
//! WebAssembly modules: replies, error mapping, request-scoped artifact
//! paths, and the per-request state machine that drives the compiler.

pub mod artifact;
pub mod error;
pub mod reply;
pub mod session;
