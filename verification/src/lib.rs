//! Session-authorization and command-execution core of a single-owner
//! remote access gateway driven through a chat transport.
//!
//! One identity may bind itself to the gateway by presenting the right
//! credential; every later event is classified against that binding, and
//! only the owner's events reach path resolution, shell execution, file
//! transfer or the text-generation proxy. The transport, the durable
//! store and the subprocess spawn live outside this crate; they hand the
//! core plain values and carry out the directives it returns.

pub mod auth;
pub mod model;
pub mod notify;
pub mod path;
pub mod router;
pub mod shell;
pub mod states;
