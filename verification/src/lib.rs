//! The core of a small file service. A client uploads a file with a POST and
//! gets a generated identifier back; a GET with that identifier downloads the
//! file again.
//!
//! The library decides and performs no I/O. A server hands it the method and
//! the path of a request, carries out on disk and on the wire what the
//! library asks for, one action at a time, and reports back what came of it.
//!
//! - [`router`]: from method and path to the operation that a request asks for.
//! - [`codec`]: how file identifiers are generated and validated.
//! - [`handler`]: the entry point, which routes a request and takes its first
//!   step.
//! - [`transfer`]: one exchange as a state machine that moves a body to a file
//!   chunk by chunk.
//! - [`response`] and [`error`]: the two ways in which an exchange ends.
//! - [`storage`]: the storage directory as contracts see it, with the proofs
//!   of what uploads and downloads do to it.

pub mod codec;
pub mod error;
pub mod handler;
pub mod response;
pub mod router;
pub mod storage;
pub mod transfer;
