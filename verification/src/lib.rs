//! Verified core of a remote-execution worker ("minion").
//!
//! The minion holds one long-lived connection to a coordinator, authenticates
//! itself, and on request fetches or receives a compiled code module, runs it
//! in an isolated sandbox, and reports the resulting values back.
//!
//! This crate holds the parts whose correctness matters under untrusted input:
//! the wire-envelope codec, the module cache with its fetch-once discipline,
//! the result-value encoding, the sandbox adapter, and the protocol state
//! machine. Transport and HTTP I/O live outside; they hand frames and fetched
//! bytes in and carry encoded replies out.

pub mod cache;
pub mod msg;
pub mod protocol;
pub mod sandbox;
pub mod values;
