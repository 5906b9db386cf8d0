//! Verified core of a single-route MJPEG reverse proxy.
//!
//! The proxy fetches an upstream motion-JPEG stream with HTTP Digest
//! authentication, validates the upstream response, and relays the body
//! downstream byte for byte. This crate holds the logic of that pipeline:
//! the per-process request identifier counter, the digest challenge/retry
//! state machine, response validation, and the pull-based streaming relay
//! with its exactly-once lifecycle record. The network, the listener and
//! the log sink live outside the library.

pub mod handler;
pub mod harness;
pub mod relay;
pub mod rqid;
pub mod stream;
pub mod trace;
pub mod upstream;
pub mod validate;
