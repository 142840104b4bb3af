//! A request-dispatch and authentication-flow gateway in front of a pluggable
//! identity provider.
//!
//! The gateway accepts HTTP-shaped events, validates them, and decides which
//! identity-provider operation to run (look a user up, or start a
//! username/password authentication flow). Provider calls themselves are
//! outside work performed by the embedding program; this crate holds the
//! verified decision logic: payload decoding, method dispatch, pool selection,
//! and response shaping.

pub mod gateway;
pub mod payload;
pub mod response;
pub mod text;
