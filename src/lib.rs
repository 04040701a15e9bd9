//! A connector that hands out plain or TLS-secured byte streams, chosen by
//! the scheme of the destination URI.
//!
//! The decisions of one connect attempt are a verified state machine
//! ([`attempt::Attempt`]); the asynchronous driver that performs its actions
//! lives outside the verified part.
pub mod attempt;
pub mod connector;
pub mod laws;
pub mod outside;
pub mod peer;
pub mod policy;
pub mod target;
