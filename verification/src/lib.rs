//! A verified credential lifecycle manager for a spoofed mobile OAuth client.
//!
//! The library generates a randomized device identity, builds the token
//! request for a fixed endpoint, applies the server's token response to the
//! manager's state, and computes the renewal daemon's sleep schedule.  The
//! network transport and the async loop around these functions live outside
//! the library; everything here is plain state-to-state logic with contracts.

pub mod daemon;
pub mod device;
pub mod headers;
pub mod numbers;
pub mod oauth;
pub mod trusted;
