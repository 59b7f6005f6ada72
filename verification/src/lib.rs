//! Action-execution backend for an AI-driven support agent.
//!
//! A response producer hands back a free-text reply together with a typed
//! action drawn from a closed set. The [`protocol`] module defines that set,
//! the response envelope, the producer-facing schema text, and the decoder
//! that validates a raw payload against the grammar. The [`executor`] module
//! carries out the one stateful action — an atomic credential swap between
//! two accounts — against a model of the credential table, and plans the same
//! swap for a caller driving a live store.

pub mod executor;
pub mod protocol;
