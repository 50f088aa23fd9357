//! Transaction engine for a pooled PostgreSQL connection: the transaction
//! state machine, savepoints, server-side cursors and pipelined queries,
//! together with a few counting helpers over class labels.
//!
//! The library does not talk to the server itself. Each operation checks the
//! transaction's state and hands back the exact SQL text to send; the caller
//! runs it on its connection and passes the server's answer back in.

pub mod cursor;
pub mod metrics;
pub mod options;
pub mod pipeline;
pub mod savepoint;
pub mod text;
pub mod transaction;
