//! Request and settlement ledger for confidential trading-strategy computations.
//!
//! Callers request confidential computations (RSI evaluation, position sizing,
//! performance metrics) over encrypted inputs, and later commit a plaintext
//! performance summary into a per-owner strategy record. The ledger never
//! inspects encrypted payloads: it validates scalar parameters, checks who is
//! allowed to write, keeps its records consistent and appends an audit event
//! for every operation that succeeds.
pub mod address;
pub mod identity;
pub mod error;
pub mod records;
pub mod events;
pub mod ledger;
pub mod laws;
