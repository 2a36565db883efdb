//! Normalization layer for blockchain transaction events: module
//! publish/delete events and user-submitted transaction envelopes become
//! canonical, flat records suitable for durable relational storage.

pub mod move_modules;
pub mod signatures;
pub mod user_transactions;
pub mod util;
