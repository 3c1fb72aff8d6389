//! Verification and production of execution payloads at the boundary between a
//! proof-of-stake consensus client, its execution engine and its fork choice.

pub mod builder;
pub mod chain;
pub mod errors;
pub mod gossip;
pub mod hash;
pub mod merge_block;
pub mod notifier;
pub mod payload;
pub mod status;
pub mod time;
pub mod validator_registration_data;
