//! A deterministic simulator of a smart-contract blockchain's
//! transaction-execution virtual machine.
//!
//! Contract code is run against a speculative, copy-on-write cache over a
//! committed account store. One top-level transaction produces a
//! [`tx_result::TxResult`] (status code, message, return values, logs) and a
//! `BlockchainUpdate` (the state delta), with byte-exact balance arithmetic,
//! storage key/value encoding, reentrant context-stack behaviour for nested
//! calls, and a closed error taxonomy.

pub mod account;
pub mod address;
pub mod bigint;
pub mod bytes;
pub mod crypto;
pub mod kv;
pub mod managed_types;
pub mod msg;
pub mod sample;
pub mod tx_cache;
pub mod tx_context;
pub mod tx_execution;
pub mod tx_input;
pub mod tx_result;
