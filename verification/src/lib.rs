//! Verified core of an SPL-token fundraiser program.
//!
//! A maker opens a campaign that collects one mint up to a target amount;
//! contributors deposit tokens within a per-contributor cap while the campaign
//! runs; the maker claims the vault once the target is met, and contributors
//! take their deposits back once the campaign has ended without meeting it.
//!
//! This crate holds the program's decisions: instruction decoding, the byte
//! layout of its state accounts, address checks, and the business rules of
//! each instruction, each with a contract proved by Verus. Reading accounts,
//! sysvars and cross-program invocations are performed by the caller between
//! the steps that this crate exposes.

pub mod constants;
pub mod error;
pub mod le_bytes;
pub mod address;
pub mod state;
pub mod rules;
pub mod instructions;
pub mod laws;
