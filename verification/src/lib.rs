//! A token time-lock custody engine.
//!
//! Deposits of a fungible asset are held in per-lock holding vaults until a
//! caller-chosen release time. Only the original depositor can release,
//! top up, or extend a lock, and funds can never move before the release
//! time. Lock identities are assigned sequentially by a global registry,
//! and each lock's holding vault is addressed deterministically from its
//! identity, so no two locks ever share custody slots.

pub mod engine;
pub mod errors;
pub mod pda;
pub mod state;
