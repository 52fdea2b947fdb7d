//! View of a SOL stake account: which vote account it is delegated to and how
//! much of its stake is effective, activating and deactivating, encoded as a
//! fixed-size return-data record that clients decode.
#![allow(deprecated)]

pub mod client;
pub mod error;
pub mod instruction;
pub mod processor;
pub mod pubkey;
pub mod stake;
pub mod state;

