//! A small state-transition engine for ledger-style accounts.
//!
//! - `codec`: the binary instruction format (opcode byte, little-endian payload).
//! - `accounts`: the accounts of one invocation and the cursor over them.
//! - `mutator`: the four counter transitions, with saturating arithmetic.
//! - `raw_counter`: the counter without an authority field.
//! - `validated_counter`: the counter whose recorded authority must sign.
//! - `derivation`: program-derived authority addresses.
//! - `transfer`: a token transfer signed by the program's derived authority.
//! - `direct_transfer`: lamport and token transfers signed by the sender.

pub mod accounts;
pub mod bytes;
pub mod codec;
pub mod derivation;
pub mod direct_transfer;
pub mod error;
pub mod mutator;
pub mod raw_counter;
pub mod transfer;
pub mod validated_counter;
