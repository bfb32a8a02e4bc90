//! Settlement core of a two-party escrow: one party locks an asset under a
//! program-derived authority, the other completes the swap atomically.
//!
//! The library decides and the host carries out. `processor` holds the two
//! handlers on a positional account list: they check every account against
//! its role, write the escrow record, and return the calls of the token
//! program that the host has to make; after the calls of an exchange,
//! `Processor::close_escrow` closes the record. `init_escrow` starts a
//! trade on accounts that the host has already bound to their roles.
//!
//! `instruction` and `state` are the two byte formats, `authority` derives
//! the address that holds the custody account, and `token` builds the calls
//! of the token program. `guarantees` and `ledger` state what holds of the
//! handlers on every input.

pub mod account;
pub mod authority;
pub mod bytes;
pub mod error;
pub mod guarantees;
pub mod init_escrow;
pub mod instruction;
pub mod ledger;
pub mod processor;
pub mod pubkey;
pub mod state;
pub mod token;
