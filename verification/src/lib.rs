//! Verified planning logic for testing the migration of Solana builtin
//! programs to Core BPF: program names and addresses, fixture and build
//! paths, command lines, genesis accounts and epoch progress.

pub mod address;
pub mod cli;
pub mod command;
pub mod conformance;
pub mod epoch;
pub mod genesis;
pub mod output;
pub mod program;
pub mod text;
