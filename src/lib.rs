//! Confidential-transfer planning for an account-based ledger: output
//! classification, input selection, proof-statement planning and ordered
//! instruction assembly, all over plain values.

pub mod amount;
pub mod argument_parser;
pub mod types;
pub mod output;
pub mod selection;
pub mod statement;
pub mod transfer;
pub mod substate;
pub mod instruction;
pub mod epoch;
pub mod shard_id;
