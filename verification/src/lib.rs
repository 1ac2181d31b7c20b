//! Transaction-processing logic of three Hyperledger Sawtooth transaction
//! families (agreements, GTIN programs and purchase orders), verified with Verus.

pub mod record;
pub mod text;
pub mod error;
pub mod address;
pub mod state;
pub mod ledger;
pub mod claims;
pub mod po;
pub mod program;
pub mod gitin;
pub mod payloads;
pub mod po_cli;
