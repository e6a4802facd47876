//! Verified core of the iCloudPD optimizer's legacy upload migration: the rules that decide
//! whether sealed evidence, recovery receipts and local mirrors may be trusted.

pub mod digest;
pub mod error;
pub mod identity;
pub mod path;
pub mod text;
pub mod order;
pub mod phase;
pub mod quarantine;
pub mod cloudkit;
pub mod document;
pub mod manifest;
pub mod devices;
pub mod plan;
pub mod canonicalization;
pub mod json;
pub mod audit;
pub mod validation;
pub mod sealed;
pub mod signer;
pub mod conversion;
pub mod layout;
pub mod recovery;
pub mod receipt;
pub mod historical;
pub mod load;
pub mod gather;
pub mod cohort;
pub mod generate;
pub mod output;
pub mod issue;
pub mod rotate;
pub mod local_mirror;
pub mod held;
pub mod report;
pub mod round_trip;
