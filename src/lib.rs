//! Client-side model of how a ledger node lays out its state: storage keys
//! derived from module and item names, and typed decoding of the raw values
//! read under them at a historical block.
pub mod hashing;
pub mod issuance;
pub mod network;
pub mod records;
pub mod scale;
pub mod storage;
