//! A small proof-of-work ledger: transactions are batched into blocks, each
//! block commits to its transactions through a Merkle digest and to its
//! predecessor through the digest of the previous header.

pub mod digest;
pub mod model;
pub mod canonical;
pub mod pow;
pub mod chain;
pub mod merkle;
pub mod poll;
pub mod pair;
