//! Transactional core of an on-ledger NFT marketplace.
//!
//! Three atomic operations over shared marketplace state: issuing a unique
//! asset with its descriptive record (`market::mint_nft`), publishing a sale
//! offer (`market::list_nft`), and settling a sale with payment, royalty
//! claw-back and custody transfer (`market::buy_nft`). Every operation either
//! commits all of its state changes or none of them, and each contract states
//! exactly which error a rejected transition reports.

pub mod derivation;
pub mod error;
pub mod market;
pub mod records;
pub mod registry;
pub mod token;
