//! A decentralized advertising marketplace core: sellers list ad slots at a
//! fixed price or by auction, buyers purchase or bid, and an advertiser's
//! payment sits in escrow until it is released to the publisher or refunded.
//!
//! The crate verifies the transactional business rules: when money may move,
//! who may trigger each transition, and how the slot lifecycle interlocks with
//! fund custody. The ledger substrate that persists records, authenticates
//! callers, supplies the current time and executes balance transfers is an
//! external collaborator; it is modeled by plain values (`AccountId`,
//! `LedgerAccount`, a timestamp argument) that a host passes in.

pub mod account;
pub mod marketplace;
pub mod payments;
