//! Verified record checks and decisions of a decentralised AI-service
//! marketplace: listings, runner and hardware offers, quotes, payments,
//! escrow, settlement, refunds, slashing, media jobs and miner lifecycle.
pub mod text;
pub mod text_order;
pub mod store_order;
pub mod ieee;
pub mod findings;
pub mod kinds;
pub mod clock;
pub mod listing;
pub mod offers;
pub mod tiers;
pub mod local_runner;
pub mod settlement;
pub mod refund;
pub mod slashing;
pub mod quote;
pub mod payment;
pub mod escrow;
pub mod receipt_settlement;
pub mod media;
pub mod miner;
pub mod shortlist;
pub mod capability;
pub mod stores;
pub mod device_stores;
