//! Indexer-side bookkeeping for TAP receipts and receipt aggregate vouchers.
pub mod address;
pub mod address_map;
pub mod range;
pub mod receipt;
pub mod receipt_storage;
pub mod receipt_checks;
pub mod rav_storage;
pub mod collateral;
pub mod rav_notifications;
pub mod config;
