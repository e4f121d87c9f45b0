//! Verified core of the QuickLendX invoice-financing protocol: invoice
//! settlement, escrow funding and refunds, dispute handling, bid management
//! and paginated queries, modelled over plain values.
pub mod ascii;
pub mod contract;
pub mod errors;
pub mod profits;
pub mod settlement;
pub mod types;
pub mod bids;
pub mod escrow;
pub mod invoices;
pub mod dispute;
pub mod kyc;
pub mod pagination;
pub mod queries;
pub mod api;
pub mod lifecycle;
pub mod laws;

pub use crate::pagination::MAX_QUERY_LIMIT;
