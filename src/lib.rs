//! A custodial balance ledger for a single native denomination: deposits,
//! owner-granted rewards (single and bulk), withdrawals and owner management.

pub mod balances;
pub mod error;
pub mod msg;
pub mod response;
pub mod ledger;
pub mod contract;
pub mod laws;
