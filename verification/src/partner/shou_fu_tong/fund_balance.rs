//! Account balance queries.

use vstd::prelude::*;

verus! {

/// Real-time or end-of-day balance of a sub-merchant account.
#[derive(Debug)]
pub struct SubMchBalanceResponse {
    /// The sub-merchant id.
    pub sub_mchid: String,
    /// Available amount, in cents.
    pub available_amount: u32,
    /// Pending amount, in cents.
    pub pending_amount: Option<u32>,
    /// Account type.
    pub account_type: Option<String>,
}

/// Real-time or end-of-day balance of a platform account.
#[derive(Debug)]
pub struct PlatformBalanceResponse {
    /// Available amount, in cents.
    pub available_amount: u32,
    /// Pending amount, in cents.
    pub pending_amount: Option<u32>,
}

} // verus!
