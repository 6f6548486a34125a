//! Profit sharing: requests, queries, finishing, and notification payloads.

pub mod share_apply;
pub mod share_finish;
pub mod share_query;
pub mod share_remainder;

use vstd::prelude::*;

verus! {

/// One profit-share receiver of a notification payload.
#[derive(Debug)]
pub struct Receiver {
    /// Receiver type.
    pub receiver_type: String,
    /// Receiver account.
    pub account: String,
    /// Amount shared, in cents.
    pub amount: u32,
    /// Share description.
    pub description: String,
}

/// Decrypted payload of a profit-share notification.
#[derive(Debug)]
pub struct ProfitShareNotifyData {
    /// The platform merchant id.
    pub sp_mchid: String,
    /// The sub-merchant id.
    pub sub_mchid: String,
    /// The provider's transaction id.
    pub transaction_id: String,
    /// The provider's share order id.
    pub order_id: String,
    /// The merchant's share order number.
    pub out_order_no: String,
    /// The receiver this notification is about.
    pub receiver: Receiver,
    /// When the share succeeded (ISO-8601 text with offset).
    pub success_time: String,
}

} // verus!
