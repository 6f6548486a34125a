//! Profit-share queries.

use vstd::prelude::*;

verus! {

/// Response of a profit-share query.
#[derive(Debug)]
pub struct ShareQueryResponse {
    /// The sub-merchant id.
    pub sub_mchid: String,
    /// The provider's transaction id.
    pub transaction_id: String,
    /// The merchant's share order number.
    pub out_order_no: String,
    /// The provider's share order id.
    pub order_id: String,
    /// Share order status.
    pub status: String,
    /// The receivers, when returned.
    pub receivers: Option<Vec<Receiver>>,
    /// Amount of the finishing share, when finished.
    pub finish_amount: Option<i32>,
    /// Description of the finishing share, when finished.
    pub finish_description: Option<String>,
}

/// One receiver of a profit-share query response.
#[derive(Debug)]
pub struct Receiver {
    /// The receiving merchant id.
    pub receiver_mchid: String,
    /// Amount shared, in cents.
    pub amount: i32,
    /// Share description.
    pub description: String,
    /// Share result.
    pub result: String,
    /// When the share finished.
    pub finish_time: String,
    /// Failure reason, when failed.
    pub fail_reason: Option<String>,
    /// Receiver type.
    pub receiver_type: String,
    /// Receiver account.
    pub receiver_account: String,
    /// Detail id of this share.
    pub detail_id: String,
}

} // verus!
