//! Profit-share requests.

use vstd::prelude::*;

verus! {

/// One receiver of a profit-share request.
#[derive(Debug)]
pub struct Receiver {
    /// Receiver type.
    pub receiver_type: String,
    /// Receiver account.
    pub receiver_account: String,
    /// Amount to share, in cents.
    pub amount: u32,
    /// Share description.
    pub description: String,
    /// Receiver name, when required.
    pub receiver_name: Option<String>,
}

/// A profit-share request.
#[derive(Debug)]
pub struct ShareRequestBody {
    /// The application id.
    pub appid: String,
    /// The sub-merchant id.
    pub sub_mchid: String,
    /// The provider's transaction id.
    pub transaction_id: String,
    /// The merchant's share order number.
    pub out_order_no: String,
    /// The receivers to share to.
    pub receivers: Vec<Receiver>,
    /// Whether this finishes sharing for the transaction.
    pub finish: bool,
}

/// One receiver of a profit-share response.
#[derive(Debug)]
pub struct ResponseReceiver {
    /// The receiving merchant id.
    pub receiver_mchid: String,
    /// Amount shared, in cents.
    pub amount: u32,
    /// Share description.
    pub description: String,
    /// Share result.
    pub result: String,
    /// When the share finished.
    pub finish_time: String,
    /// Failure reason, when failed.
    pub fail_reason: Option<String>,
    /// Receiver type.
    pub receiver_type: String,
    /// Receiver account.
    pub receiver_account: String,
    /// Detail id of this share.
    pub detail_id: String,
}

/// Response of a profit-share request.
#[derive(Debug)]
pub struct ShareResponseBody {
    /// The sub-merchant id.
    pub sub_mchid: String,
    /// The provider's transaction id.
    pub transaction_id: String,
    /// The merchant's share order number.
    pub out_order_no: String,
    /// The provider's share order id.
    pub order_id: String,
    /// The receivers, when returned.
    pub receivers: Option<Vec<ResponseReceiver>>,
    /// Share order status.
    pub status: String,
}

} // verus!
