//! Refunds: applications, queries, and notification payloads.

pub mod refund_apply;
pub mod refund_query;

use vstd::prelude::*;

verus! {

/// Decrypted payload of a refund notification.
#[derive(Debug)]
pub struct RefundNotifyData {
    /// The platform merchant id.
    pub sp_mchid: String,
    /// The sub-merchant id.
    pub sub_mchid: String,
    /// The provider's transaction id.
    pub transaction_id: String,
    /// The merchant's trade number.
    pub out_trade_no: String,
    /// The provider's refund id.
    pub refund_id: String,
    /// The merchant's refund number.
    pub out_refund_no: String,
    /// Refund status.
    pub refund_status: String,
    /// When the refund succeeded (ISO-8601 text with offset), when it did.
    pub success_time: Option<String>,
    /// The account the refund went to.
    pub user_received_account: String,
    /// Amounts of the refund.
    pub amount: RefundAmount,
    /// The account the refund was paid from, when returned.
    pub refund_account: Option<String>,
}

/// Amounts of a refund notification.
#[derive(Debug)]
pub struct RefundAmount {
    /// Original order amount, in cents.
    pub total: i32,
    /// Refund amount, in cents.
    pub refund: i32,
    /// What the payer originally paid, in cents.
    pub payer_total: i32,
    /// What the payer gets back, in cents.
    pub payer_refund: i32,
}

} // verus!
