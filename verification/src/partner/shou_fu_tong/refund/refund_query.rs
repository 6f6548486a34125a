//! Refund queries.

use vstd::prelude::*;

verus! {

/// Response of a refund query.
#[derive(Debug)]
pub struct RefundQueryResponseBody {
    /// The provider's refund id.
    pub refund_id: String,
    /// The merchant's refund number.
    pub out_refund_no: String,
    /// The provider's transaction id.
    pub transaction_id: String,
    /// The merchant's trade number.
    pub out_trade_no: String,
    /// Refund channel.
    pub channel: Option<String>,
    /// The account the refund went to.
    pub user_received_account: Option<String>,
    /// When the refund succeeded, when it did.
    pub success_time: Option<String>,
    /// When the refund was created.
    pub create_time: String,
    /// Refund status.
    pub status: String,
    /// Amounts of the refund.
    pub amount: RefundAmount,
    /// Promotion details, when present.
    pub promotion_detail: Option<Vec<PromotionDetail>>,
    /// The account the refund was paid from, when returned.
    pub refund_account: Option<String>,
    /// The funds account, when chosen.
    pub funds_account: Option<String>,
}

/// Amounts of a refund query response.
#[derive(Debug)]
pub struct RefundAmount {
    /// Refund amount, in cents.
    pub refund: i32,
    /// The accounts the refund is paid from, when split.
    pub from: Option<Vec<RefundFrom>>,
    /// What the payer gets back, in cents.
    pub payer_refund: i32,
    /// Discount part of the refund, in cents.
    pub discount_refund: Option<i32>,
    /// Currency code.
    pub currency: Option<String>,
    /// Advance part of the refund, in cents.
    pub advance: Option<i32>,
}

/// One source account of a split refund.
#[derive(Debug)]
pub struct RefundFrom {
    /// The account.
    pub account: String,
    /// Amount taken from it, in cents.
    pub amount: i32,
}

/// One promotion's share of a refund.
#[derive(Debug)]
pub struct PromotionDetail {
    /// Promotion id.
    pub promotion_id: String,
    /// Promotion scope.
    pub scope: String,
    /// Promotion type.
    pub type_: String,
    /// Promotion amount, in cents.
    pub amount: i32,
    /// Refunded part of the promotion, in cents.
    pub refund_amount: i32,
}

} // verus!
