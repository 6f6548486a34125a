//! Refund applications.

use vstd::prelude::*;

verus! {

/// A refund application.
#[derive(Debug)]
pub struct RefundRequestBody {
    /// The sub-merchant id.
    pub sub_mchid: String,
    /// The platform application id.
    pub sp_appid: String,
    /// The sub-merchant application id, when bound.
    pub sub_appid: Option<String>,
    /// The provider's transaction id; this or `out_trade_no` selects the
    /// order.
    pub transaction_id: Option<String>,
    /// The merchant's trade number; this or `transaction_id` selects the
    /// order.
    pub out_trade_no: Option<String>,
    /// The merchant's refund number.
    pub out_refund_no: String,
    /// Refund reason.
    pub reason: Option<String>,
    /// Amounts to refund.
    pub amount: Amount,
    /// Notification URL.
    pub notify_url: String,
    /// The account to refund from, when chosen.
    pub refund_account: Option<String>,
    /// The funds account, when chosen.
    pub funds_account: Option<String>,
}

/// Amounts of a refund application.
#[derive(Debug)]
pub struct Amount {
    /// Refund amount, in cents.
    pub refund: i32,
    /// The accounts the refund is paid from, when split.
    pub from: Option<Vec<FromAccount>>,
    /// Original order amount, in cents.
    pub total: i32,
    /// Currency code.
    pub currency: String,
}

/// One source account of a split refund.
#[derive(Debug)]
pub struct FromAccount {
    /// The account.
    pub account: String,
    /// Amount taken from it, in cents.
    pub amount: i32,
}

/// Response of a refund application.
#[derive(Debug)]
pub struct RefundResponseBody {
    /// The provider's refund id.
    pub refund_id: String,
    /// The merchant's refund number.
    pub out_refund_no: String,
    /// When the refund was created.
    pub create_time: String,
    /// Amounts of the refund.
    pub amount: AmountResponse,
    /// Promotion details, when present.
    pub promotion_detail: Option<Vec<PromotionDetail>>,
    /// The account the refund was paid from, when returned.
    pub refund_account: Option<String>,
}

/// Amounts of a refund response.
#[derive(Debug)]
pub struct AmountResponse {
    /// Refund amount, in cents.
    pub refund: i32,
    /// The accounts the refund is paid from, when split.
    pub from: Option<Vec<FromAccount>>,
    /// What the payer gets back, in cents.
    pub payer_refund: i32,
    /// Discount part of the refund, in cents.
    pub discount_refund: Option<i32>,
    /// Currency code.
    pub currency: Option<String>,
    /// Advance part of the refund, in cents.
    pub advance: Option<i32>,
}

/// One promotion's share of a refund.
#[derive(Debug)]
pub struct PromotionDetail {
    /// Promotion id.
    pub promotion_id: String,
    /// Promotion scope.
    pub scope: String,
    /// Promotion type.
    pub type_: String,
    /// Promotion amount, in cents.
    pub amount: i32,
    /// Refunded part of the promotion, in cents.
    pub refund_amount: i32,
}

} // verus!
