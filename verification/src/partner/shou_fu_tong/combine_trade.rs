//! Combined orders: queries, closing, prepay and notification payloads.

pub mod mini_program_pay;
pub mod notify;

use vstd::prelude::*;

verus! {

/// A request to close a combined order.
#[derive(Debug)]
pub struct CombineClosData {
    /// The combining application id.
    pub combine_appid: String,
    /// The sub-orders to close.
    pub sub_orders: Vec<ReqCloseSubOrder>,
}

/// One sub-order of a close request.
#[derive(Debug)]
pub struct ReqCloseSubOrder {
    /// The sub-order's merchant id.
    pub mchid: String,
    /// The merchant's trade number of the sub-order.
    pub out_trade_no: String,
    /// The sub-merchant id, when present.
    pub sub_mchid: Option<String>,
    /// The sub-merchant application id, when bound.
    pub sub_appid: Option<String>,
}

/// Response of a combined-order query.
#[derive(Debug)]
pub struct CombineOrderQueryResponse {
    /// The combining application id.
    pub combine_appid: String,
    /// The combining merchant id.
    pub combine_mchid: String,
    /// The payer, when present.
    pub combine_payer_info: Option<CombinePayerInfo>,
    /// The sub-orders, when present.
    pub sub_orders: Option<Vec<SubOrder>>,
    /// Scene information, when present.
    pub scene_info: Option<SceneInfo>,
    /// The merchant's combined trade number.
    pub combine_out_trade_no: String,
}

/// The payer of a combined order.
#[derive(Debug)]
pub struct CombinePayerInfo {
    /// The payer's open id under the combining application.
    pub openid: Option<String>,
}

/// One sub-order of a combined-order query response.
#[derive(Debug)]
pub struct SubOrder {
    /// The sub-order's merchant id.
    pub mchid: String,
    /// Trade type, when present.
    pub trade_type: Option<String>,
    /// Trade state.
    pub trade_state: String,
    /// Paying bank, when present.
    pub bank_type: Option<String>,
    /// Attached data, when present.
    pub attach: Option<String>,
    /// When payment completed (ISO-8601 text with offset), when it did.
    pub success_time: Option<String>,
    /// Order amounts, when present.
    pub amount: Option<Amount>,
    /// The provider's transaction id, when present.
    pub transaction_id: Option<String>,
    /// The merchant's trade number of the sub-order.
    pub out_trade_no: String,
    /// The sub-merchant id, when present.
    pub sub_mchid: Option<String>,
    /// The sub-merchant application id, when bound.
    pub sub_appid: Option<String>,
    /// The payer's open id under the sub-merchant application.
    pub sub_openid: Option<String>,
    /// Promotion details, when present.
    pub promotion_detail: Option<Vec<PromotionDetail>>,
}

/// Amounts of a combined sub-order.
#[derive(Debug)]
pub struct Amount {
    /// Listed amount, in cents.
    pub total_amount: i32,
    /// Cash paid, in cents.
    pub payer_amount: i32,
    /// Listed currency code.
    pub currency: String,
    /// Cash currency code.
    pub payer_currency: String,
    /// Settlement rate, when cross-currency.
    pub settlement_rate: Option<u64>,
}

/// One promotion applied to a sub-order.
#[derive(Debug)]
pub struct PromotionDetail {
    /// Coupon id.
    pub coupon_id: String,
    /// Promotion name, when present.
    pub name: Option<String>,
    /// Promotion scope, when present.
    pub scope: Option<String>,
    /// Promotion type, when present.
    pub type_: Option<String>,
    /// Coupon amount, in cents.
    pub amount: i32,
    /// Activity id, when present.
    pub stock_id: Option<String>,
    /// The provider's contribution, in cents.
    pub wechatpay_contribute: Option<i32>,
    /// The merchant's contribution, in cents.
    pub merchant_contribute: Option<i32>,
    /// Other contributions, in cents.
    pub other_contribute: Option<i32>,
    /// Promotion currency code, when present.
    pub currency: Option<String>,
    /// Per-item details, when present.
    pub goods_detail: Option<Vec<GoodsDetail>>,
}

/// One item of a promotion's detail.
#[derive(Debug)]
pub struct GoodsDetail {
    /// Item code.
    pub goods_id: String,
    /// Item quantity.
    pub quantity: i32,
    /// Item unit price, in cents.
    pub unit_price: i32,
    /// Item discount, in cents.
    pub discount_amount: i32,
    /// Item remark, when present.
    pub goods_remark: Option<String>,
}

/// Scene information of a combined order.
#[derive(Debug)]
pub struct SceneInfo {
    /// The merchant-side device id, when present.
    pub device_id: Option<String>,
}

} // verus!
