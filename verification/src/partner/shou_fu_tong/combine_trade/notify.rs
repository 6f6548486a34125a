//! Decrypted payloads of combined-trade payment notifications.

use vstd::prelude::*;

verus! {

/// Decrypted payload of a payment notification.
#[derive(Debug, Clone)]
pub struct TradeNotifyData {
    /// The combining application id.
    pub combine_appid: String,
    /// The combining merchant id.
    pub combine_mchid: String,
    /// The merchant's combined trade number.
    pub combine_out_trade_no: String,
    /// Scene information, when present.
    pub scene_info: Option<SceneInfo>,
    /// The sub-orders paid.
    pub sub_orders: Vec<SubOrder>,
    /// The payer.
    pub combine_payer_info: CombinePayerInfo,
}

/// Scene information of a payment notification.
#[derive(Debug, Clone)]
pub struct SceneInfo {
    /// The merchant-side device id.
    pub device_id: String,
}

/// One sub-order of a payment notification.
#[derive(Debug, Clone)]
pub struct SubOrder {
    /// The sub-order's merchant id.
    pub mchid: String,
    /// Trade type.
    pub trade_type: String,
    /// Trade state.
    pub trade_state: String,
    /// Paying bank.
    pub bank_type: String,
    /// Attached data.
    pub attach: String,
    /// When payment completed.
    pub success_time: String,
    /// The provider's transaction id.
    pub transaction_id: String,
    /// The merchant's trade number of the sub-order.
    pub out_trade_no: String,
    /// The sub-merchant id.
    pub sub_mchid: String,
    /// The sub-merchant application id, when bound.
    pub sub_appid: Option<String>,
    /// Order amounts.
    pub amount: Amount,
    /// Promotion details, when present.
    pub promotion_detail: Option<Vec<PromotionDetail>>,
}

/// Amounts of a notified sub-order.
#[derive(Debug, Clone)]
pub struct Amount {
    /// Listed amount, in cents.
    pub total_amount: i32,
    /// Listed currency code.
    pub currency: String,
    /// Cash paid, in cents.
    pub payer_amount: i64,
    /// Cash currency code.
    pub payer_currency: String,
    /// Settlement rate, when cross-currency.
    pub settlement_rate: Option<i32>,
}

/// One promotion applied to a notified sub-order.
#[derive(Debug, Clone)]
pub struct PromotionDetail {
    /// Coupon id.
    pub coupon_id: String,
    /// Promotion name, when present.
    pub name: Option<String>,
    /// Promotion scope, when present.
    pub scope: Option<String>,
    /// Promotion type, when present.
    pub type_: Option<String>,
    /// Coupon amount, in cents.
    pub amount: i32,
    /// Activity id, when present.
    pub stock_id: Option<String>,
    /// The provider's contribution, in cents.
    pub wechatpay_contribute: Option<i32>,
    /// The merchant's contribution, in cents.
    pub merchant_contribute: Option<i32>,
    /// Other contributions, in cents.
    pub other_contribute: Option<i32>,
    /// Promotion currency code, when present.
    pub currency: Option<String>,
    /// Per-item details, when present.
    pub goods_detail: Option<Vec<GoodsDetail>>,
}

/// One item of a promotion's detail.
#[derive(Debug, Clone)]
pub struct GoodsDetail {
    /// Item code.
    pub goods_id: String,
    /// Item quantity.
    pub quantity: i32,
    /// Item unit price, in cents.
    pub unit_price: i32,
    /// Item discount, in cents.
    pub discount_amount: Option<i32>,
    /// Item remark, when present.
    pub goods_remark: Option<String>,
}

/// The payer of a notified combined order.
#[derive(Debug, Clone)]
pub struct CombinePayerInfo {
    /// The payer's open id under the combining application.
    pub openid: String,
}

} // verus!
