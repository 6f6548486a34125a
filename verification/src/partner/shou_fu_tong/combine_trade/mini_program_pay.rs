//! Mini-program prepay for combined orders.

use vstd::prelude::*;

verus! {

/// A mini-program prepay request for a combined order.
#[derive(Debug, Default)]
pub struct MiniProgramPrepayRequest {
    /// The combining application id.
    pub combine_appid: String,
    /// The combining merchant id.
    pub combine_mchid: String,
    /// The merchant's combined trade number.
    pub combine_out_trade_no: String,
    /// Scene information, when present.
    pub scene_info: Option<SceneInfo>,
    /// The sub-orders to pay.
    pub sub_orders: Vec<SubOrder>,
    /// The payer.
    pub combine_payer_info: CombinePayerInfo,
    /// Earliest payment time, when bounded.
    pub time_start: Option<String>,
    /// Latest payment time, when bounded.
    pub time_expire: Option<String>,
    /// Notification URL.
    pub notify_url: String,
}

/// Scene information of a prepay request.
#[derive(Debug, Default)]
pub struct SceneInfo {
    /// The merchant-side device id, when present.
    pub device_id: Option<String>,
    /// The payer's client IP.
    pub payer_client_ip: String,
}

/// One sub-order of a prepay request.
#[derive(Debug, Default)]
pub struct SubOrder {
    /// The sub-order's merchant id.
    pub mchid: String,
    /// Attached data.
    pub attach: String,
    /// Order amounts.
    pub amount: Amount,
    /// The merchant's trade number of the sub-order.
    pub out_trade_no: String,
    /// The sub-merchant id, when present.
    pub sub_mchid: Option<String>,
    /// Item details, when present.
    pub detail: Option<String>,
    /// Order description.
    pub description: String,
    /// Settlement information, when present.
    pub settle_info: Option<SettleInfo>,
    /// The sub-merchant application id, when bound.
    pub sub_appid: Option<String>,
    /// Goods tag, when present.
    pub goods_tag: Option<String>,
}

/// Amounts of a prepay sub-order.
#[derive(Debug, Default)]
pub struct Amount {
    /// Listed amount, in cents.
    pub total_amount: i32,
    /// Currency code.
    pub currency: String,
}

/// Settlement information of a prepay sub-order.
#[derive(Debug, Default)]
pub struct SettleInfo {
    /// Whether profit sharing is enabled.
    pub profit_sharing: Option<bool>,
    /// Subsidy amount, in cents.
    pub subsidy_amount: Option<i32>,
}

/// The payer of a prepay request.
#[derive(Debug, Default)]
pub struct CombinePayerInfo {
    /// The payer's open id under the combining application.
    pub openid: Option<String>,
    /// The payer's open id under the sub-merchant application.
    pub sub_openid: Option<String>,
}

/// Response of a prepay request.
#[derive(Debug)]
pub struct MiniProgramPrepayResponse {
    /// The prepay id to sign into the mini-program's payment call.
    pub prepay_id: String,
}

} // verus!
