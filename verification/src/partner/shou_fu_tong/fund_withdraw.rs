//! Withdrawal booking and status queries.

use vstd::prelude::*;

verus! {

/// Status of a platform withdrawal.
#[derive(Debug)]
pub struct QueryPlatformWithdrawResponse {
    /// Withdrawal status.
    pub status: String,
    /// The provider's withdrawal id.
    pub withdraw_id: String,
    /// The merchant's withdrawal request number.
    pub out_request_no: String,
    /// Amount, in cents.
    pub amount: u64,
    /// When the withdrawal was created.
    pub create_time: String,
    /// When the withdrawal was last updated.
    pub update_time: String,
    /// Failure reason, if any.
    pub reason: String,
    /// Merchant remark.
    pub remark: String,
    /// Bank memo.
    pub bank_memo: String,
    /// Account type.
    pub account_type: String,
    /// Suggested solution on failure.
    pub solution: String,
    /// Masked account number.
    pub account_number: String,
    /// Account bank.
    pub account_bank: String,
    /// Bank name, when present.
    pub bank_name: Option<String>,
}

/// A platform withdrawal request.
#[derive(Debug)]
pub struct PlatformWithdrawRequest {
    /// The merchant's withdrawal request number.
    pub out_request_no: String,
    /// Amount, in cents.
    pub amount: u64,
    /// Merchant remark.
    pub remark: Option<String>,
    /// Bank memo.
    pub bank_memo: Option<String>,
    /// Account type.
    pub account_type: String,
    /// Notification URL.
    pub notify_url: Option<String>,
}

/// Response of a platform withdrawal request.
#[derive(Debug)]
pub struct PlatformWithdrawResponse {
    /// The provider's withdrawal id.
    pub withdraw_id: String,
    /// The merchant's withdrawal request number.
    pub out_request_no: String,
}

/// A sub-merchant withdrawal request.
#[derive(Debug)]
pub struct SubMchWithdrawalRequest {
    /// The sub-merchant id.
    pub sub_mchid: String,
    /// The merchant's withdrawal request number.
    pub out_request_no: String,
    /// Amount, in cents.
    pub amount: u32,
    /// Merchant remark.
    pub remark: Option<String>,
    /// Bank memo.
    pub bank_memo: Option<String>,
    /// Account type.
    pub account_type: Option<String>,
    /// Notification URL.
    pub notify_url: Option<String>,
}

/// Response of a sub-merchant withdrawal request.
#[derive(Debug)]
pub struct SubMchWithdrawResponse {
    /// The sub-merchant id.
    pub sub_mchid: String,
    /// The provider's withdrawal id.
    pub withdraw_id: String,
    /// The merchant's withdrawal request number.
    pub out_request_no: String,
}

/// Status of a sub-merchant withdrawal.
#[derive(Debug)]
pub struct QuerySubMchWithdrawResponse {
    /// The platform merchant id.
    pub sp_mchid: String,
    /// The sub-merchant id.
    pub sub_mchid: String,
    /// Withdrawal status.
    pub status: String,
    /// The provider's withdrawal id.
    pub withdraw_id: String,
    /// The merchant's withdrawal request number.
    pub out_request_no: String,
    /// Amount, in cents.
    pub amount: u64,
    /// When the withdrawal was created.
    pub create_time: String,
    /// When the withdrawal was last updated.
    pub update_time: String,
    /// Failure reason, if any.
    pub reason: String,
    /// Merchant remark.
    pub remark: String,
    /// Bank memo.
    pub bank_memo: String,
    /// Account type.
    pub account_type: String,
    /// Masked account number.
    pub account_number: String,
    /// Account bank.
    pub account_bank: String,
    /// Bank name, when present.
    pub bank_name: Option<String>,
}

/// Where to fetch the day's failed-withdrawal file.
#[derive(Debug)]
pub struct WithdrawFailFileInfo {
    /// Digest algorithm of the file.
    pub hash_type: String,
    /// Digest value of the file.
    pub hash_value: String,
    /// Download URL.
    pub download_url: String,
}

} // verus!
