//! Onboarding application status queries.

use vstd::prelude::*;

verus! {

/// Status of an onboarding application.
#[derive(Debug)]
pub struct ApplymentQueryResponse {
    /// Application state.
    pub applyment_state: String,
    /// Human-readable description of the state.
    pub applyment_state_desc: String,
    /// Signing URL, when signing is pending.
    pub sign_url: Option<String>,
    /// The sub-merchant id, once assigned.
    pub sub_mchid: Option<String>,
    /// Account validation instructions, when validation is pending.
    pub account_validation: Option<AccountValidation>,
    /// Audit rejections, when rejected.
    pub audit_detail: Option<Vec<AuditDetail>>,
    /// Legal-person validation URL, when validation is pending.
    pub legal_validation_url: Option<String>,
    /// The merchant's application number.
    pub out_request_no: String,
    /// The provider's application id.
    pub applyment_id: u64,
    /// Signing state, when present.
    pub sign_state: Option<String>,
}

/// Instructions for validating the settlement account.
#[derive(Debug)]
pub struct AccountValidation {
    /// Payer account name, encrypted as a sensitive field.
    pub account_name: String,
    /// Payer account number, encrypted, when present.
    pub account_no: Option<String>,
    /// Amount to transfer, in cents.
    pub pay_amount: u32,
    /// Destination account number.
    pub destination_account_number: String,
    /// Destination account name.
    pub destination_account_name: String,
    /// Destination bank.
    pub destination_account_bank: String,
    /// Destination city.
    pub city: String,
    /// Transfer remark to carry.
    pub remark: String,
    /// Deadline for the transfer.
    pub deadline: String,
}

/// One rejected parameter of an audited application.
#[derive(Debug)]
pub struct AuditDetail {
    /// The rejected parameter's name.
    pub param_name: String,
    /// Why it was rejected.
    pub reject_reason: String,
}

} // verus!
