//! Settlement account queries and modification.

use vstd::prelude::*;

verus! {

/// A settlement account modification.
#[derive(Debug)]
pub struct SettlementModifyData {
    /// Modification mode.
    pub modify_mode: String,
    /// Account type.
    pub account_type: String,
    /// Account bank.
    pub account_bank: String,
    /// Full bank name with branch, when required.
    pub bank_name: Option<String>,
    /// Bank branch id, when required.
    pub bank_branch_id: Option<String>,
    /// Account number, encrypted as a sensitive field.
    pub account_number: String,
    /// Account holder name, encrypted, when required.
    pub account_name: Option<String>,
}

/// Response of a settlement account modification.
#[derive(Debug)]
pub struct SettlementModifyResponse {
    /// The application number of the modification.
    pub application_no: String,
}

/// Status of a settlement account modification.
#[derive(Debug)]
pub struct QuerySettlementModifyResponse {
    /// Masked account holder name.
    pub account_name: String,
    /// Account type.
    pub account_type: String,
    /// Account bank.
    pub account_bank: String,
    /// Full bank name with branch, when present.
    pub bank_name: Option<String>,
    /// Bank branch id, when present.
    pub bank_branch_id: Option<String>,
    /// Masked account number.
    pub account_number: String,
    /// Verification result.
    pub verify_result: String,
    /// Why verification failed, when it did.
    pub verify_fail_reason: Option<String>,
    /// When verification finished, when it did.
    pub verify_finish_time: Option<String>,
}

/// The current settlement account.
#[derive(Debug)]
pub struct SettlementQueryResponse {
    /// Account type.
    pub account_type: String,
    /// Account bank.
    pub account_bank: String,
    /// Full bank name with branch, when present.
    pub bank_name: Option<String>,
    /// Bank branch id, when present.
    pub bank_branch_id: Option<String>,
    /// Masked account number.
    pub account_number: String,
    /// Verification result.
    pub verify_result: String,
    /// Why verification failed, when it did.
    pub verify_fail_reason: Option<String>,
}

/// Response of an onboarding application.
#[derive(Debug)]
pub struct ApplymentResponse {
    /// The provider's application id.
    pub applyment_id: u64,
    /// The merchant's application number.
    pub out_request_no: String,
}

} // verus!
