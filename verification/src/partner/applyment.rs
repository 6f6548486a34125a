//! Sub-merchant onboarding: image upload and personal-banking queries.

use vstd::prelude::*;

verus! {

/// Response of the image upload endpoint.
#[derive(Debug)]
pub struct UploadResponse {
    /// Media id of the uploaded image.
    pub media_id: String,
}

/// Response of the personal-banking bank list endpoint.
#[derive(Debug)]
pub struct PersonalBankingResponse {
    /// Total number of banks available.
    pub total_count: u32,
    /// Number of banks in this page.
    pub count: u32,
    /// The banks of this page.
    pub data: Option<Vec<BankData>>,
    /// Offset of this page.
    pub offset: u32,
    /// Links to neighbouring pages.
    pub links: Links,
}

/// One bank entry of a personal-banking page.
#[derive(Debug)]
pub struct BankData {
    /// Bank alias.
    pub bank_alias: String,
    /// Bank alias code.
    pub bank_alias_code: String,
    /// Account bank name.
    pub account_bank: String,
    /// Account bank code.
    pub account_bank_code: u32,
    /// Whether a branch must be supplied for this bank.
    pub need_bank_branch: bool,
}

/// Pagination links of a personal-banking page.
#[derive(Debug)]
pub struct Links {
    /// The next page.
    pub next: String,
    /// The previous page.
    pub prev: String,
    /// This page.
    pub self_link: String,
}

} // verus!
