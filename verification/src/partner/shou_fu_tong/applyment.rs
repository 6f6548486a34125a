//! Sub-merchant onboarding applications.

pub mod apply_query;
pub mod settlement;
pub mod utils;

use vstd::prelude::*;

verus! {

/// Response of an onboarding application.
#[derive(Debug)]
pub struct ApplymentResponse {
    /// The provider's application id.
    pub applyment_id: u64,
    /// The merchant's application number.
    pub out_request_no: String,
}

/// An onboarding application for a sub-merchant.
#[derive(Debug)]
pub struct SubMerchantApplication {
    /// The merchant's application number.
    pub out_request_no: String,
    /// The organization type of the applicant.
    pub organization_type: OrganizationType,
    /// Whether the applicant is a financial institution.
    pub finance_institution: Option<bool>,
    /// Business licence information, when required.
    pub business_license_info: Option<BusinessLicenseInfo>,
    /// Financial-institution licence information, when required.
    pub finance_institution_info: Option<FinanceInstitutionInfo>,
    /// Whose identity documents are supplied.
    pub id_holder_type: Option<IdHolderType>,
    /// The kind of identity document supplied.
    pub id_doc_type: Option<IdDocType>,
    /// Authorization letter media id, when required.
    pub authorize_letter_copy: Option<String>,
    /// Identity card information, when the document is an identity card.
    pub id_card_info: Option<IdCardInfo>,
    /// Other identity document information, otherwise.
    pub id_doc_info: Option<IdDocInfo>,
    /// Whether the operator or legal person is the beneficial owner.
    pub owner: Option<bool>,
    /// The ultimate beneficial owners, when the operator is not.
    pub ubo_info_list: Option<Vec<UboInfo>>,
    /// Settlement account information.
    pub account_info: AccountInfo,
    /// The administrator's contact information.
    pub contact_info: ContactInfo,
    /// The sales scene of the shop.
    pub sales_scene_info: SalesSceneInfo,
    /// Settlement rule, when chosen.
    pub settlement_info: Option<SettlementInfo>,
    /// Short merchant name shown to buyers.
    pub merchant_shortname: String,
    /// Special qualification image media ids, when required.
    pub qualifications: Option<Vec<String>>,
    /// Additional material image media ids, when supplied.
    pub business_addition_pics: Option<Vec<String>>,
    /// Additional material description, when required.
    pub business_addition_desc: Option<String>,
}

/// Settlement rule of an application.
#[derive(Debug)]
pub struct SettlementInfo {
    /// Settlement rule id.
    pub settlement_id: Option<i32>,
    /// The industry the rule maps to.
    pub qualification_type: Option<String>,
}

/// Sales scene of the applying shop.
#[derive(Debug)]
pub struct SalesSceneInfo {
    /// Shop name.
    pub store_name: String,
    /// Shop URL; this or the QR code is required.
    pub store_url: Option<String>,
    /// Shop QR code media id; this or the URL is required.
    pub store_qr_code: Option<String>,
    /// The merchant's mini-program application id, when bound.
    pub mini_program_sub_appid: Option<String>,
}

/// The administrator's contact information.
#[derive(Debug)]
pub struct ContactInfo {
    /// Administrator type.
    pub contact_type: String,
    /// Administrator name.
    pub contact_name: String,
    /// Administrator document kind, when the administrator is an agent.
    pub contact_id_doc_type: Option<IdDocType>,
    /// Administrator document number.
    pub contact_id_card_number: Option<String>,
    /// Document front photo media id.
    pub contact_id_doc_copy: Option<String>,
    /// Document back photo media id.
    pub contact_id_doc_copy_back: Option<String>,
    /// Document validity start.
    pub contact_id_doc_period_begin: Option<String>,
    /// Document validity end.
    pub contact_id_doc_period_end: Option<String>,
    /// Business authorization letter media id.
    pub business_authorization_letter: Option<String>,
    /// Administrator mobile phone.
    pub mobile_phone: String,
}

/// Settlement account information.
#[derive(Debug)]
pub struct AccountInfo {
    /// Account type.
    pub bank_account_type: String,
    /// Account bank.
    pub account_bank: String,
    /// Account holder name, encrypted as a sensitive field.
    pub account_name: String,
    /// Province and city code of the bank.
    pub bank_address_code: String,
    /// Bank branch id; this or the full bank name may be required.
    pub bank_branch_id: Option<String>,
    /// Full bank name with branch; this or the branch id may be required.
    pub bank_name: Option<String>,
    /// Account number, encrypted as a sensitive field.
    pub account_number: String,
}

/// One ultimate beneficial owner.
#[derive(Debug)]
pub struct UboInfo {
    /// The owner's document kind.
    pub ubo_id_doc_type: Option<IdDocType>,
    /// Document front photo media id.
    pub ubo_id_doc_copy: Option<String>,
    /// Document back photo media id.
    pub ubo_id_doc_copy_back: Option<String>,
    /// The owner's name, encrypted as a sensitive field.
    pub ubo_id_doc_name: Option<String>,
    /// The owner's document number, encrypted as a sensitive field.
    pub ubo_id_doc_number: Option<String>,
    /// The owner's address, encrypted as a sensitive field.
    pub ubo_id_doc_address: Option<String>,
    /// Document validity start.
    pub ubo_id_doc_period_begin: Option<String>,
    /// Document validity end.
    pub ubo_id_doc_period_end: Option<String>,
}

/// Kinds of identity documents.
#[allow(non_camel_case_types)]
#[derive(Debug)]
pub enum IdDocType {
    /// Mainland resident identity card.
    IDENTIFICATION_TYPE_MAINLAND_IDCARD,
    /// Overseas passport.
    IDENTIFICATION_TYPE_OVERSEA_PASSPORT,
    /// Hong Kong resident mainland travel permit.
    IDENTIFICATION_TYPE_HONGKONG,
    /// Macao resident mainland travel permit.
    IDENTIFICATION_TYPE_MACAO,
    /// Taiwan resident mainland travel permit.
    IDENTIFICATION_TYPE_TAIWAN,
    /// Foreigner residence permit.
    IDENTIFICATION_TYPE_FOREIGN_RESIDENT,
    /// Hong Kong or Macao residence permit.
    IDENTIFICATION_TYPE_HONGKONG_MACAO_RESIDENT,
    /// Taiwan residence permit.
    IDENTIFICATION_TYPE_TAIWAN_RESIDENT,
}

/// Identity information from a document other than an identity card.
#[derive(Debug)]
pub struct IdDocInfo {
    /// Name on the document, encrypted as a sensitive field.
    pub id_doc_name: String,
    /// Document number, encrypted as a sensitive field.
    pub id_doc_number: String,
    /// Document front photo media id.
    pub id_doc_copy: String,
    /// Document back photo media id, when the kind has one.
    pub id_doc_copy_back: Option<String>,
    /// Document validity start.
    pub doc_period_begin: String,
    /// Document validity end.
    pub doc_period_end: String,
}

/// Identity information from an identity card.
#[derive(Debug)]
pub struct IdCardInfo {
    /// Portrait side photo media id.
    pub id_card_copy: String,
    /// Emblem side photo media id.
    pub id_card_national: String,
    /// Name on the card, encrypted as a sensitive field.
    pub id_card_name: String,
    /// Card number, encrypted as a sensitive field.
    pub id_card_number: String,
    /// Card validity start.
    pub id_card_valid_time_begin: String,
    /// Card validity end.
    pub id_card_valid_time: String,
}

/// Whose identity documents an application carries.
#[derive(Debug)]
pub enum IdHolderType {
    /// The legal person.
    Legal,
    /// An authorized agent.
    Super,
}

/// Financial-institution licence information.
#[derive(Debug)]
pub struct FinanceInstitutionInfo {
    /// The institution's type.
    pub finance_type: FinanceType,
    /// Licence image media ids.
    pub finance_license_pics: Vec<String>,
}

/// Kinds of financial institutions.
#[derive(Debug)]
pub enum FinanceType {
    /// Commercial or policy bank.
    BankAgent,
    /// Non-bank payment institution.
    PaymentAgent,
    /// Insurance business.
    Insurance,
    /// Exchange, registry or settlement institution.
    TradeAndSettle,
    /// Other financial business.
    Other,
}

/// Organization types of applicants.
#[derive(Debug)]
pub enum OrganizationType {
    /// Micro merchant.
    MicroMerchant,
    /// Individual seller.
    IndividualSeller,
    /// Individually-owned business.
    IndividualBusiness,
    /// Enterprise.
    Enterprise,
    /// Public institution.
    Institution,
    /// Government agency.
    GovernmentAgency,
    /// Social organization.
    SocialOrganization,
}

/// Business licence information.
#[derive(Debug)]
pub struct BusinessLicenseInfo {
    /// Certificate type, when distinguished.
    pub cert_type: Option<String>,
    /// Licence scan media id.
    pub business_license_copy: String,
    /// Licence registration number.
    pub business_license_number: String,
}

} // verus!
