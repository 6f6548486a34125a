//! Finishing a profit-share order.

use vstd::prelude::*;

verus! {

/// A request to finish sharing for a transaction.
#[derive(Debug)]
pub struct ShareFinishRequestBody {
    /// The sub-merchant id.
    pub sub_mchid: String,
    /// The provider's transaction id.
    pub transaction_id: String,
    /// The merchant's share order number.
    pub out_order_no: String,
    /// Finish description.
    pub description: String,
}

/// Response of a finish request.
#[derive(Debug)]
pub struct ShareFinishResponseBody {
    /// The sub-merchant id.
    pub sub_mchid: String,
    /// The provider's transaction id.
    pub transaction_id: String,
    /// The merchant's share order number.
    pub out_order_no: String,
    /// The provider's share order id.
    pub order_id: String,
}

} // verus!
