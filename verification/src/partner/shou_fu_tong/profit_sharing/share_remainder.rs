//! Querying the amount not yet shared.

use vstd::prelude::*;

verus! {

/// Response of an unsplit-amount query.
#[derive(Debug)]
pub struct ShareRemainderQueryResponseBody {
    /// The provider's transaction id.
    pub transaction_id: String,
    /// Amount not yet shared, in cents.
    pub unsplit_amount: i32,
}

} // verus!
