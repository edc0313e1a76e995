use vstd::prelude::*;

verus! {

/// Every way an operation of the ledger can be rejected.
///
/// All errors are synchronous rejections with no partial effect: an
/// operation that returns one of these leaves the state exactly as it was.
#[derive(Clone, Copy, Debug, PartialEq, Eq, Structural)]
pub enum TokenError {
    /// The caller of an owner-gated operation is not the owner.
    Unauthorized,
    /// A contribution score lies outside the range 0 to 100.
    InvalidMetric,
    /// A redemption option was submitted with a cost of zero.
    InvalidCost,
    /// The requested redemption option does not exist in the catalog.
    OptionNotFound,
    /// The requested redemption option exists but is not available.
    OptionUnavailable,
    /// The redeemed amount does not cover the option's cost.
    InsufficientRedemptionAmount,
    /// The caller's balance does not cover the debited amount.
    InsufficientBalance,
    /// A catalog entry names a benefit outside the known set; the call
    /// aborts before any debit, since the catalog itself is corrupt.
    InvalidRedemptionOption,
}

} // verus!
