//! Shared units, constants and the error kinds of the engine.

use vstd::prelude::*;

verus! {

/// Fee rates are expressed in basis points (1/10_000).
pub type BasisPoints = u32;

/// Milliseconds since the Unix epoch.
pub type EpochMillis = u64;

/// One NEAR in yoctoNEAR.
pub const NEAR: u128 = 1_000_000_000_000_000_000_000_000;

/// Storage bond that the seller attaches when creating a sale.
pub const STORAGE_PER_SALE: u128 = NEAR / 100;

/// Why an operation was rejected. A rejected operation changes nothing.
#[derive(Clone, Copy, Debug, PartialEq, Eq, Structural)]
pub enum SaleError {
    /// The operation is not allowed at the sale's current stage.
    Stage,
    /// The deposit would promise more sold token than the sale offers.
    Capacity,
    /// The caller has no claimable balance or no deposit in the sale.
    NothingToClaim,
    /// There is nothing to collect, or too little escrowed for a refund.
    InsufficientFunds,
    /// The seller has not deposited enough sold token to cover the buyers.
    NotCovered,
    /// The asset received is neither the sale's sold token nor its payment asset.
    UnknownAsset,
    /// Only the owner may perform this operation.
    Authorization,
    /// The deposit is below the sale's minimum.
    BelowMinDeposit,
    /// A balance would exceed the range of a `u128`.
    Overflow,
    /// No sale has this id.
    UnknownSale,
    /// Another sale already uses this slug.
    DuplicateSlug,
    /// The attached storage bond is too small.
    StorageNotCovered,
    /// The dates are not strictly increasing, or the sale would open in the past.
    InvalidDates,
    /// The transfer message does not hold a sale id.
    InvalidSaleId,
    /// A setting is out of its range.
    InvalidSetting,
    /// Restoring a reversed transfer would break the sale's invariants.
    RollbackConflict,
}

} // verus!
