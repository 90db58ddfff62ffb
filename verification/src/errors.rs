use vstd::prelude::*;

verus! {

/// Failure modes of the protocol operations. Every failing operation
/// leaves all state unchanged.
#[derive(Clone, Copy, Debug, PartialEq, Eq, Structural)]
pub enum FyrstError {
    /// Escrow collateral is below `MIN_COLLATERAL`.
    InsufficientCollateral,
    /// The escrow time lock has not elapsed yet.
    SafePeriodActive,
    /// Reused by the refund path: the escrow is not marked rugged.
    SafePeriodExpired,
    /// The caller is not the owner or authority the operation demands.
    Unauthorized,
    /// The escrow was already released.
    EscrowAlreadyReleased,
    /// Not enough value: a zero buy, a sell the reserve cannot cover, a
    /// graduation below the threshold, or a refund beyond the collateral.
    InsufficientFunds,
    /// A zero sell, or a sell of more tokens than the curve has supplied.
    InsufficientTokens,
    /// The curve has graduated; trading on it is disabled forever.
    AlreadyGraduated,
    /// This buyer's refund was already paid.
    RefundAlreadyProcessed,
    /// The computed refund share is zero.
    NoBuyerRecord,
    /// A checked arithmetic step exceeded its integer range.
    MathOverflow,
    /// The curve price computed to zero.
    InvalidPrice,
    /// The escrow is rugged and the release gate is on.
    TokenIsRugged,
    /// The escrow is already marked rugged.
    EscrowIsRugged,
    /// Metadata name, symbol, or URI exceeds its byte-length limit.
    InvalidMetadata,
    /// The asset identity handed in does not match the curve's.
    TokenMintMismatch,
}

} // verus!
