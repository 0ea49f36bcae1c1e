use vstd::prelude::*;

verus! {

/// The outcomes by which an operation of the ledger rejects a call.
///
/// Every rejection is returned to the immediate caller and leaves the
/// records it was given unchanged; nothing is retried internally.
#[derive(Clone, Copy, Debug, PartialEq, Eq, Structural)]
pub enum ErrorCode {
    /// The participant already holds a nonzero-amount vesting schedule for
    /// this pool; a second bid is a terminal business-rule rejection.
    AlreadyBid,
    /// Accepting the bid would push the pool's aggregate quote intake over
    /// its cap.
    CapFull,
    /// The requested claim exceeds the currently claimable balance; the
    /// caller may retry once more time has elapsed.
    NotEnoughVestedToken,
    /// A checked arithmetic step exceeded the representable range or divided
    /// by zero; always fatal to the current call, never silently wrapped.
    ArithmeticOverflow,
}

} // verus!
