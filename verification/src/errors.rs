//! Error taxonomy of the hub ledger and the escrow pact.
//!
//! Validation errors report a bad caller-supplied parameter, authorization
//! errors a caller that is not the required principal, and state errors a
//! record in the wrong lifecycle state for the requested transition. All are
//! returned synchronously; no operation leaves a partial state change behind
//! when it reports one.

use vstd::prelude::*;

verus! {

/// Failure kinds of the bridge-hub operations.
#[derive(Clone, Copy, Debug, PartialEq, Eq, Structural)]
pub enum HubError {
    /// A fee rate above the basis-point cap was supplied at initialization.
    InvalidFee,
    /// A zero amount was supplied where value must move.
    InvalidAmount,
    /// The target or source chain is the native chain itself.
    InvalidChain,
    /// The hub is paused: no state-mutating bridge operation may run.
    HubPaused,
    /// A completion for the same bridge hash is already recorded.
    BridgeAlreadyCompleted,
    /// The caller is not the hub's admin.
    UnauthorizedAdmin,
    /// The caller does not own the portfolio it tries to update.
    UnauthorizedPortfolioAccess,
    /// An attested foreign-chain proof failed verification.
    InvalidWormholeSignature,
    /// The request family's addressing failure: no bridge request exists
    /// where one was required, or the deterministic address for a new one
    /// is already occupied by an in-flight request.
    BridgeRequestNotFound,
    /// The hub does not hold enough value to pay out.
    InsufficientHubBalance,
    /// No portfolio record exists where one was required, or the portfolio
    /// address is already occupied at creation.
    PortfolioNotFound,
    /// The amount is below the bridgeable minimum.
    BridgeAmountTooSmall,
    /// The amount is above the bridgeable maximum.
    BridgeAmountTooLarge,
}

/// Failure kinds of the escrow-pact operations.
#[derive(Clone, Copy, Debug, PartialEq, Eq, Structural)]
pub enum ErrorCode {
    /// The pact already left the open state, or its deadline has passed.
    PactClosed,
    /// The pact is open but the settle or refund condition does not hold yet.
    PactNotReady,
    /// A contribution must be greater than zero.
    InvalidContribution,
    /// The supplied payout identity does not match the stored recipient.
    InvalidPayoutRecipient,
}

} // verus!
