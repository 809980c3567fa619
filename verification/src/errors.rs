use vstd::prelude::*;

verus! {

/// Every way an operation can be refused.  All failures are expected,
/// caller-visible outcomes of normal use: an operation that fails with one
/// of these commits no state change at all.
#[derive(Clone, Copy, Debug, PartialEq, Eq, Structural)]
pub enum MultisigError {
    /// The threshold is zero or exceeds the number of signers.
    InvalidThreshold,
    /// The proposal timeout is not positive.
    InvalidTimeout,
    /// The spending limit is zero.
    InvalidSpendingLimit,
    /// The proposal's expiration timestamp is not in the future.
    InvalidExpiration,
    /// The wallet's global kill flag is down; only reads are allowed.
    WalletInactive,
    /// A vote was cast on a proposal that is no longer pending.
    ProposalNotPending,
    /// Execution was requested for a proposal that is not approved.
    ProposalNotApproved,
    /// The proposal's expiration timestamp has passed.
    ProposalExpired,
    /// The caller lacks the right to perform this action.
    NotAuthorized,
    /// The caller already approved this proposal.
    AlreadyApproved,
    /// The caller has no member record in the wallet.
    MemberNotFound,
}

} // verus!
