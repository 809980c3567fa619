use vstd::prelude::*;

use crate::errors::MultisigError;
use crate::types::{contains_address, Address, InstructionData, ProposalCategory, ProposalStatus};
use crate::wallet::WalletConfig;

verus! {

/// One proposal's lifecycle record: its payload, its votes and its place
/// in the state machine `Pending -> {Approved, Rejected, Expired}`,
/// `Approved -> Executed`.
#[derive(Debug)]
pub struct Proposal {
    /// The wallet record this proposal belongs to (lookup only).
    pub wallet: Address,
    /// The identity that created the proposal.
    pub proposer: Address,
    /// Free-form text describing the intent.
    pub description: String,
    /// Decides the required approval count relative to the threshold.
    pub category: ProposalCategory,
    /// Opaque action payloads, dispatched in stored order on execution.
    pub instructions: Vec<InstructionData>,
    /// Absolute timestamp after which the proposal can no longer be
    /// approved or executed.
    pub expiration: i64,
    /// Position in the lifecycle state machine.
    pub status: ProposalStatus,
    /// The distinct signers that approved so far.
    pub approvals: Vec<Address>,
    /// Recorded dissent; never drives a transition in this core.
    pub rejections: Vec<Address>,
    /// When the proposal was created.
    pub created_at: i64,
    /// Set exactly once, on the transition to Executed.
    pub executed_at: Option<i64>,
    /// Sequence number drawn from the wallet's proposal counter.
    pub id: u64,
}

impl Proposal {
    /// The approval list never names the same signer twice.
    pub open spec fn well_formed(self) -> bool {
        self.approvals@.no_duplicates()
    }
}

/// How many distinct approvals a proposal of this category needs: the
/// wallet threshold for Regular, one more for Admin, one fewer for
/// Emergency.  With a threshold of 1 an Emergency proposal needs zero
/// approvals, so its very first vote approves it; the core keeps that
/// degenerate case rather than flooring the requirement.
pub open spec fn required_approvals(category: ProposalCategory, threshold: u8) -> int {
    match category {
        ProposalCategory::Regular => threshold as int,
        ProposalCategory::Admin => threshold as int + 1,
        ProposalCategory::Emergency => threshold as int - 1,
    }
}

/// Whether a vote count satisfies a requirement.
pub open spec fn threshold_met(approvals_count: int, required: int) -> bool {
    approvals_count >= required
}

/// Executable form of `required_approvals`.
pub fn required_approvals_for(category: ProposalCategory, threshold: u8) -> (required: usize)
    requires
        threshold >= 1,
    ensures
        required as int == required_approvals(category, threshold),
{
    match category {
        ProposalCategory::Regular => threshold as usize,
        ProposalCategory::Admin => (threshold as usize) + 1,
        ProposalCategory::Emergency => (threshold - 1) as usize,
    }
}

/// The first failure of `add_proposal`, if any: the wallet must be
/// active and the expiration strictly in the future.
pub open spec fn add_proposal_error(wallet: WalletConfig, expiration: i64, now: i64) -> Option<
    MultisigError,
> {
    if !wallet.is_active {
        Some(MultisigError::WalletInactive)
    } else if expiration <= now {
        Some(MultisigError::InvalidExpiration)
    } else {
        None
    }
}

/// Create a new pending proposal under `wallet`: it takes the next
/// sequence number, stamps `now` as its creation time and starts with
/// empty approval and rejection lists.  `wallet_key` is the address under
/// which the host stores the wallet record; the proposal keeps it as a
/// back-reference.
pub fn add_proposal(
    wallet: &mut WalletConfig,
    wallet_key: Address,
    proposer: Address,
    description: String,
    category: ProposalCategory,
    instructions: Vec<InstructionData>,
    expiration: i64,
    now: i64,
) -> (result: Result<Proposal, MultisigError>)
    requires
        old(wallet).proposal_count < u64::MAX,
    ensures
        match result {
            Ok(proposal) => {
                &&& add_proposal_error(*old(wallet), expiration, now) is None
                &&& proposal.wallet == wallet_key
                &&& proposal.proposer == proposer
                &&& proposal.description@ == description@
                &&& proposal.category == category
                &&& proposal.instructions@ == instructions@
                &&& proposal.expiration == expiration
                &&& proposal.status == ProposalStatus::Pending
                &&& proposal.approvals@ == Seq::<Address>::empty()
                &&& proposal.rejections@ == Seq::<Address>::empty()
                &&& proposal.created_at == now
                &&& proposal.executed_at is None
                &&& proposal.id == old(wallet).proposal_count
                &&& proposal.well_formed()
                &&& final(wallet).proposal_count == old(wallet).proposal_count + 1
                &&& final(wallet).authority == old(wallet).authority
                &&& final(wallet).signers@ == old(wallet).signers@
                &&& final(wallet).threshold == old(wallet).threshold
                &&& final(wallet).proposal_timeout == old(wallet).proposal_timeout
                &&& final(wallet).spending_limit == old(wallet).spending_limit
                &&& final(wallet).spending_period == old(wallet).spending_period
                &&& final(wallet).spending_used == old(wallet).spending_used
                &&& final(wallet).last_spending_reset == old(wallet).last_spending_reset
                &&& final(wallet).is_active == old(wallet).is_active
                &&& final(wallet).members@ == old(wallet).members@
            },
            Err(e) => {
                &&& add_proposal_error(*old(wallet), expiration, now) == Some(e)
                &&& *final(wallet) == *old(wallet)
            },
        },
{
    if !wallet.is_active {
        return Err(MultisigError::WalletInactive);
    }
    if expiration <= now {
        return Err(MultisigError::InvalidExpiration);
    }
    let id: u64 = wallet.proposal_count;
    wallet.proposal_count = wallet.proposal_count + 1;
    Ok(
        Proposal {
            wallet: wallet_key,
            proposer,
            description,
            category,
            instructions,
            expiration,
            status: ProposalStatus::Pending,
            approvals: Vec::new(),
            rejections: Vec::new(),
            created_at: now,
            executed_at: None,
            id,
        },
    )
}

/// The first failure of `approve_proposal`, if any, in the order the
/// checks run: active wallet, pending status, unexpired, caller a current
/// signer, caller not yet among the approvals.
pub open spec fn approve_error(
    wallet: WalletConfig,
    proposal: Proposal,
    approver: Address,
    now: i64,
) -> Option<MultisigError> {
    if !wallet.is_active {
        Some(MultisigError::WalletInactive)
    } else if proposal.status != ProposalStatus::Pending {
        Some(MultisigError::ProposalNotPending)
    } else if proposal.expiration <= now {
        Some(MultisigError::ProposalExpired)
    } else if !wallet.signers@.contains(approver) {
        Some(MultisigError::NotAuthorized)
    } else if proposal.approvals@.contains(approver) {
        Some(MultisigError::AlreadyApproved)
    } else {
        None
    }
}

/// Cast `approver`'s vote on a pending proposal.  The vote is appended to
/// the approval list; the moment the list reaches the category's required
/// count the proposal transitions to Approved, in the same atomic
/// operation.  On success the result says how many further approvals are
/// still needed — zero exactly when the proposal is now Approved.
pub fn approve_proposal(
    wallet: &WalletConfig,
    proposal: &mut Proposal,
    approver: Address,
    now: i64,
) -> (result: Result<usize, MultisigError>)
    requires
        wallet.well_formed(),
    ensures
        old(proposal).well_formed() ==> final(proposal).well_formed(),
        match result {
            Ok(remaining) => {
                &&& approve_error(*wallet, *old(proposal), approver, now) is None
                &&& final(proposal).approvals@ == old(proposal).approvals@.push(approver)
                &&& {
                    let required: int = required_approvals(old(proposal).category, wallet.threshold);
                    let count: nat = old(proposal).approvals@.len() + 1;
                    &&& threshold_met(count as int, required) ==> final(proposal).status
                        == ProposalStatus::Approved && remaining == 0
                    &&& !threshold_met(count as int, required) ==> final(proposal).status
                        == ProposalStatus::Pending && remaining == required - count
                }
                &&& final(proposal).wallet == old(proposal).wallet
                &&& final(proposal).proposer == old(proposal).proposer
                &&& final(proposal).description@ == old(proposal).description@
                &&& final(proposal).category == old(proposal).category
                &&& final(proposal).instructions@ == old(proposal).instructions@
                &&& final(proposal).expiration == old(proposal).expiration
                &&& final(proposal).rejections@ == old(proposal).rejections@
                &&& final(proposal).created_at == old(proposal).created_at
                &&& final(proposal).executed_at == old(proposal).executed_at
                &&& final(proposal).id == old(proposal).id
            },
            Err(e) => {
                &&& approve_error(*wallet, *old(proposal), approver, now) == Some(e)
                &&& *final(proposal) == *old(proposal)
            },
        },
{
    if !wallet.is_active {
        return Err(MultisigError::WalletInactive);
    }
    if proposal.status != ProposalStatus::Pending {
        return Err(MultisigError::ProposalNotPending);
    }
    if proposal.expiration <= now {
        return Err(MultisigError::ProposalExpired);
    }
    if !contains_address(&wallet.signers, approver) {
        return Err(MultisigError::NotAuthorized);
    }
    if contains_address(&proposal.approvals, approver) {
        return Err(MultisigError::AlreadyApproved);
    }
    proposal.approvals.push(approver);
    let required: usize = required_approvals_for(proposal.category, wallet.threshold);
    if proposal.approvals.len() >= required {
        proposal.status = ProposalStatus::Approved;
        Ok(0)
    } else {
        Ok(required - proposal.approvals.len())
    }
}

/// The first failure of `execute_proposal`, if any: active wallet,
/// approved status, unexpired.
pub open spec fn execute_error(wallet: WalletConfig, proposal: Proposal, now: i64) -> Option<
    MultisigError,
> {
    if !wallet.is_active {
        Some(MultisigError::WalletInactive)
    } else if proposal.status != ProposalStatus::Approved {
        Some(MultisigError::ProposalNotApproved)
    } else if proposal.expiration <= now {
        Some(MultisigError::ProposalExpired)
    } else {
        None
    }
}

/// Mark an approved, unexpired proposal as executed, stamping
/// `executed_at = now`.  On success the caller's dispatch collaborator is
/// to attempt each stored instruction payload once, in order; dispatch
/// itself and its partial-failure semantics live outside the core.
pub fn execute_proposal(wallet: &WalletConfig, proposal: &mut Proposal, now: i64) -> (result:
    Result<(), MultisigError>)
    ensures
        match result {
            Ok(()) => {
                &&& execute_error(*wallet, *old(proposal), now) is None
                &&& final(proposal).status == ProposalStatus::Executed
                &&& final(proposal).executed_at == Some(now)
                &&& final(proposal).wallet == old(proposal).wallet
                &&& final(proposal).proposer == old(proposal).proposer
                &&& final(proposal).description@ == old(proposal).description@
                &&& final(proposal).category == old(proposal).category
                &&& final(proposal).instructions@ == old(proposal).instructions@
                &&& final(proposal).expiration == old(proposal).expiration
                &&& final(proposal).approvals@ == old(proposal).approvals@
                &&& final(proposal).rejections@ == old(proposal).rejections@
                &&& final(proposal).created_at == old(proposal).created_at
                &&& final(proposal).id == old(proposal).id
            },
            Err(e) => {
                &&& execute_error(*wallet, *old(proposal), now) == Some(e)
                &&& *final(proposal) == *old(proposal)
            },
        },
{
    if !wallet.is_active {
        return Err(MultisigError::WalletInactive);
    }
    if proposal.status != ProposalStatus::Approved {
        return Err(MultisigError::ProposalNotApproved);
    }
    if proposal.expiration <= now {
        return Err(MultisigError::ProposalExpired);
    }
    proposal.status = ProposalStatus::Executed;
    proposal.executed_at = Some(now);
    Ok(())
}

} // verus!
