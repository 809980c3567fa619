use vstd::prelude::*;

use crate::errors::MultisigError;
use crate::proposal::{approve_error, execute_error, Proposal};
use crate::types::{Address, ProposalStatus};
use crate::wallet::{init_error, update_signers_error, wallet_params_ok, WalletConfig};

verus! {

/// Creating a wallet succeeds exactly when the threshold lies between 1
/// and the number of signers, the proposal timeout is positive and the
/// spending limit is positive.
pub proof fn lemma_create_succeeds_iff(
    signers: Seq<Address>,
    threshold: u8,
    proposal_timeout: i64,
    spending_limit: u64,
)
    ensures
        init_error(signers, threshold, proposal_timeout, spending_limit) is None
            <==> wallet_params_ok(signers, threshold, proposal_timeout, spending_limit),
{
}

/// A signer who already approved a pending, unexpired proposal of an
/// active wallet is always refused a second vote with `AlreadyApproved`,
/// whatever the vote count.
pub proof fn lemma_double_approval_rejected(
    wallet: WalletConfig,
    proposal: Proposal,
    approver: Address,
    now: i64,
)
    requires
        wallet.is_active,
        proposal.status == ProposalStatus::Pending,
        now < proposal.expiration,
        wallet.signers@.contains(approver),
        proposal.approvals@.contains(approver),
    ensures
        approve_error(wallet, proposal, approver, now) == Some(MultisigError::AlreadyApproved),
{
}

/// After a vote by `approver` goes through, a second vote by the same
/// signer on the resulting proposal is refused with `AlreadyApproved`,
/// as long as the proposal is still pending and unexpired.
pub proof fn lemma_no_second_approval(
    wallet: WalletConfig,
    before: Proposal,
    after: Proposal,
    approver: Address,
    now_first: i64,
    now_second: i64,
)
    requires
        approve_error(wallet, before, approver, now_first) is None,
        after.approvals@ == before.approvals@.push(approver),
        after.status == ProposalStatus::Pending,
        after.expiration == before.expiration,
        now_second < after.expiration,
    ensures
        approve_error(wallet, after, approver, now_second) == Some(MultisigError::AlreadyApproved),
{
    assert(after.approvals@[before.approvals@.len() as int] == approver);
    assert(after.approvals@.contains(approver));
}

/// Once a proposal's expiration timestamp has passed, a pending proposal
/// can no longer be approved and an approved one can no longer be
/// executed: both attempts are refused with `ProposalExpired`, whatever
/// the vote count.  (A proposal in any other state is refused earlier,
/// with `ProposalNotPending` or `ProposalNotApproved`.)
pub proof fn lemma_expired_proposal_frozen(
    wallet: WalletConfig,
    proposal: Proposal,
    approver: Address,
    now: i64,
)
    requires
        wallet.is_active,
        now >= proposal.expiration,
    ensures
        proposal.status == ProposalStatus::Pending ==> approve_error(
            wallet,
            proposal,
            approver,
            now,
        ) == Some(MultisigError::ProposalExpired),
        proposal.status == ProposalStatus::Approved ==> execute_error(wallet, proposal, now)
            == Some(MultisigError::ProposalExpired),
{
}

/// Executing a proposal that is not in the Approved state is always
/// refused with `ProposalNotApproved`.
pub proof fn lemma_execute_requires_approved(wallet: WalletConfig, proposal: Proposal, now: i64)
    requires
        wallet.is_active,
        proposal.status != ProposalStatus::Approved,
    ensures
        execute_error(wallet, proposal, now) == Some(MultisigError::ProposalNotApproved),
{
}

/// Changing the signer set is reserved to the root authority: any other
/// caller is refused with `NotAuthorized`, even one who is a current
/// signer, whatever new signer set and threshold it proposes.
pub proof fn lemma_update_signers_authority_only(
    wallet: WalletConfig,
    new_signers: Seq<Address>,
    new_threshold: u8,
    caller: Address,
)
    requires
        wallet.is_active,
        caller != wallet.authority,
    ensures
        update_signers_error(wallet, new_signers, new_threshold, caller) == Some(
            MultisigError::NotAuthorized,
        ),
{
}

/// No transition leaves a terminal state: a proposal that is Executed,
/// Rejected or Expired can be neither approved nor executed.
pub proof fn lemma_terminal_states_are_final(
    wallet: WalletConfig,
    proposal: Proposal,
    approver: Address,
    now: i64,
)
    requires
        proposal.status == ProposalStatus::Executed || proposal.status == ProposalStatus::Rejected
            || proposal.status == ProposalStatus::Expired,
    ensures
        approve_error(wallet, proposal, approver, now) is Some,
        execute_error(wallet, proposal, now) is Some,
{
}

} // verus!
