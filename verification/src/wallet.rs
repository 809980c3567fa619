use vstd::prelude::*;

use crate::errors::MultisigError;
use crate::types::{contains_address, Address, InstructionData, Member, MemberRole};

verus! {

/// The root of trust: the signer set, the approval threshold, the
/// spending-limit window and the per-signer metadata of one shared wallet.
///
/// A configuration is a single logical record; the host environment
/// serializes writes to it, so every operation here is one atomic state
/// transition that either fully commits or fails with no mutation at all.
#[derive(Debug)]
pub struct WalletConfig {
    /// Identity with exclusive rights to change the signer set and the
    /// spending limits and to invoke the emergency override.
    pub authority: Address,
    /// The identities whose approvals count towards the threshold.  The
    /// list is stored as given: duplicate entries are tolerated, never
    /// deduplicated, and a duplicated identity still votes at most once
    /// per proposal.
    pub signers: Vec<Address>,
    /// How many distinct signer approvals a regular proposal needs.
    pub threshold: u8,
    /// Default lifetime for proposals, in seconds; always positive.
    pub proposal_timeout: i64,
    /// Maximum cumulative value authorized per rolling window.
    pub spending_limit: u64,
    /// Length of the rolling spending window, in seconds.
    pub spending_period: i64,
    /// Value already authorized inside the current window.
    pub spending_used: u64,
    /// When the current window began.
    pub last_spending_reset: i64,
    /// Global kill flag: once false, every operation except reads fails.
    pub is_active: bool,
    /// Per-signer metadata, created in lockstep with `signers`.
    pub members: Vec<Member>,
    /// Monotonically increasing source of proposal identifiers.
    pub proposal_count: u64,
}

impl WalletConfig {
    /// The structural invariant: established at creation and re-validated
    /// by every mutating update.
    pub open spec fn well_formed(self) -> bool {
        &&& 1 <= self.threshold as int <= self.signers@.len()
        &&& self.proposal_timeout > 0
        &&& self.spending_limit > 0
    }
}

/// The parameters under which creating a wallet succeeds.
pub open spec fn wallet_params_ok(
    signers: Seq<Address>,
    threshold: u8,
    proposal_timeout: i64,
    spending_limit: u64,
) -> bool {
    &&& 1 <= threshold as int <= signers.len()
    &&& proposal_timeout > 0
    &&& spending_limit > 0
}

/// The first validation failure of `initialize_wallet`, if any, in the
/// order the checks run.
pub open spec fn init_error(
    signers: Seq<Address>,
    threshold: u8,
    proposal_timeout: i64,
    spending_limit: u64,
) -> Option<MultisigError> {
    if signers.len() < threshold as int {
        Some(MultisigError::InvalidThreshold)
    } else if threshold == 0 {
        Some(MultisigError::InvalidThreshold)
    } else if proposal_timeout <= 0 {
        Some(MultisigError::InvalidTimeout)
    } else if spending_limit == 0 {
        Some(MultisigError::InvalidSpendingLimit)
    } else {
        None
    }
}

/// One freshly initialized member record per signer, in the signers'
/// order: role `Member`, no delegate, active.
pub open spec fn members_in_lockstep(members: Seq<Member>, signers: Seq<Address>) -> bool {
    &&& members.len() == signers.len()
    &&& forall|i: int|
        0 <= i < members.len() ==> {
            &&& (#[trigger] members[i]).address == signers[i]
            &&& members[i].role == MemberRole::Member
            &&& members[i].delegate is None
            &&& members[i].is_active
        }
}

/// Create the shared wallet: validate the threshold against the signer
/// set, the proposal timeout and the spending limit, then start with a
/// fresh member record per signer, zeroed spending accumulators and an
/// empty proposal counter.  `now` is the host clock reading stamped as
/// the start of the first spending window.
pub fn initialize_wallet(
    authority: Address,
    signers: Vec<Address>,
    threshold: u8,
    proposal_timeout: i64,
    spending_limit: u64,
    spending_period: i64,
    now: i64,
) -> (result: Result<WalletConfig, MultisigError>)
    ensures
        result is Ok <==> wallet_params_ok(signers@, threshold, proposal_timeout, spending_limit),
        match result {
            Ok(wallet) => {
                &&& wallet.authority == authority
                &&& wallet.signers@ == signers@
                &&& wallet.threshold == threshold
                &&& wallet.proposal_timeout == proposal_timeout
                &&& wallet.spending_limit == spending_limit
                &&& wallet.spending_period == spending_period
                &&& wallet.spending_used == 0
                &&& wallet.last_spending_reset == now
                &&& wallet.is_active
                &&& members_in_lockstep(wallet.members@, signers@)
                &&& wallet.proposal_count == 0
                &&& wallet.well_formed()
            },
            Err(e) => init_error(signers@, threshold, proposal_timeout, spending_limit) == Some(
                e,
            ),
        },
{
    if signers.len() < threshold as usize {
        return Err(MultisigError::InvalidThreshold);
    }
    if threshold == 0 {
        return Err(MultisigError::InvalidThreshold);
    }
    if proposal_timeout <= 0 {
        return Err(MultisigError::InvalidTimeout);
    }
    if spending_limit == 0 {
        return Err(MultisigError::InvalidSpendingLimit);
    }
    let mut members: Vec<Member> = Vec::new();
    let mut i: usize = 0;
    while i < signers.len()
        invariant
            i <= signers@.len(),
            members@.len() == i,
            forall|j: int|
                0 <= j < i ==> {
                    &&& (#[trigger] members@[j]).address == signers@[j]
                    &&& members@[j].role == MemberRole::Member
                    &&& members@[j].delegate is None
                    &&& members@[j].is_active
                },
        decreases signers@.len() - i,
    {
        members.push(
            Member { address: signers[i], role: MemberRole::Member, delegate: None, is_active: true },
        );
        i = i + 1;
    }
    Ok(
        WalletConfig {
            authority,
            signers,
            threshold,
            proposal_timeout,
            spending_limit,
            spending_period,
            spending_used: 0,
            last_spending_reset: now,
            is_active: true,
            members,
            proposal_count: 0,
        },
    )
}

/// The first failure of `update_signers`, if any, in the order the checks
/// run: authorization comes before the validation of the new pair, so a
/// caller who is a signer but not the authority fails with
/// `NotAuthorized` whatever threshold it proposes — only the root
/// authority may change the signer set.
pub open spec fn update_signers_error(
    wallet: WalletConfig,
    new_signers: Seq<Address>,
    new_threshold: u8,
    caller: Address,
) -> Option<MultisigError> {
    if !wallet.is_active {
        Some(MultisigError::WalletInactive)
    } else if !wallet.signers@.contains(caller) {
        Some(MultisigError::NotAuthorized)
    } else if wallet.authority != caller {
        Some(MultisigError::NotAuthorized)
    } else if new_signers.len() < new_threshold as int {
        Some(MultisigError::InvalidThreshold)
    } else if new_threshold == 0 {
        Some(MultisigError::InvalidThreshold)
    } else {
        None
    }
}

/// Atomically replace the signer set and the threshold, validating the
/// new pair under the creation rule.  The member records are deliberately
/// left as they are: they can fall out of step with the new signer set,
/// and `delegate_vote` then reports `MemberNotFound` for a signer without
/// a record.
pub fn update_signers(
    wallet: &mut WalletConfig,
    new_signers: Vec<Address>,
    new_threshold: u8,
    caller: Address,
) -> (result: Result<(), MultisigError>)
    requires
        old(wallet).well_formed(),
    ensures
        final(wallet).well_formed(),
        match result {
            Ok(()) => {
                &&& update_signers_error(*old(wallet), new_signers@, new_threshold, caller)
                    is None
                &&& final(wallet).signers@ == new_signers@
                &&& final(wallet).threshold == new_threshold
                &&& final(wallet).authority == old(wallet).authority
                &&& final(wallet).proposal_timeout == old(wallet).proposal_timeout
                &&& final(wallet).spending_limit == old(wallet).spending_limit
                &&& final(wallet).spending_period == old(wallet).spending_period
                &&& final(wallet).spending_used == old(wallet).spending_used
                &&& final(wallet).last_spending_reset == old(wallet).last_spending_reset
                &&& final(wallet).is_active == old(wallet).is_active
                &&& final(wallet).members@ == old(wallet).members@
                &&& final(wallet).proposal_count == old(wallet).proposal_count
            },
            Err(e) => {
                &&& update_signers_error(*old(wallet), new_signers@, new_threshold, caller)
                    == Some(e)
                &&& *final(wallet) == *old(wallet)
            },
        },
{
    if !wallet.is_active {
        return Err(MultisigError::WalletInactive);
    }
    if !contains_address(&wallet.signers, caller) {
        return Err(MultisigError::NotAuthorized);
    }
    if wallet.authority != caller {
        return Err(MultisigError::NotAuthorized);
    }
    if new_signers.len() < new_threshold as usize {
        return Err(MultisigError::InvalidThreshold);
    }
    if new_threshold == 0 {
        return Err(MultisigError::InvalidThreshold);
    }
    wallet.signers = new_signers;
    wallet.threshold = new_threshold;
    Ok(())
}

/// The first failure of `set_spending_limits`, if any: authorization
/// first, then the new limit is re-validated under the creation rule —
/// a zero limit is refused.
pub open spec fn set_spending_limits_error(
    wallet: WalletConfig,
    new_limit: u64,
    caller: Address,
) -> Option<MultisigError> {
    if !wallet.is_active {
        Some(MultisigError::WalletInactive)
    } else if wallet.authority != caller {
        Some(MultisigError::NotAuthorized)
    } else if new_limit == 0 {
        Some(MultisigError::InvalidSpendingLimit)
    } else {
        None
    }
}

/// Replace the spending limit and window length; only the authority may.
/// Applying the new limit restarts the window: the accumulator drops to
/// zero and the window begins at `now`.
pub fn set_spending_limits(
    wallet: &mut WalletConfig,
    new_limit: u64,
    new_period: i64,
    caller: Address,
    now: i64,
) -> (result: Result<(), MultisigError>)
    requires
        old(wallet).well_formed(),
    ensures
        final(wallet).well_formed(),
        match result {
            Ok(()) => {
                &&& set_spending_limits_error(*old(wallet), new_limit, caller) is None
                &&& final(wallet).spending_limit == new_limit
                &&& final(wallet).spending_period == new_period
                &&& final(wallet).spending_used == 0
                &&& final(wallet).last_spending_reset == now
                &&& final(wallet).authority == old(wallet).authority
                &&& final(wallet).signers@ == old(wallet).signers@
                &&& final(wallet).threshold == old(wallet).threshold
                &&& final(wallet).proposal_timeout == old(wallet).proposal_timeout
                &&& final(wallet).is_active == old(wallet).is_active
                &&& final(wallet).members@ == old(wallet).members@
                &&& final(wallet).proposal_count == old(wallet).proposal_count
            },
            Err(e) => {
                &&& set_spending_limits_error(*old(wallet), new_limit, caller) == Some(e)
                &&& *final(wallet) == *old(wallet)
            },
        },
{
    if !wallet.is_active {
        return Err(MultisigError::WalletInactive);
    }
    if wallet.authority != caller {
        return Err(MultisigError::NotAuthorized);
    }
    if new_limit == 0 {
        return Err(MultisigError::InvalidSpendingLimit);
    }
    wallet.spending_limit = new_limit;
    wallet.spending_period = new_period;
    wallet.spending_used = 0;
    wallet.last_spending_reset = now;
    Ok(())
}

/// Whether `now` lies at or beyond the end of the wallet's current
/// spending window, so that the rolling accumulator is due for a reset.
pub open spec fn spending_window_crossed(wallet: WalletConfig, now: i64) -> bool {
    now - wallet.last_spending_reset >= wallet.spending_period
}

/// The accumulator value that accounting at time `now` starts from: zero
/// if the window boundary has been crossed, the stored value otherwise.
pub open spec fn effective_spending_used(wallet: WalletConfig, now: i64) -> u64 {
    if spending_window_crossed(wallet, now) {
        0
    } else {
        wallet.spending_used
    }
}

/// The first failure of `record_spending`, if any: the request is
/// refused when, after any due window reset, it would push the
/// accumulator past the limit.
pub open spec fn record_spending_error(wallet: WalletConfig, amount: u64, now: i64) -> Option<
    MultisigError,
> {
    if !wallet.is_active {
        Some(MultisigError::WalletInactive)
    } else if effective_spending_used(wallet, now) + amount > wallet.spending_limit {
        Some(MultisigError::InvalidSpendingLimit)
    } else {
        None
    }
}

/// Account a requested `amount` against the rolling spending window.
/// The window is reset lazily: if `now` has moved a full period past the
/// last reset, the accumulator restarts at zero and the window at `now`
/// before the amount is checked.  A request that would exceed the limit
/// is refused whole, with no state change at all — not even the lazy
/// reset is kept.
pub fn record_spending(wallet: &mut WalletConfig, amount: u64, now: i64) -> (result: Result<
    (),
    MultisigError,
>)
    requires
        old(wallet).well_formed(),
    ensures
        final(wallet).well_formed(),
        match result {
            Ok(()) => {
                &&& record_spending_error(*old(wallet), amount, now) is None
                &&& final(wallet).spending_used == effective_spending_used(*old(wallet), now)
                    + amount
                &&& final(wallet).last_spending_reset == (if spending_window_crossed(
                    *old(wallet),
                    now,
                ) {
                    now
                } else {
                    old(wallet).last_spending_reset
                })
                &&& final(wallet).authority == old(wallet).authority
                &&& final(wallet).signers@ == old(wallet).signers@
                &&& final(wallet).threshold == old(wallet).threshold
                &&& final(wallet).proposal_timeout == old(wallet).proposal_timeout
                &&& final(wallet).spending_limit == old(wallet).spending_limit
                &&& final(wallet).spending_period == old(wallet).spending_period
                &&& final(wallet).is_active == old(wallet).is_active
                &&& final(wallet).members@ == old(wallet).members@
                &&& final(wallet).proposal_count == old(wallet).proposal_count
            },
            Err(e) => {
                &&& record_spending_error(*old(wallet), amount, now) == Some(e)
                &&& *final(wallet) == *old(wallet)
            },
        },
{
    if !wallet.is_active {
        return Err(MultisigError::WalletInactive);
    }
    let crossed: bool = (now as i128) - (wallet.last_spending_reset as i128)
        >= (wallet.spending_period as i128);
    let base: u64 = if crossed {
        0
    } else {
        wallet.spending_used
    };
    if (base as u128) + (amount as u128) > (wallet.spending_limit as u128) {
        return Err(MultisigError::InvalidSpendingLimit);
    }
    if crossed {
        wallet.last_spending_reset = now;
    }
    wallet.spending_used = base + amount;
    Ok(())
}

/// Whether some member record carries this address.
pub open spec fn has_member(members: Seq<Member>, addr: Address) -> bool {
    exists|i: int| 0 <= i < members.len() && (#[trigger] members[i]).address == addr
}

/// The first failure of `delegate_vote`, if any.  `MemberNotFound` can
/// genuinely occur: `update_signers` does not resynchronize the member
/// records, so a signer added later has no record.
pub open spec fn delegate_vote_error(wallet: WalletConfig, delegator: Address) -> Option<
    MultisigError,
> {
    if !wallet.is_active {
        Some(MultisigError::WalletInactive)
    } else if !wallet.signers@.contains(delegator) {
        Some(MultisigError::NotAuthorized)
    } else if !has_member(wallet.members@, delegator) {
        Some(MultisigError::MemberNotFound)
    } else {
        None
    }
}

/// Record that `delegator` delegates its vote to `delegate`: the first
/// member record carrying the delegator's address gets its delegate field
/// set.  Delegation is bookkeeping only — the approval logic never
/// consults it, so a delegate who is not itself a signer still cannot
/// vote.
pub fn delegate_vote(wallet: &mut WalletConfig, delegator: Address, delegate: Address) -> (result:
    Result<(), MultisigError>)
    ensures
        match result {
            Ok(()) => {
                &&& delegate_vote_error(*old(wallet), delegator) is None
                &&& exists|i: int|
                    {
                        &&& 0 <= i < old(wallet).members@.len()
                        &&& (#[trigger] old(wallet).members@[i]).address == delegator
                        &&& forall|j: int|
                            0 <= j < i ==> (#[trigger] old(wallet).members@[j]).address
                                != delegator
                        &&& final(wallet).members@ == old(wallet).members@.update(
                            i,
                            (Member { delegate: Some(delegate), ..old(wallet).members@[i] }),
                        )
                    }
                &&& final(wallet).authority == old(wallet).authority
                &&& final(wallet).signers@ == old(wallet).signers@
                &&& final(wallet).threshold == old(wallet).threshold
                &&& final(wallet).proposal_timeout == old(wallet).proposal_timeout
                &&& final(wallet).spending_limit == old(wallet).spending_limit
                &&& final(wallet).spending_period == old(wallet).spending_period
                &&& final(wallet).spending_used == old(wallet).spending_used
                &&& final(wallet).last_spending_reset == old(wallet).last_spending_reset
                &&& final(wallet).is_active == old(wallet).is_active
                &&& final(wallet).proposal_count == old(wallet).proposal_count
            },
            Err(e) => {
                &&& delegate_vote_error(*old(wallet), delegator) == Some(e)
                &&& *final(wallet) == *old(wallet)
            },
        },
{
    if !wallet.is_active {
        return Err(MultisigError::WalletInactive);
    }
    if !contains_address(&wallet.signers, delegator) {
        return Err(MultisigError::NotAuthorized);
    }
    let mut i: usize = 0;
    while i < wallet.members.len()
        invariant
            i <= wallet.members@.len(),
            *wallet == *old(wallet),
            old(wallet).is_active,
            old(wallet).signers@.contains(delegator),
            forall|j: int|
                0 <= j < i ==> (#[trigger] wallet.members@[j]).address != delegator,
        decreases wallet.members@.len() - i,
    {
        if wallet.members[i].address == delegator {
            let mut updated = wallet.members[i];
            updated.delegate = Some(delegate);
            wallet.members.set(i, updated);
            proof {
                assert(old(wallet).members@[i as int].address == delegator);
                assert(has_member(old(wallet).members@, delegator));
            }
            return Ok(());
        }
        i = i + 1;
    }
    Err(MultisigError::MemberNotFound)
}

/// The first failure of `emergency_override`, if any: only the authority
/// may bypass the proposal pipeline, and only while the wallet is active.
pub open spec fn override_error(wallet: WalletConfig, caller: Address) -> Option<MultisigError> {
    if !wallet.is_active {
        Some(MultisigError::WalletInactive)
    } else if wallet.authority != caller {
        Some(MultisigError::NotAuthorized)
    } else {
        None
    }
}

/// Authorize immediate dispatch of `instructions`, bypassing the proposal
/// and voting pipeline entirely — the deliberate escape hatch reserved to
/// the root authority.  On success the caller's dispatch collaborator is
/// to hand each payload downstream at once; no ledger record is created.
pub fn emergency_override(
    wallet: &WalletConfig,
    instructions: &Vec<InstructionData>,
    caller: Address,
) -> (result: Result<(), MultisigError>)
    ensures
        match result {
            Ok(()) => override_error(*wallet, caller) is None,
            Err(e) => override_error(*wallet, caller) == Some(e),
        },
{
    if !wallet.is_active {
        return Err(MultisigError::WalletInactive);
    }
    if wallet.authority != caller {
        return Err(MultisigError::NotAuthorized);
    }
    Ok(())
}

} // verus!
