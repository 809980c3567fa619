use vstd::prelude::*;

verus! {

/// An identity in the host environment.  The host addresses accounts by an
/// opaque 32-byte key; the core only ever compares identities for
/// equality, so it carries each one as a plain number chosen by the
/// embedding layer.
#[derive(Clone, Copy, Debug, PartialEq, Eq, Structural)]
pub struct Address {
    pub value: u64,
}

/// The role a member plays inside the wallet.  Roles are recorded
/// metadata; the approval logic checks only direct signer identity.
#[derive(Clone, Copy, Debug, PartialEq, Eq, Structural)]
pub enum MemberRole {
    Admin,
    Treasurer,
    Member,
}

/// The category of a proposal; it decides how many approvals the proposal
/// needs relative to the wallet's threshold.
#[derive(Clone, Copy, Debug, PartialEq, Eq, Structural)]
pub enum ProposalCategory {
    Regular,
    Admin,
    Emergency,
}

/// A proposal's lifecycle state.  Pending may move to Approved, Rejected
/// or Expired; Approved may move to Executed; no transition leaves
/// Executed, Rejected or Expired.
#[derive(Clone, Copy, Debug, PartialEq, Eq, Structural)]
pub enum ProposalStatus {
    Pending,
    Approved,
    Rejected,
    Executed,
    Expired,
}

/// Per-signer metadata, created in lockstep with the signer list when the
/// wallet is initialized.
#[derive(Clone, Copy, Debug, PartialEq, Eq)]
pub struct Member {
    pub address: Address,
    pub role: MemberRole,
    pub delegate: Option<Address>,
    pub is_active: bool,
}

/// One account reference inside an instruction payload.
#[derive(Clone, Copy, Debug, PartialEq, Eq, Structural)]
pub struct AccountMeta {
    pub pubkey: Address,
    pub is_signer: bool,
    pub is_writable: bool,
}

/// An opaque action payload.  The core never interprets it; once a
/// proposal is approved and executed, the dispatch collaborator receives
/// each payload in stored order.
#[derive(Clone, Debug, PartialEq, Eq)]
pub struct InstructionData {
    pub program_id: Address,
    pub accounts: Vec<AccountMeta>,
    pub data: Vec<u8>,
}

/// Whether `target` occurs in `list`.
pub fn contains_address(list: &Vec<Address>, target: Address) -> (found: bool)
    ensures
        found == list@.contains(target),
{
    let mut i: usize = 0;
    while i < list.len()
        invariant
            i <= list@.len(),
            forall|j: int| 0 <= j < i ==> list@[j] != target,
        decreases list@.len() - i,
    {
        if list[i] == target {
            proof {
                assert(list@[i as int] == target);
            }
            return true;
        }
        i = i + 1;
    }
    false
}

} // verus!
