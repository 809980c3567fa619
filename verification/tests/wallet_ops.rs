use multisig_dao_wallet::errors::MultisigError;
use multisig_dao_wallet::types::{Address, MemberRole};
use multisig_dao_wallet::wallet::{
    delegate_vote, emergency_override, initialize_wallet, record_spending, set_spending_limits,
    update_signers, WalletConfig,
};

fn addr(value: u64) -> Address {
    Address { value }
}

fn three_signer_wallet() -> WalletConfig {
    initialize_wallet(addr(9), vec![addr(1), addr(2), addr(3)], 2, 100, 1000, 60, 0).unwrap()
}

#[test]
fn create_succeeds_with_valid_params() {
    let wallet = three_signer_wallet();
    assert_eq!(wallet.authority, addr(9));
    assert_eq!(wallet.signers, vec![addr(1), addr(2), addr(3)]);
    assert_eq!(wallet.threshold, 2);
    assert_eq!(wallet.proposal_timeout, 100);
    assert_eq!(wallet.spending_limit, 1000);
    assert_eq!(wallet.spending_period, 60);
    assert_eq!(wallet.spending_used, 0);
    assert_eq!(wallet.last_spending_reset, 0);
    assert!(wallet.is_active);
    assert_eq!(wallet.proposal_count, 0);
}

#[test]
fn create_initializes_members_in_lockstep() {
    let wallet = three_signer_wallet();
    assert_eq!(wallet.members.len(), 3);
    for (member, signer) in wallet.members.iter().zip(wallet.signers.iter()) {
        assert_eq!(member.address, *signer);
        assert_eq!(member.role, MemberRole::Member);
        assert_eq!(member.delegate, None);
        assert!(member.is_active);
    }
}

#[test]
fn create_rejects_zero_threshold() {
    let result = initialize_wallet(addr(9), vec![addr(1), addr(2)], 0, 100, 1000, 60, 0);
    assert_eq!(result.unwrap_err(), MultisigError::InvalidThreshold);
}

#[test]
fn create_rejects_threshold_above_signer_count() {
    let result = initialize_wallet(addr(9), vec![addr(1), addr(2)], 3, 100, 1000, 60, 0);
    assert_eq!(result.unwrap_err(), MultisigError::InvalidThreshold);
}

#[test]
fn create_rejects_nonpositive_timeout() {
    let result = initialize_wallet(addr(9), vec![addr(1), addr(2)], 2, 0, 1000, 60, 0);
    assert_eq!(result.unwrap_err(), MultisigError::InvalidTimeout);
    let result = initialize_wallet(addr(9), vec![addr(1), addr(2)], 2, -5, 1000, 60, 0);
    assert_eq!(result.unwrap_err(), MultisigError::InvalidTimeout);
}

#[test]
fn create_rejects_zero_spending_limit() {
    let result = initialize_wallet(addr(9), vec![addr(1), addr(2)], 2, 100, 0, 60, 0);
    assert_eq!(result.unwrap_err(), MultisigError::InvalidSpendingLimit);
}

#[test]
fn create_tolerates_duplicate_signers() {
    let wallet =
        initialize_wallet(addr(9), vec![addr(1), addr(1), addr(2)], 3, 100, 1000, 60, 0).unwrap();
    assert_eq!(wallet.signers, vec![addr(1), addr(1), addr(2)]);
    assert_eq!(wallet.members.len(), 3);
}

#[test]
fn create_accepts_ten_signers() {
    let signers: Vec<Address> = (1..=10).map(addr).collect();
    let wallet = initialize_wallet(addr(9), signers.clone(), 10, 100, 1000, 60, 0).unwrap();
    assert_eq!(wallet.signers, signers);
    assert_eq!(wallet.members.len(), 10);
}

#[test]
fn update_signers_by_non_authority_signer_fails() {
    let mut wallet = three_signer_wallet();
    // addr(1) is a current signer but not the authority
    let result = update_signers(&mut wallet, vec![addr(1), addr(2)], 2, addr(1));
    assert_eq!(result.unwrap_err(), MultisigError::NotAuthorized);
    assert_eq!(wallet.signers, vec![addr(1), addr(2), addr(3)]);
    assert_eq!(wallet.threshold, 2);
}

#[test]
fn update_signers_by_outsider_fails() {
    let mut wallet = three_signer_wallet();
    let result = update_signers(&mut wallet, vec![addr(1), addr(2)], 2, addr(42));
    assert_eq!(result.unwrap_err(), MultisigError::NotAuthorized);
}

#[test]
fn update_signers_rejects_invalid_threshold() {
    let mut wallet =
        initialize_wallet(addr(1), vec![addr(1), addr(2), addr(3)], 2, 100, 1000, 60, 0).unwrap();
    let result = update_signers(&mut wallet, vec![addr(1), addr(2)], 3, addr(1));
    assert_eq!(result.unwrap_err(), MultisigError::InvalidThreshold);
    let result = update_signers(&mut wallet, vec![addr(1), addr(2)], 0, addr(1));
    assert_eq!(result.unwrap_err(), MultisigError::InvalidThreshold);
}

#[test]
fn update_signers_unauthorized_caller_outranks_bad_threshold() {
    // authorization is checked before the new pair is validated: a
    // non-authority signer proposing an invalid threshold is refused as
    // unauthorized, not for the threshold
    let mut wallet = three_signer_wallet();
    let result = update_signers(&mut wallet, vec![addr(1)], 0, addr(1));
    assert_eq!(result.unwrap_err(), MultisigError::NotAuthorized);
    let result = update_signers(&mut wallet, vec![addr(1)], 5, addr(42));
    assert_eq!(result.unwrap_err(), MultisigError::NotAuthorized);
}

#[test]
fn update_signers_by_signing_authority_succeeds() {
    // the authority must itself be a current signer for the update to pass
    let mut wallet =
        initialize_wallet(addr(1), vec![addr(1), addr(2), addr(3)], 2, 100, 1000, 60, 0).unwrap();
    let result = update_signers(&mut wallet, vec![addr(1), addr(4)], 1, addr(1));
    assert_eq!(result, Ok(()));
    assert_eq!(wallet.signers, vec![addr(1), addr(4)]);
    assert_eq!(wallet.threshold, 1);
    // the member records are deliberately not resynchronized
    assert_eq!(wallet.members.len(), 3);
    assert_eq!(wallet.members[1].address, addr(2));
}

#[test]
fn update_signers_on_inactive_wallet_fails() {
    let mut wallet =
        initialize_wallet(addr(1), vec![addr(1), addr(2)], 1, 100, 1000, 60, 0).unwrap();
    wallet.is_active = false;
    let result = update_signers(&mut wallet, vec![addr(1)], 1, addr(1));
    assert_eq!(result.unwrap_err(), MultisigError::WalletInactive);
}

#[test]
fn delegate_vote_sets_member_delegate() {
    let mut wallet = three_signer_wallet();
    let result = delegate_vote(&mut wallet, addr(1), addr(77));
    assert_eq!(result, Ok(()));
    assert_eq!(wallet.members[0].delegate, Some(addr(77)));
    assert_eq!(wallet.members[1].delegate, None);
    assert_eq!(wallet.members[2].delegate, None);
}

#[test]
fn delegate_vote_by_non_signer_fails() {
    let mut wallet = three_signer_wallet();
    let result = delegate_vote(&mut wallet, addr(42), addr(77));
    assert_eq!(result.unwrap_err(), MultisigError::NotAuthorized);
}

#[test]
fn delegate_vote_without_member_record_fails() {
    // a signer added by update_signers has no member record, since the
    // member list is not resynchronized
    let mut wallet =
        initialize_wallet(addr(1), vec![addr(1), addr(2)], 1, 100, 1000, 60, 0).unwrap();
    update_signers(&mut wallet, vec![addr(1), addr(4)], 1, addr(1)).unwrap();
    let result = delegate_vote(&mut wallet, addr(4), addr(77));
    assert_eq!(result.unwrap_err(), MultisigError::MemberNotFound);
}

#[test]
fn set_spending_limits_resets_window() {
    let mut wallet = three_signer_wallet();
    record_spending(&mut wallet, 300, 10).unwrap();
    assert_eq!(wallet.spending_used, 300);
    let result = set_spending_limits(&mut wallet, 500, 120, addr(9), 40);
    assert_eq!(result, Ok(()));
    assert_eq!(wallet.spending_limit, 500);
    assert_eq!(wallet.spending_period, 120);
    assert_eq!(wallet.spending_used, 0);
    assert_eq!(wallet.last_spending_reset, 40);
}

#[test]
fn set_spending_limits_by_non_authority_fails() {
    let mut wallet = three_signer_wallet();
    let result = set_spending_limits(&mut wallet, 500, 120, addr(1), 40);
    assert_eq!(result.unwrap_err(), MultisigError::NotAuthorized);
    assert_eq!(wallet.spending_limit, 1000);
}

#[test]
fn set_spending_limits_rejects_zero_limit() {
    let mut wallet = three_signer_wallet();
    let result = set_spending_limits(&mut wallet, 0, 120, addr(9), 40);
    assert_eq!(result.unwrap_err(), MultisigError::InvalidSpendingLimit);
    assert_eq!(wallet.spending_limit, 1000);
}

#[test]
fn set_spending_limits_unauthorized_caller_outranks_zero_limit() {
    // same precedence as update_signers: a non-authority caller passing
    // a zero limit is refused as unauthorized
    let mut wallet = three_signer_wallet();
    let result = set_spending_limits(&mut wallet, 0, 120, addr(1), 40);
    assert_eq!(result.unwrap_err(), MultisigError::NotAuthorized);
    assert_eq!(wallet.spending_limit, 1000);
}

#[test]
fn record_spending_accumulates_within_window() {
    let mut wallet = three_signer_wallet();
    assert_eq!(record_spending(&mut wallet, 400, 10), Ok(()));
    assert_eq!(record_spending(&mut wallet, 600, 20), Ok(()));
    assert_eq!(wallet.spending_used, 1000);
    assert_eq!(wallet.last_spending_reset, 0);
}

#[test]
fn record_spending_rejects_over_limit_unchanged() {
    let mut wallet = three_signer_wallet();
    record_spending(&mut wallet, 900, 10).unwrap();
    let result = record_spending(&mut wallet, 200, 20);
    assert_eq!(result.unwrap_err(), MultisigError::InvalidSpendingLimit);
    assert_eq!(wallet.spending_used, 900);
    assert_eq!(wallet.last_spending_reset, 0);
}

#[test]
fn record_spending_resets_after_period() {
    let mut wallet = three_signer_wallet();
    record_spending(&mut wallet, 900, 10).unwrap();
    // the window is 60 seconds long and began at 0
    let result = record_spending(&mut wallet, 900, 60);
    assert_eq!(result, Ok(()));
    assert_eq!(wallet.spending_used, 900);
    assert_eq!(wallet.last_spending_reset, 60);
}

#[test]
fn record_spending_on_inactive_wallet_fails() {
    let mut wallet = three_signer_wallet();
    wallet.is_active = false;
    let result = record_spending(&mut wallet, 1, 10);
    assert_eq!(result.unwrap_err(), MultisigError::WalletInactive);
}

#[test]
fn emergency_override_is_reserved_to_authority() {
    let wallet = three_signer_wallet();
    assert_eq!(emergency_override(&wallet, &vec![], addr(9)), Ok(()));
    let result = emergency_override(&wallet, &vec![], addr(1));
    assert_eq!(result.unwrap_err(), MultisigError::NotAuthorized);
}

#[test]
fn emergency_override_on_inactive_wallet_fails() {
    let mut wallet = three_signer_wallet();
    wallet.is_active = false;
    let result = emergency_override(&wallet, &vec![], addr(9));
    assert_eq!(result.unwrap_err(), MultisigError::WalletInactive);
}
