use multisig_vault::error::VaultError;
use multisig_vault::instructions::{
    approve_proposal, cancel_proposal, create_proposal, execute_sol_proposal, execute_token_proposal, initialize,
    reject_proposal,
};
use multisig_vault::oracle::PriceReading;
use multisig_vault::pubkey::Pubkey;
use multisig_vault::state::{PriceCondition, Proposal, ProposalStatus, TransferType, VaultConfig};

fn key(n: u8) -> Pubkey {
    Pubkey::new_from_array([n; 32])
}

fn vault_of(signers: &[u8], threshold: u8) -> VaultConfig {
    let keys: Vec<Pubkey> = signers.iter().map(|&n| key(n)).collect();
    initialize::handler(key(200), keys, threshold, 254).unwrap()
}

fn propose(vault: &mut VaultConfig, proposer: u8, amount: u64) -> Result<Proposal, VaultError> {
    propose_with(vault, proposer, amount, TransferType::Sol, None)
}

fn propose_with(
    vault: &mut VaultConfig,
    proposer: u8,
    amount: u64,
    transfer_type: TransferType,
    price_condition: Option<PriceCondition>,
) -> Result<Proposal, VaultError> {
    create_proposal::handler(
        vault,
        key(201),
        key(proposer),
        key(99),
        amount,
        transfer_type,
        String::from("pay the auditors"),
        price_condition,
        253,
    )
}

#[test]
fn initialize_accepts_valid_committee() {
    let vault = initialize::handler(key(7), vec![key(1), key(2), key(3)], 2, 9).unwrap();
    assert_eq!(vault.creator, key(7));
    assert_eq!(vault.signers, vec![key(1), key(2), key(3)]);
    assert_eq!(vault.threshold, 2);
    assert_eq!(vault.proposal_count, 0);
    assert_eq!(vault.bump, 9);
    assert!(vault.is_valid());
}

#[test]
fn initialize_rejects_empty_signer_list() {
    let r = initialize::handler(key(7), vec![], 1, 0);
    assert_eq!(r.unwrap_err(), VaultError::TooManySigners);
}

#[test]
fn initialize_rejects_eleven_signers() {
    let signers: Vec<Pubkey> = (1..=11).map(key).collect();
    assert_eq!(initialize::handler(key(7), signers, 0, 0).unwrap_err(), VaultError::TooManySigners);
}

#[test]
fn initialize_accepts_ten_signers() {
    let signers: Vec<Pubkey> = (1..=10).map(key).collect();
    assert!(initialize::handler(key(7), signers, 10, 0).is_ok());
}

#[test]
fn initialize_rejects_bad_thresholds() {
    let r = initialize::handler(key(7), vec![key(1), key(2)], 0, 0);
    assert_eq!(r.unwrap_err(), VaultError::InvalidThreshold);
    let r = initialize::handler(key(7), vec![key(1), key(2)], 3, 0);
    assert_eq!(r.unwrap_err(), VaultError::InvalidThreshold);
}

#[test]
fn initialize_rejects_duplicate_signers() {
    let r = initialize::handler(key(7), vec![key(3), key(1), key(3)], 2, 0);
    assert_eq!(r.unwrap_err(), VaultError::DuplicateSigner);
}

#[test]
fn is_valid_spots_a_broken_committee() {
    let mut vault = vault_of(&[1, 2], 2);
    vault.threshold = 3;
    assert!(!vault.is_valid());
    vault.threshold = 1;
    vault.signers.push(key(1));
    assert!(!vault.is_valid());
}

#[test]
fn create_records_proposer_and_advances_counter() {
    let mut vault = vault_of(&[1, 2, 3], 2);
    let p = propose(&mut vault, 2, 500).unwrap();
    assert_eq!(p.vault, key(201));
    assert_eq!(p.proposal_id, 0);
    assert_eq!(p.proposer, key(2));
    assert_eq!(p.recipient, key(99));
    assert_eq!(p.amount, 500);
    assert_eq!(p.approvals, vec![key(2)]);
    assert!(p.rejections.is_empty());
    assert_eq!(p.status, ProposalStatus::Active);
    assert_eq!(p.description, "pay the auditors");
    assert_eq!(vault.proposal_count, 1);
    let q = propose(&mut vault, 1, 1).unwrap();
    assert_eq!(q.proposal_id, 1);
    assert_eq!(vault.proposal_count, 2);
}

#[test]
fn create_by_outsider_fails() {
    let mut vault = vault_of(&[1, 2, 3], 2);
    assert_eq!(propose(&mut vault, 4, 10).unwrap_err(), VaultError::UnauthorizedSigner);
    assert_eq!(vault.proposal_count, 0);
}

#[test]
fn create_bounds_description_in_bytes() {
    let mut vault = vault_of(&[1], 1);
    let ok = create_proposal::handler(&mut vault, key(201), key(1), key(99), 1, TransferType::Sol, "x".repeat(200), None, 0);
    assert!(ok.is_ok());
    let long = create_proposal::handler(&mut vault, key(201), key(1), key(99), 1, TransferType::Sol, "x".repeat(201), None, 0);
    assert_eq!(long.unwrap_err(), VaultError::DescriptionTooLong);
    let wide = create_proposal::handler(&mut vault, key(201), key(1), key(99), 1, TransferType::Sol, "\u{e9}".repeat(101), None, 0);
    assert_eq!(wide.unwrap_err(), VaultError::DescriptionTooLong);
    assert_eq!(vault.proposal_count, 1);
}

#[test]
fn threshold_one_proposal_is_approved_at_once() {
    let mut vault = vault_of(&[1, 2, 3], 1);
    let p = propose(&mut vault, 3, 10).unwrap();
    assert_eq!(p.status, ProposalStatus::Approved);
    assert_eq!(p.approvals, vec![key(3)]);
}

#[test]
fn two_of_three_scenario() {
    let mut vault = vault_of(&[1, 2, 3], 2);
    let mut p = propose(&mut vault, 1, 100).unwrap();
    assert_eq!(p.approvals.len(), 1);
    approve_proposal::handler(&vault, &mut p, key(2)).unwrap();
    assert_eq!(p.status, ProposalStatus::Approved);
    // Votes after the decision are refused.
    assert_eq!(approve_proposal::handler(&vault, &mut p, key(3)).unwrap_err(), VaultError::ProposalNotActive);
    assert_eq!(p.approvals, vec![key(1), key(2)]);
    let after = execute_sol_proposal::handler(&vault, &mut p, key(3), key(99), None, 1_000, 50).unwrap();
    assert_eq!(after, 900);
    assert_eq!(p.status, ProposalStatus::Executed);
    let again = execute_sol_proposal::handler(&vault, &mut p, key(3), key(99), None, 900, 50);
    assert_eq!(again.unwrap_err(), VaultError::ProposalNotActive);
}

#[test]
fn three_of_four_scenario() {
    let mut vault = vault_of(&[1, 2, 3, 4], 3);
    let mut p = propose(&mut vault, 1, 100).unwrap();
    reject_proposal::handler(&vault, &mut p, key(2)).unwrap();
    assert_eq!(p.status, ProposalStatus::Active);
    reject_proposal::handler(&vault, &mut p, key(3)).unwrap();
    assert_eq!(p.status, ProposalStatus::Rejected);
    assert_eq!(approve_proposal::handler(&vault, &mut p, key(4)).unwrap_err(), VaultError::ProposalNotActive);
    assert_eq!(reject_proposal::handler(&vault, &mut p, key(4)).unwrap_err(), VaultError::ProposalNotActive);
    assert_eq!(p.rejections, vec![key(2), key(3)]);
}

#[test]
fn votes_never_repeat_or_overlap() {
    let mut vault = vault_of(&[1, 2, 3, 4, 5], 4);
    let mut p = propose(&mut vault, 1, 100).unwrap();
    assert_eq!(approve_proposal::handler(&vault, &mut p, key(1)).unwrap_err(), VaultError::AlreadyVoted);
    assert_eq!(reject_proposal::handler(&vault, &mut p, key(1)).unwrap_err(), VaultError::AlreadyVoted);
    reject_proposal::handler(&vault, &mut p, key(2)).unwrap();
    assert_eq!(approve_proposal::handler(&vault, &mut p, key(2)).unwrap_err(), VaultError::AlreadyVoted);
    assert_eq!(approve_proposal::handler(&vault, &mut p, key(9)).unwrap_err(), VaultError::UnauthorizedSigner);
    approve_proposal::handler(&vault, &mut p, key(3)).unwrap();
    assert_eq!(p.status, ProposalStatus::Active);
    for k in &p.approvals {
        assert!(!p.rejections.contains(k));
    }
    approve_proposal::handler(&vault, &mut p, key(4)).unwrap();
    assert_eq!(p.status, ProposalStatus::Active);
    approve_proposal::handler(&vault, &mut p, key(5)).unwrap();
    assert_eq!(p.status, ProposalStatus::Approved);
}

#[test]
fn cancel_only_by_proposer_while_active() {
    let mut vault = vault_of(&[1, 2, 3], 2);
    let mut p = propose(&mut vault, 1, 100).unwrap();
    assert_eq!(cancel_proposal::handler(&mut p, key(2)).unwrap_err(), VaultError::NotProposer);
    cancel_proposal::handler(&mut p, key(1)).unwrap();
    assert_eq!(p.status, ProposalStatus::Cancelled);
    assert_eq!(p.approvals, vec![key(1)]);
    assert_eq!(cancel_proposal::handler(&mut p, key(1)).unwrap_err(), VaultError::ProposalNotActive);
    assert_eq!(approve_proposal::handler(&vault, &mut p, key(2)).unwrap_err(), VaultError::ProposalNotActive);
}

#[test]
fn cancel_after_approval_fails() {
    let mut vault = vault_of(&[1], 1);
    let mut p = propose(&mut vault, 1, 100).unwrap();
    assert_eq!(cancel_proposal::handler(&mut p, key(1)).unwrap_err(), VaultError::ProposalNotActive);
}

#[test]
fn execute_requires_approval_signer_and_recipient() {
    let mut vault = vault_of(&[1, 2], 2);
    let mut p = propose(&mut vault, 1, 100).unwrap();
    let r = execute_sol_proposal::handler(&vault, &mut p, key(1), key(99), None, 1_000, 0);
    assert_eq!(r.unwrap_err(), VaultError::ProposalNotActive);
    approve_proposal::handler(&vault, &mut p, key(2)).unwrap();
    let r = execute_sol_proposal::handler(&vault, &mut p, key(5), key(99), None, 1_000, 0);
    assert_eq!(r.unwrap_err(), VaultError::UnauthorizedSigner);
    let r = execute_sol_proposal::handler(&vault, &mut p, key(1), key(98), None, 1_000, 0);
    assert_eq!(r.unwrap_err(), VaultError::UnauthorizedSigner);
    let r = execute_token_proposal::handler(&vault, &mut p, key(1), key(99), key(50), None, 1_000);
    assert_eq!(r.unwrap_err(), VaultError::UnauthorizedSigner);
    assert_eq!(p.status, ProposalStatus::Approved);
}

#[test]
fn execute_native_keeps_the_reserve() {
    let mut vault = vault_of(&[1], 1);
    let mut p = propose(&mut vault, 1, 100).unwrap();
    let r = execute_sol_proposal::handler(&vault, &mut p, key(1), key(99), None, 149, 50);
    assert_eq!(r.unwrap_err(), VaultError::InsufficientBalance);
    let r = execute_sol_proposal::handler(&vault, &mut p, key(1), key(99), None, 40, 50);
    assert_eq!(r.unwrap_err(), VaultError::InsufficientBalance);
    assert_eq!(p.status, ProposalStatus::Approved);
    let r = execute_sol_proposal::handler(&vault, &mut p, key(1), key(99), None, 150, 50);
    assert_eq!(r.unwrap(), 50);
    assert_eq!(p.status, ProposalStatus::Executed);
}

#[test]
fn execute_native_below_reserve_releases_only_nothing() {
    let mut vault = vault_of(&[1], 1);
    let mut one = propose(&mut vault, 1, 1).unwrap();
    let r = execute_sol_proposal::handler(&vault, &mut one, key(1), key(99), None, 40, 50);
    assert_eq!(r.unwrap_err(), VaultError::InsufficientBalance);
    assert_eq!(one.status, ProposalStatus::Approved);
    let mut nothing = propose(&mut vault, 1, 0).unwrap();
    let r = execute_sol_proposal::handler(&vault, &mut nothing, key(1), key(99), None, 40, 50);
    assert_eq!(r.unwrap(), 40);
    assert_eq!(nothing.status, ProposalStatus::Executed);
}

#[test]
fn execute_native_at_reserve_keeps_it() {
    let mut vault = vault_of(&[1], 1);
    let mut p = propose(&mut vault, 1, 0).unwrap();
    let r = execute_sol_proposal::handler(&vault, &mut p, key(1), key(99), None, 50, 50);
    assert_eq!(r.unwrap(), 50);
    assert_eq!(p.status, ProposalStatus::Executed);
}

#[test]
fn execute_token_checks_mint_and_holding() {
    let mut vault = vault_of(&[1], 1);
    let mut p = propose_with(&mut vault, 1, 70, TransferType::SplToken { mint: key(50) }, None).unwrap();
    let r = execute_token_proposal::handler(&vault, &mut p, key(1), key(99), key(51), None, 1_000);
    assert_eq!(r.unwrap_err(), VaultError::UnauthorizedSigner);
    let r = execute_sol_proposal::handler(&vault, &mut p, key(1), key(99), None, 1_000, 0);
    assert_eq!(r.unwrap_err(), VaultError::UnauthorizedSigner);
    let r = execute_token_proposal::handler(&vault, &mut p, key(1), key(99), key(50), None, 69);
    assert_eq!(r.unwrap_err(), VaultError::InsufficientBalance);
    let r = execute_token_proposal::handler(&vault, &mut p, key(1), key(99), key(50), None, 70);
    assert_eq!(r.unwrap(), 70);
    assert_eq!(p.status, ProposalStatus::Executed);
    let r = execute_token_proposal::handler(&vault, &mut p, key(1), key(99), key(50), None, 70);
    assert_eq!(r.unwrap_err(), VaultError::ProposalNotActive);
}

fn gated() -> PriceCondition {
    // Between 150 and 200, at most 60 units old.
    PriceCondition { feed: key(77), min_price: Some(15_000_000_000), max_price: Some(20_000_000_000), max_staleness: 60 }
}

fn reading(price: i128, scale: u32, staleness: u64) -> Option<PriceReading> {
    Some(PriceReading { feed: key(77), price, scale, staleness })
}

fn gated_native(r: Option<PriceReading>) -> (Result<u64, VaultError>, ProposalStatus) {
    let mut vault = vault_of(&[1], 1);
    let mut p = propose_with(&mut vault, 1, 10, TransferType::Sol, Some(gated())).unwrap();
    let out = execute_sol_proposal::handler(&vault, &mut p, key(1), key(99), r, 1_000, 0);
    (out, p.status)
}

#[test]
fn price_gate_needs_a_reading_of_the_feed() {
    assert_eq!(gated_native(None).0.unwrap_err(), VaultError::PriceConditionNotMet);
    let other = Some(PriceReading { feed: key(78), price: 17_500_000_000, scale: 8, staleness: 0 });
    assert_eq!(gated_native(other).0.unwrap_err(), VaultError::PriceConditionNotMet);
}

#[test]
fn stale_reading_fails_even_in_bounds() {
    let (out, status) = gated_native(reading(17_500_000_000, 8, 61));
    assert_eq!(out.unwrap_err(), VaultError::StalePriceFeed);
    assert_eq!(status, ProposalStatus::Approved);
    assert!(gated_native(reading(17_500_000_000, 8, 60)).0.is_ok());
}

#[test]
fn reading_with_too_many_digits_is_unusable() {
    assert_eq!(gated_native(reading(175, 29, 0)).0.unwrap_err(), VaultError::StalePriceFeed);
}

#[test]
fn price_bounds_compare_exact_values_across_scales() {
    // 150.0000 and 200.0000 at four digits sit on the bounds.
    assert!(gated_native(reading(1_500_000, 4, 0)).0.is_ok());
    assert!(gated_native(reading(2_000_000, 4, 0)).0.is_ok());
    // 149.9999 and 200.0001 fall outside.
    assert_eq!(gated_native(reading(1_499_999, 4, 0)).0.unwrap_err(), VaultError::PriceConditionNotMet);
    assert_eq!(gated_native(reading(2_000_001, 4, 0)).0.unwrap_err(), VaultError::PriceConditionNotMet);
    // 150.000000001 at nine digits is just above the lower bound.
    assert!(gated_native(reading(150_000_000_001, 9, 0)).0.is_ok());
    // 149.999999999 at nine digits is just below it.
    assert_eq!(gated_native(reading(149_999_999_999, 9, 0)).0.unwrap_err(), VaultError::PriceConditionNotMet);
    // A price of 175 with no fractional digits.
    assert!(gated_native(reading(175, 0, 0)).0.is_ok());
    assert_eq!(gated_native(reading(-175, 0, 0)).0.unwrap_err(), VaultError::PriceConditionNotMet);
}

#[test]
fn prices_with_eighteen_digits_are_compared_exactly() {
    let one = 1_000_000_000_000_000_000i128;
    assert!(gated_native(reading(175 * one, 18, 0)).0.is_ok());
    assert!(gated_native(reading(150 * one, 18, 0)).0.is_ok());
    assert_eq!(gated_native(reading(150 * one - 1, 18, 0)).0.unwrap_err(), VaultError::PriceConditionNotMet);
    assert_eq!(gated_native(reading(200 * one + 1, 18, 0)).0.unwrap_err(), VaultError::PriceConditionNotMet);
}

#[test]
fn mantissa_beyond_ninety_six_bits_is_unusable() {
    let largest: i128 = (1i128 << 96) - 1;
    assert_eq!(gated_native(reading(largest, 28, 0)).0.unwrap_err(), VaultError::PriceConditionNotMet);
    assert_eq!(gated_native(reading(largest + 1, 28, 0)).0.unwrap_err(), VaultError::StalePriceFeed);
    assert_eq!(gated_native(reading(-largest - 1, 28, 0)).0.unwrap_err(), VaultError::StalePriceFeed);
}

#[test]
fn open_bounds_are_not_checked() {
    let mut vault = vault_of(&[1], 1);
    let cond = PriceCondition { feed: key(77), min_price: None, max_price: Some(100), max_staleness: 5 };
    let mut p = propose_with(&mut vault, 1, 10, TransferType::Sol, Some(cond)).unwrap();
    let r = execute_sol_proposal::handler(&vault, &mut p, key(1), key(99), reading(i64::MIN as i128, 8, 5), 10, 0);
    assert_eq!(r.unwrap(), 0);
}
