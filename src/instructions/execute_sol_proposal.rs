use vstd::prelude::*;

use crate::error::VaultError;
use crate::oracle::{check_price, price_gate, PriceReading};
use crate::pubkey::{contains_key, Pubkey};
use crate::state::{Proposal, ProposalStatus, ProposalView, TransferType, VaultConfig, VaultView};

verus! {

/// Why `executor` may not release the proposal's funds to `recipient` as
/// `transfer_type`, given `reading`, before any balance is looked at.
///
/// Only an approved proposal is executed, by a signer, towards the recipient
/// and in the kind of funds it names, and only once its price gate is passed.
pub open spec fn release_error(
    vault: VaultView,
    p: ProposalView,
    executor: Pubkey,
    recipient: Pubkey,
    transfer_type: TransferType,
    reading: Option<PriceReading>,
) -> Option<VaultError> {
    if p.status != ProposalStatus::Approved {
        Some(VaultError::ProposalNotActive)
    } else if !vault.signers.contains(executor) {
        Some(VaultError::UnauthorizedSigner)
    } else if p.recipient != recipient || p.transfer_type != transfer_type {
        Some(VaultError::UnauthorizedSigner)
    } else {
        price_gate(p.price_condition, reading)
    }
}

/// What the vault may spend: its balance above the reserve that keeps its
/// account alive, or nothing where the balance does not exceed the reserve.
pub open spec fn available(balance: u64, reserve: u64) -> int {
    if balance >= reserve {
        balance - reserve
    } else {
        0
    }
}

/// Why a native release of the proposal fails, if it does.
pub open spec fn execute_sol_error(
    vault: VaultView,
    p: ProposalView,
    executor: Pubkey,
    recipient: Pubkey,
    reading: Option<PriceReading>,
    vault_balance: u64,
    reserve: u64,
) -> Option<VaultError> {
    match release_error(vault, p, executor, recipient, TransferType::Sol, reading) {
        Some(e) => Some(e),
        None => if p.amount > available(vault_balance, reserve) {
            Some(VaultError::InsufficientBalance)
        } else {
            None
        },
    }
}

/// Checks that `executor` may release the proposal's funds to `recipient` as
/// `transfer_type`, given `reading`.
pub(crate) fn check_release(
    vault: &VaultConfig,
    proposal: &Proposal,
    executor: &Pubkey,
    recipient: &Pubkey,
    transfer_type: &TransferType,
    reading: &Option<PriceReading>,
) -> (r: Result<(), VaultError>)
    ensures
        r matches Err(e) ==> release_error(vault@, proposal@, *executor, *recipient, *transfer_type, *reading) == Some(e),
        r is Ok <==> release_error(vault@, proposal@, *executor, *recipient, *transfer_type, *reading) is None,
{
    if proposal.status != ProposalStatus::Approved {
        return Err(VaultError::ProposalNotActive);
    }
    if !contains_key(&vault.signers, executor) {
        return Err(VaultError::UnauthorizedSigner);
    }
    if proposal.recipient != *recipient || proposal.transfer_type != *transfer_type {
        return Err(VaultError::UnauthorizedSigner);
    }
    check_price(&proposal.price_condition, reading)
}

/// `executor` releases an approved proposal's native funds to `recipient`.
///
/// `vault_balance` is what the vault holds now and `reserve` what it must keep.
/// On success the proposal is executed and the vault's new balance is
/// returned: exactly the proposal's amount less, and still at least the
/// reserve where the vault held that much before.
pub fn handler(
    vault: &VaultConfig,
    proposal: &mut Proposal,
    executor: Pubkey,
    recipient: Pubkey,
    reading: Option<PriceReading>,
    vault_balance: u64,
    reserve: u64,
) -> (r: Result<u64, VaultError>)
    ensures
        match r {
            Ok(balance_after) => {
                &&& execute_sol_error(vault@, old(proposal)@, executor, recipient, reading, vault_balance, reserve) is None
                &&& balance_after == vault_balance - old(proposal).amount
                &&& old(proposal).amount <= available(vault_balance, reserve)
                &&& vault_balance >= reserve ==> balance_after >= reserve
                &&& final(proposal)@ == (ProposalView { status: ProposalStatus::Executed, ..old(proposal)@ })
            },
            Err(e) => {
                &&& execute_sol_error(vault@, old(proposal)@, executor, recipient, reading, vault_balance, reserve) == Some(e)
                &&& final(proposal)@ == old(proposal)@
            },
        },
{
    check_release(vault, proposal, &executor, &recipient, &TransferType::Sol, &reading)?;
    if vault_balance.saturating_sub(reserve) < proposal.amount {
        return Err(VaultError::InsufficientBalance);
    }
    proposal.status = ProposalStatus::Executed;
    Ok(vault_balance - proposal.amount)
}

} // verus!
