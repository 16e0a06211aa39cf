use vstd::prelude::*;

use crate::error::VaultError;
use crate::instructions::execute_sol_proposal::{check_release, release_error};
use crate::oracle::PriceReading;
use crate::pubkey::Pubkey;
use crate::state::{Proposal, ProposalStatus, ProposalView, TransferType, VaultConfig, VaultView};

verus! {

/// Why a token release of the proposal fails, if it does.
pub open spec fn execute_token_error(
    vault: VaultView,
    p: ProposalView,
    executor: Pubkey,
    recipient: Pubkey,
    mint: Pubkey,
    reading: Option<PriceReading>,
    vault_token_balance: u64,
) -> Option<VaultError> {
    match release_error(vault, p, executor, recipient, TransferType::SplToken { mint }, reading) {
        Some(e) => Some(e),
        None => if p.amount > vault_token_balance {
            Some(VaultError::InsufficientBalance)
        } else {
            None
        },
    }
}

/// `executor` releases an approved proposal's tokens of `mint` to `recipient`.
///
/// `vault_token_balance` is what the vault's holding of that token holds now.
/// On success the proposal is executed and the number of tokens to move is
/// returned: exactly the proposal's amount, which the holding covers.
pub fn handler(
    vault: &VaultConfig,
    proposal: &mut Proposal,
    executor: Pubkey,
    recipient: Pubkey,
    mint: Pubkey,
    reading: Option<PriceReading>,
    vault_token_balance: u64,
) -> (r: Result<u64, VaultError>)
    ensures
        match r {
            Ok(amount) => {
                &&& execute_token_error(vault@, old(proposal)@, executor, recipient, mint, reading, vault_token_balance) is None
                &&& amount == old(proposal).amount
                &&& amount <= vault_token_balance
                &&& final(proposal)@ == (ProposalView { status: ProposalStatus::Executed, ..old(proposal)@ })
            },
            Err(e) => {
                &&& execute_token_error(vault@, old(proposal)@, executor, recipient, mint, reading, vault_token_balance) == Some(e)
                &&& final(proposal)@ == old(proposal)@
            },
        },
{
    check_release(vault, proposal, &executor, &recipient, &TransferType::SplToken { mint }, &reading)?;
    if vault_token_balance < proposal.amount {
        return Err(VaultError::InsufficientBalance);
    }
    proposal.status = ProposalStatus::Executed;
    Ok(proposal.amount)
}

} // verus!
