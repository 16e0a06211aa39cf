use vstd::prelude::*;
use vstd::utf8::encode_utf8;

use crate::constants::MAX_DESCRIPTION_LEN;
use crate::error::VaultError;
use crate::pubkey::{contains_key, Pubkey};
use crate::state::{PriceCondition, Proposal, ProposalStatus, ProposalView, TransferType, VaultConfig, VaultView};

verus! {

/// Why `proposer` may not open a proposal with this description, if it may not.
pub open spec fn create_error(vault: VaultView, proposer: Pubkey, description: Seq<char>) -> Option<VaultError> {
    if !vault.signers.contains(proposer) {
        Some(VaultError::UnauthorizedSigner)
    } else if encode_utf8(description).len() > MAX_DESCRIPTION_LEN {
        Some(VaultError::DescriptionTooLong)
    } else {
        None
    }
}

/// The proposal a signer opens: numbered by the vault's counter, with the
/// proposer's own approval, and approved at once where one approval suffices.
pub open spec fn opened_proposal(
    vault: VaultView,
    vault_key: Pubkey,
    proposer: Pubkey,
    recipient: Pubkey,
    amount: u64,
    transfer_type: TransferType,
    description: Seq<char>,
    price_condition: Option<PriceCondition>,
    bump: u8,
) -> ProposalView {
    ProposalView {
        vault: vault_key,
        proposal_id: vault.proposal_count as u64,
        proposer,
        recipient,
        amount,
        transfer_type,
        description,
        price_condition,
        approvals: seq![proposer],
        rejections: Seq::empty(),
        status: if vault.threshold <= 1 {
            ProposalStatus::Approved
        } else {
            ProposalStatus::Active
        },
        bump,
    }
}

/// `proposer` asks the vault at `vault_key` to send `amount` to `recipient`.
/// On success the vault's counter has moved on by one.
pub fn handler(
    vault: &mut VaultConfig,
    vault_key: Pubkey,
    proposer: Pubkey,
    recipient: Pubkey,
    amount: u64,
    transfer_type: TransferType,
    description: String,
    price_condition: Option<PriceCondition>,
    bump: u8,
) -> (r: Result<Proposal, VaultError>)
    requires
        old(vault).proposal_count < u64::MAX,
    ensures
        match r {
            Ok(p) => {
                &&& create_error(old(vault)@, proposer, description@) is None
                &&& p@ == opened_proposal(
                    old(vault)@,
                    vault_key,
                    proposer,
                    recipient,
                    amount,
                    transfer_type,
                    description@,
                    price_condition,
                    bump,
                )
                &&& final(vault)@ == (VaultView { proposal_count: old(vault)@.proposal_count + 1, ..old(vault)@ })
            },
            Err(e) => {
                &&& create_error(old(vault)@, proposer, description@) == Some(e)
                &&& final(vault)@ == old(vault)@
            },
        },
{
    if !contains_key(&vault.signers, &proposer) {
        return Err(VaultError::UnauthorizedSigner);
    }
    if description.as_str().as_bytes().len() > MAX_DESCRIPTION_LEN {
        return Err(VaultError::DescriptionTooLong);
    }
    let status = if vault.threshold <= 1 {
        ProposalStatus::Approved
    } else {
        ProposalStatus::Active
    };
    let proposal = Proposal {
        vault: vault_key,
        proposal_id: vault.proposal_count,
        proposer,
        recipient,
        amount,
        transfer_type,
        description,
        price_condition,
        approvals: vec![proposer],
        rejections: Vec::new(),
        status,
        bump,
    };
    vault.proposal_count = vault.proposal_count + 1;
    assert(proposal@.approvals =~= seq![proposer]);
    assert(proposal@.rejections =~= Seq::<Pubkey>::empty());
    Ok(proposal)
}

} // verus!
