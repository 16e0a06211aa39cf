use vstd::prelude::*;

use crate::error::VaultError;
use crate::pubkey::{contains_key, Pubkey};
use crate::state::{Proposal, ProposalStatus, ProposalView, VaultConfig, VaultView};

verus! {

/// Why `voter` may not vote on the proposal, if it may not: votes are taken
/// only while the proposal is active, from signers who have not voted yet.
pub open spec fn vote_error(vault: VaultView, p: ProposalView, voter: Pubkey) -> Option<VaultError> {
    if p.status != ProposalStatus::Active {
        Some(VaultError::ProposalNotActive)
    } else if !vault.signers.contains(voter) {
        Some(VaultError::UnauthorizedSigner)
    } else if p.has_voted(voter) {
        Some(VaultError::AlreadyVoted)
    } else {
        None
    }
}

/// The proposal after `voter` approves it: approved once the approvals reach
/// the threshold.
pub open spec fn approved_by(vault: VaultView, p: ProposalView, voter: Pubkey) -> ProposalView {
    let approvals = p.approvals.push(voter);
    ProposalView {
        approvals,
        status: if approvals.len() >= vault.threshold {
            ProposalStatus::Approved
        } else {
            p.status
        },
        ..p
    }
}

/// Checks that `voter` may vote on `proposal` now.
pub(crate) fn check_vote(vault: &VaultConfig, proposal: &Proposal, voter: &Pubkey) -> (r: Result<(), VaultError>)
    ensures
        r matches Err(e) ==> vote_error(vault@, proposal@, *voter) == Some(e),
        r is Ok <==> vote_error(vault@, proposal@, *voter) is None,
{
    if proposal.status != ProposalStatus::Active {
        return Err(VaultError::ProposalNotActive);
    }
    if !contains_key(&vault.signers, voter) {
        return Err(VaultError::UnauthorizedSigner);
    }
    if contains_key(&proposal.approvals, voter) || contains_key(&proposal.rejections, voter) {
        return Err(VaultError::AlreadyVoted);
    }
    Ok(())
}

/// `signer` approves the proposal.
pub fn handler(vault: &VaultConfig, proposal: &mut Proposal, signer: Pubkey) -> (r: Result<(), VaultError>)
    ensures
        match r {
            Ok(()) => {
                &&& vote_error(vault@, old(proposal)@, signer) is None
                &&& final(proposal)@ == approved_by(vault@, old(proposal)@, signer)
            },
            Err(e) => {
                &&& vote_error(vault@, old(proposal)@, signer) == Some(e)
                &&& final(proposal)@ == old(proposal)@
            },
        },
{
    check_vote(vault, proposal, &signer)?;
    proposal.approvals.push(signer);
    if proposal.approvals.len() >= vault.threshold as usize {
        proposal.status = ProposalStatus::Approved;
    }
    Ok(())
}

} // verus!
