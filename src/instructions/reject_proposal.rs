use vstd::prelude::*;

use crate::error::VaultError;
use crate::instructions::approve_proposal::{check_vote, vote_error};
use crate::pubkey::Pubkey;
use crate::state::{Proposal, ProposalStatus, ProposalView, VaultConfig, VaultView};

verus! {

/// The proposal after `voter` rejects it: rejected once the approvals so far,
/// with every signer who has not voted yet, could no longer reach the
/// threshold.
pub open spec fn rejected_by(vault: VaultView, p: ProposalView, voter: Pubkey) -> ProposalView {
    let rejections = p.rejections.push(voter);
    let remaining = vault.signers.len() - (p.approvals.len() + rejections.len());
    ProposalView {
        rejections,
        status: if p.approvals.len() + remaining < vault.threshold {
            ProposalStatus::Rejected
        } else {
            p.status
        },
        ..p
    }
}

/// `signer` rejects the proposal.
pub fn handler(vault: &VaultConfig, proposal: &mut Proposal, signer: Pubkey) -> (r: Result<(), VaultError>)
    requires
        vault.wf(),
    ensures
        match r {
            Ok(()) => {
                &&& vote_error(vault@, old(proposal)@, signer) is None
                &&& final(proposal)@ == rejected_by(vault@, old(proposal)@, signer)
            },
            Err(e) => {
                &&& vote_error(vault@, old(proposal)@, signer) == Some(e)
                &&& final(proposal)@ == old(proposal)@
            },
        },
{
    check_vote(vault, proposal, &signer)?;
    proposal.rejections.push(signer);
    // Approvals so far plus the signers yet to vote fall short of the
    // threshold exactly when fewer signers than the threshold have not
    // rejected.
    if vault.signers.len() - (vault.threshold as usize) < proposal.rejections.len() {
        proposal.status = ProposalStatus::Rejected;
    }
    Ok(())
}

} // verus!
