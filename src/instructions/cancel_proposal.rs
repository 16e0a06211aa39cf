use vstd::prelude::*;

use crate::error::VaultError;
use crate::pubkey::Pubkey;
use crate::state::{Proposal, ProposalStatus, ProposalView};

verus! {

/// Why `signer` may not cancel the proposal, if it may not.
pub open spec fn cancel_error(p: ProposalView, signer: Pubkey) -> Option<VaultError> {
    if p.status != ProposalStatus::Active {
        Some(VaultError::ProposalNotActive)
    } else if p.proposer != signer {
        Some(VaultError::NotProposer)
    } else {
        None
    }
}

/// The proposer withdraws an active proposal; votes are kept as they were.
pub fn handler(proposal: &mut Proposal, signer: Pubkey) -> (r: Result<(), VaultError>)
    ensures
        match r {
            Ok(()) => {
                &&& cancel_error(old(proposal)@, signer) is None
                &&& final(proposal)@ == (ProposalView { status: ProposalStatus::Cancelled, ..old(proposal)@ })
            },
            Err(e) => {
                &&& cancel_error(old(proposal)@, signer) == Some(e)
                &&& final(proposal)@ == old(proposal)@
            },
        },
{
    if proposal.status != ProposalStatus::Active {
        return Err(VaultError::ProposalNotActive);
    }
    if proposal.proposer != signer {
        return Err(VaultError::NotProposer);
    }
    proposal.status = ProposalStatus::Cancelled;
    Ok(())
}

} // verus!
