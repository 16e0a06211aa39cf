use vstd::prelude::*;

use crate::constants::MAX_SIGNERS;
use crate::error::VaultError;
use crate::pubkey::{has_duplicate, Pubkey};
use crate::state::{committee_valid, VaultConfig};

verus! {

/// The first check that a committee fails, in the order they are made.
pub open spec fn initialize_error(signers: Seq<Pubkey>, threshold: int) -> Option<VaultError> {
    if signers.len() == 0 || signers.len() > MAX_SIGNERS {
        Some(VaultError::TooManySigners)
    } else if threshold < 1 || threshold > signers.len() {
        Some(VaultError::InvalidThreshold)
    } else if !signers.no_duplicates() {
        Some(VaultError::DuplicateSigner)
    } else {
        None
    }
}

/// Sets up a vault for `creator` with a committee of `signers`, of whom
/// `threshold` must approve a proposal. The new vault has made no proposal.
pub fn handler(creator: Pubkey, signers: Vec<Pubkey>, threshold: u8, bump: u8) -> (r: Result<
    VaultConfig,
    VaultError,
>)
    ensures
        r is Ok <==> committee_valid(signers@, threshold as int),
        match r {
            Ok(vault) => {
                &&& vault.wf()
                &&& vault.creator == creator
                &&& vault.signers@ == signers@
                &&& vault.threshold == threshold
                &&& vault.proposal_count == 0
                &&& vault.bump == bump
            },
            Err(e) => initialize_error(signers@, threshold as int) == Some(e),
        },
{
    if signers.len() == 0 || signers.len() > MAX_SIGNERS {
        return Err(VaultError::TooManySigners);
    }
    if threshold < 1 || threshold as usize > signers.len() {
        return Err(VaultError::InvalidThreshold);
    }
    if has_duplicate(&signers) {
        return Err(VaultError::DuplicateSigner);
    }
    Ok(VaultConfig { creator, signers, threshold, proposal_count: 0, bump })
}

} // verus!
