use vstd::prelude::*;

use crate::constants::MAX_SIGNERS;
use crate::pubkey::{has_duplicate, Pubkey};

verus! {

/// Where a proposal stands in its lifecycle.
#[derive(Clone, Copy, Debug, PartialEq, Eq, Structural)]
pub enum ProposalStatus {
    Active,
    Approved,
    Executed,
    Rejected,
    Cancelled,
}

/// What a proposal moves: the native currency, or a fungible token of a mint.
#[derive(Clone, Copy, Debug)]
pub enum TransferType {
    Sol,
    SplToken { mint: Pubkey },
}

impl PartialEq for TransferType {
    fn eq(&self, other: &TransferType) -> (r: bool)
        ensures
            r == (*self == *other),
    {
        match (self, other) {
            (TransferType::Sol, TransferType::Sol) => true,
            (TransferType::SplToken { mint: a }, TransferType::SplToken { mint: b }) => a == b,
            _ => false,
        }
    }
}

impl Eq for TransferType {
}

impl vstd::std_specs::cmp::PartialEqSpecImpl for TransferType {
    open spec fn obeys_eq_spec() -> bool {
        true
    }

    open spec fn eq_spec(&self, other: &TransferType) -> bool {
        *self == *other
    }
}

/// A gate on execution: a price read from `feed` must be fresh enough and,
/// where bounds are set, within them. Bounds carry eight fractional decimal
/// digits (`15_000_000_000` is 150).
#[derive(Clone, Copy, Debug)]
pub struct PriceCondition {
    pub feed: Pubkey,
    pub min_price: Option<i64>,
    pub max_price: Option<i64>,
    /// Largest staleness accepted, in the unit the oracle reports it.
    pub max_staleness: u64,
}

/// The committee of a vault.
#[derive(Clone, Debug)]
pub struct VaultConfig {
    pub creator: Pubkey,
    pub signers: Vec<Pubkey>,
    pub threshold: u8,
    pub proposal_count: u64,
    pub bump: u8,
}

/// The committee of a vault, as a mathematical value.
pub struct VaultView {
    pub creator: Pubkey,
    pub signers: Seq<Pubkey>,
    pub threshold: nat,
    pub proposal_count: nat,
    pub bump: u8,
}

impl View for VaultConfig {
    type V = VaultView;

    open spec fn view(&self) -> VaultView {
        VaultView {
            creator: self.creator,
            signers: self.signers@,
            threshold: self.threshold as nat,
            proposal_count: self.proposal_count as nat,
            bump: self.bump,
        }
    }
}

/// A valid committee: one to ten distinct signers, and a threshold between
/// one and their number.
pub open spec fn committee_valid(signers: Seq<Pubkey>, threshold: int) -> bool {
    &&& 1 <= signers.len() <= MAX_SIGNERS
    &&& signers.no_duplicates()
    &&& 1 <= threshold <= signers.len()
}

impl VaultConfig {
    pub open spec fn wf(&self) -> bool {
        committee_valid(self.signers@, self.threshold as int)
    }

    /// Whether the committee is valid.
    pub fn is_valid(&self) -> (r: bool)
        ensures
            r == self.wf(),
    {
        self.signers.len() >= 1 && self.signers.len() <= MAX_SIGNERS && !has_duplicate(&self.signers)
            && self.threshold >= 1 && self.threshold as usize <= self.signers.len()
    }
}

/// A request to move funds out of a vault.
#[derive(Clone, Debug)]
pub struct Proposal {
    pub vault: Pubkey,
    pub proposal_id: u64,
    pub proposer: Pubkey,
    pub recipient: Pubkey,
    pub amount: u64,
    pub transfer_type: TransferType,
    pub description: String,
    pub price_condition: Option<PriceCondition>,
    pub approvals: Vec<Pubkey>,
    pub rejections: Vec<Pubkey>,
    pub status: ProposalStatus,
    pub bump: u8,
}

/// A proposal, as a mathematical value.
pub struct ProposalView {
    pub vault: Pubkey,
    pub proposal_id: u64,
    pub proposer: Pubkey,
    pub recipient: Pubkey,
    pub amount: u64,
    pub transfer_type: TransferType,
    pub description: Seq<char>,
    pub price_condition: Option<PriceCondition>,
    pub approvals: Seq<Pubkey>,
    pub rejections: Seq<Pubkey>,
    pub status: ProposalStatus,
    pub bump: u8,
}

impl View for Proposal {
    type V = ProposalView;

    open spec fn view(&self) -> ProposalView {
        ProposalView {
            vault: self.vault,
            proposal_id: self.proposal_id,
            proposer: self.proposer,
            recipient: self.recipient,
            amount: self.amount,
            transfer_type: self.transfer_type,
            description: self.description@,
            price_condition: self.price_condition,
            approvals: self.approvals@,
            rejections: self.rejections@,
            status: self.status,
            bump: self.bump,
        }
    }
}

impl ProposalView {
    /// Everyone who has voted, approvals first.
    pub open spec fn voters(self) -> Seq<Pubkey> {
        self.approvals + self.rejections
    }

    pub open spec fn has_voted(self, who: Pubkey) -> bool {
        self.approvals.contains(who) || self.rejections.contains(who)
    }

    /// Votes agree with the committee: nobody voted twice, in either
    /// direction, and every voter is a signer.
    pub open spec fn votes_wf(self, vault: VaultView) -> bool {
        &&& self.voters().no_duplicates()
        &&& forall|i: int| 0 <= i < self.voters().len() ==> vault.signers.contains(#[trigger] self.voters()[i])
    }

    pub open spec fn is_terminal(self) -> bool {
        ||| self.status == ProposalStatus::Executed
        ||| self.status == ProposalStatus::Rejected
        ||| self.status == ProposalStatus::Cancelled
    }
}

} // verus!
