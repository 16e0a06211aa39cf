//! What holds of the proposal lifecycle across operations.
use vstd::prelude::*;
use vstd::utf8::encode_utf8;

use crate::constants::MAX_DESCRIPTION_LEN;

use crate::error::VaultError;
use crate::instructions::approve_proposal::{approved_by, vote_error};
use crate::instructions::cancel_proposal::cancel_error;
use crate::instructions::create_proposal::{create_error, opened_proposal};
use crate::instructions::execute_sol_proposal::execute_sol_error;
use crate::instructions::execute_token_proposal::execute_token_error;
use crate::instructions::reject_proposal::rejected_by;
use crate::oracle::{price_gate, PriceReading};
use crate::pubkey::Pubkey;
use crate::state::{committee_valid, PriceCondition, ProposalStatus, ProposalView, TransferType, VaultView};

verus! {

/// Under a threshold of one, a signer may open a proposal with a description
/// that fits, and it opens approved, with the proposer's approval as its only
/// vote.
pub proof fn lemma_threshold_one_opens_approved(
    vault: VaultView,
    vault_key: Pubkey,
    proposer: Pubkey,
    recipient: Pubkey,
    amount: u64,
    transfer_type: TransferType,
    description: Seq<char>,
    price_condition: Option<PriceCondition>,
    bump: u8,
)
    requires
        vault.threshold == 1,
        vault.signers.contains(proposer),
        encode_utf8(description).len() <= MAX_DESCRIPTION_LEN,
    ensures
        create_error(vault, proposer, description) is None,
        ({
            let p = opened_proposal(vault, vault_key, proposer, recipient, amount, transfer_type, description, price_condition, bump);
            &&& p.status == ProposalStatus::Approved
            &&& p.approvals == seq![proposer]
            &&& p.rejections.len() == 0
        }),
{
}

/// The approvals and the rejections of a proposal with consistent votes
/// each hold distinct keys, and share none.
proof fn lemma_voters_split(p: ProposalView)
    requires
        p.voters().no_duplicates(),
    ensures
        p.approvals.no_duplicates(),
        p.rejections.no_duplicates(),
        forall|i: int, j: int|
            0 <= i < p.approvals.len() && 0 <= j < p.rejections.len() ==> p.approvals[i] != p.rejections[j],
{
    let a = p.approvals;
    let r = p.rejections;
    let s = p.voters();
    assert forall|i: int, j: int| 0 <= i < a.len() && 0 <= j < a.len() && i != j implies a[i] != a[j] by {
        assert(s[i] == a[i] && s[j] == a[j]);
    }
    assert forall|i: int, j: int| 0 <= i < r.len() && 0 <= j < r.len() && i != j implies r[i] != r[j] by {
        assert(s[a.len() + i] == r[i] && s[a.len() + j] == r[j]);
    }
    assert forall|i: int, j: int| 0 <= i < a.len() && 0 <= j < r.len() implies a[i] != r[j] by {
        assert(s[i] == a[i] && s[a.len() + j] == r[j]);
    }
}

/// No identity is both among a proposal's approvals and among its
/// rejections, as long as its votes are consistent.
pub proof fn lemma_approvals_and_rejections_disjoint(vault: VaultView, p: ProposalView, who: Pubkey)
    requires
        p.votes_wf(vault),
    ensures
        !(p.approvals.contains(who) && p.rejections.contains(who)),
{
    lemma_voters_split(p);
}

/// A proposal that a signer opens starts with consistent votes.
pub proof fn lemma_opened_votes_wf(
    vault: VaultView,
    vault_key: Pubkey,
    proposer: Pubkey,
    recipient: Pubkey,
    amount: u64,
    transfer_type: TransferType,
    description: Seq<char>,
    price_condition: Option<PriceCondition>,
    bump: u8,
)
    requires
        vault.signers.contains(proposer),
    ensures
        opened_proposal(vault, vault_key, proposer, recipient, amount, transfer_type, description, price_condition, bump).votes_wf(vault),
{
    let p = opened_proposal(vault, vault_key, proposer, recipient, amount, transfer_type, description, price_condition, bump);
    assert(p.voters() =~= seq![proposer]);
}

/// An accepted approval keeps a proposal's votes consistent.
pub proof fn lemma_approve_keeps_votes_wf(vault: VaultView, p: ProposalView, voter: Pubkey)
    requires
        p.votes_wf(vault),
        vote_error(vault, p, voter) is None,
    ensures
        approved_by(vault, p, voter).votes_wf(vault),
{
    let q = approved_by(vault, p, voter);
    let a = p.approvals;
    let r = p.rejections;
    let s = p.voters();
    let t = q.voters();
    lemma_voters_split(p);
    assert(t.len() == s.len() + 1);
    assert forall|k: int| 0 <= k < t.len() implies #[trigger] t[k] == (if k < a.len() {
        s[k]
    } else if k == a.len() {
        voter
    } else {
        s[k - 1]
    }) by {
        if k < a.len() {
            assert(t[k] == a[k] && s[k] == a[k]);
        } else if k > a.len() {
            assert(t[k] == r[k - a.len() - 1] && s[k - 1] == r[k - 1 - a.len()]);
        }
    }
    assert forall|k: int| 0 <= k < s.len() implies s[k] != voter by {
        if k < a.len() {
            assert(s[k] == a[k]);
        } else {
            assert(s[k] == r[k - a.len()]);
        }
    }
    assert forall|i: int, j: int| 0 <= i < t.len() && 0 <= j < t.len() && i != j implies t[i] != t[j] by {
        assert(t[i] == (if i < a.len() {
            s[i]
        } else if i == a.len() {
            voter
        } else {
            s[i - 1]
        }));
        assert(t[j] == (if j < a.len() {
            s[j]
        } else if j == a.len() {
            voter
        } else {
            s[j - 1]
        }));
    }
    assert forall|k: int| 0 <= k < t.len() implies vault.signers.contains(#[trigger] t[k]) by {
        if k < a.len() {
            assert(t[k] == s[k]);
        } else if k > a.len() {
            assert(t[k] == s[k - 1]);
        }
    }
}

/// An accepted rejection keeps a proposal's votes consistent.
pub proof fn lemma_reject_keeps_votes_wf(vault: VaultView, p: ProposalView, voter: Pubkey)
    requires
        p.votes_wf(vault),
        vote_error(vault, p, voter) is None,
    ensures
        rejected_by(vault, p, voter).votes_wf(vault),
{
    let q = rejected_by(vault, p, voter);
    let a = p.approvals;
    let r = p.rejections;
    let s = p.voters();
    let t = q.voters();
    assert(t =~= s.push(voter));
    assert forall|k: int| 0 <= k < s.len() implies s[k] != voter by {
        if k < a.len() {
            assert(s[k] == a[k]);
        } else {
            assert(s[k] == r[k - a.len()]);
        }
    }
    assert forall|k: int| 0 <= k < t.len() implies vault.signers.contains(#[trigger] t[k]) by {
        if k < s.len() {
            assert(t[k] == s[k]);
        }
    }
}

/// Whoever has voted on a proposal, either way, cannot vote on it again.
pub proof fn lemma_no_second_vote(vault: VaultView, p: ProposalView, voter: Pubkey)
    requires
        vote_error(vault, p, voter) is None,
    ensures
        vote_error(vault, approved_by(vault, p, voter), voter) is Some,
        vote_error(vault, rejected_by(vault, p, voter), voter) is Some,
{
    let q = approved_by(vault, p, voter);
    let w = rejected_by(vault, p, voter);
    assert(q.approvals[q.approvals.len() - 1] == voter);
    assert(w.rejections[w.rejections.len() - 1] == voter);
}

/// Consistent votes never outnumber the committee.
pub proof fn lemma_votes_fit_committee(vault: VaultView, p: ProposalView)
    requires
        p.votes_wf(vault),
    ensures
        p.approvals.len() + p.rejections.len() <= vault.signers.len(),
{
    let s = p.voters();
    s.unique_seq_to_set();
    vault.signers.lemma_cardinality_of_set();
    assert forall|x: Pubkey| s.to_set().contains(x) implies vault.signers.to_set().contains(x) by {
        let k = choose|k: int| 0 <= k < s.len() && s[k] == x;
        assert(vault.signers.contains(s[k]));
    }
    vstd::set_lib::lemma_len_subset(s.to_set(), vault.signers.to_set());
}

/// An approval approves the proposal exactly when it brings the approvals to
/// the threshold.
pub proof fn lemma_approval_reaching_threshold(vault: VaultView, p: ProposalView, voter: Pubkey)
    requires
        vote_error(vault, p, voter) is None,
    ensures
        approved_by(vault, p, voter).status == ProposalStatus::Approved <==> p.approvals.len() + 1 >= vault.threshold,
        approved_by(vault, p, voter).status != ProposalStatus::Approved ==> approved_by(vault, p, voter).status
            == ProposalStatus::Active,
{
}

/// A rejection rejects the proposal exactly when the approvals so far, with
/// every signer yet to vote, can no longer reach the threshold; the count of
/// signers yet to vote is never negative.
pub proof fn lemma_rejection_foreclosing_threshold(vault: VaultView, p: ProposalView, voter: Pubkey)
    requires
        committee_valid(vault.signers, vault.threshold as int),
        p.votes_wf(vault),
        vote_error(vault, p, voter) is None,
    ensures
        ({
            let q = rejected_by(vault, p, voter);
            let remaining = vault.signers.len() - (q.approvals.len() + q.rejections.len());
            &&& remaining >= 0
            &&& (q.status == ProposalStatus::Rejected <==> q.approvals.len() + remaining < vault.threshold)
            &&& (q.status != ProposalStatus::Rejected ==> q.status == ProposalStatus::Active)
        }),
{
    lemma_reject_keeps_votes_wf(vault, p, voter);
    lemma_votes_fit_committee(vault, rejected_by(vault, p, voter));
}

/// A proposal that has left the active state takes no vote and cannot be
/// cancelled; an approved one can only be executed.
pub proof fn lemma_decided_proposal_is_settled(vault: VaultView, p: ProposalView, who: Pubkey)
    requires
        p.status != ProposalStatus::Active,
    ensures
        vote_error(vault, p, who) == Some(VaultError::ProposalNotActive),
        cancel_error(p, who) == Some(VaultError::ProposalNotActive),
{
}

/// A proposal is executed once: once executed, every further execution,
/// native or token, fails with `ProposalNotActive`, as it does on every
/// proposal that is not approved.
pub proof fn lemma_executed_once(
    vault: VaultView,
    p: ProposalView,
    executor: Pubkey,
    recipient: Pubkey,
    mint: Pubkey,
    reading: Option<PriceReading>,
    balance: u64,
    reserve: u64,
)
    requires
        p.status != ProposalStatus::Approved,
    ensures
        execute_sol_error(vault, p, executor, recipient, reading, balance, reserve) == Some(
            VaultError::ProposalNotActive,
        ),
        execute_token_error(vault, p, executor, recipient, mint, reading, balance) == Some(
            VaultError::ProposalNotActive,
        ),
{
}

/// A reading of the condition's feed that is older than the condition allows
/// fails with `StalePriceFeed`, whatever its price; so does an execution that
/// would otherwise go on to the price gate.
pub proof fn lemma_stale_reading_fails(
    vault: VaultView,
    p: ProposalView,
    executor: Pubkey,
    mint: Pubkey,
    reading: PriceReading,
    balance: u64,
    reserve: u64,
)
    requires
        p.price_condition matches Some(c) && reading.feed == c.feed && reading.staleness > c.max_staleness,
    ensures
        price_gate(p.price_condition, Some(reading)) == Some(VaultError::StalePriceFeed),
        p.status == ProposalStatus::Approved && vault.signers.contains(executor) && p.transfer_type == TransferType::Sol
            ==> execute_sol_error(vault, p, executor, p.recipient, Some(reading), balance, reserve) == Some(
            VaultError::StalePriceFeed,
        ),
        p.status == ProposalStatus::Approved && vault.signers.contains(executor) && p.transfer_type == (TransferType::SplToken { mint })
            ==> execute_token_error(vault, p, executor, p.recipient, mint, Some(reading), balance) == Some(
            VaultError::StalePriceFeed,
        ),
{
}

} // verus!
