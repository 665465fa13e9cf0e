//! Proposal governance: creating proposals, weighted voting, deciding a
//! proposal against the quorum once its voting period is over, and gating
//! the execution of what has passed.
//!
//! A proposal is `Active` from its creation until it is finalized; finalizing
//! moves it to `Passed`, `Rejected` or `QuorumNotMet`, once and for good.
//! Every operation takes the records it works on and the current time as
//! arguments, and a refused operation leaves every record as it was.

use vstd::prelude::*;
use anchor_lang::prelude::Pubkey;
use crate::arith::checked_add;
use crate::clock::{days_after, deadline_after};

verus! {

/// Longest title, in bytes of its UTF-8 form.
pub const MAX_TITLE_LEN: usize = 64;

/// Longest description, in bytes of its UTF-8 form.
pub const MAX_DESCRIPTION_LEN: usize = 512;

/// Voting period of a new governance instance, in days.
pub const DEFAULT_VOTING_PERIOD_DAYS: u8 = 7;

/// The token supply against which the quorum is measured. It is a fixed
/// figure, not the live supply of the mint.
pub const FIXED_TOTAL_SUPPLY: u64 = 10_000_000;

/// What a proposal is about; it selects the handler that carries the
/// proposal out.
#[derive(Clone, Copy, Debug, PartialEq, Eq, Structural)]
pub enum ProposalType {
    ParameterChange,
    TreasurySpend,
    ProtocolUpgrade,
    General,
}

/// Where a proposal stands in its life.
#[derive(Clone, Copy, Debug, PartialEq, Eq, Structural)]
pub enum ProposalStatus {
    /// Open for votes until the deadline; the state of a new proposal.
    Active,
    /// The quorum was met and yes outweighed no.
    Passed,
    /// The quorum was met and yes did not outweigh no.
    Rejected,
    /// Too little weight was cast.
    QuorumNotMet,
    /// Reserved for a proposal that has been carried out. No operation of
    /// this module assigns it.
    Executed,
}

/// A vote.
#[derive(Clone, Copy, Debug, PartialEq, Eq, Structural)]
pub enum VoteChoice {
    Yes,
    No,
}

/// Why a governance operation was refused. A refused operation changes
/// nothing.
#[derive(Clone, Copy, Debug, PartialEq, Eq, Structural)]
pub enum ErrorCode {
    /// The title is longer than `MAX_TITLE_LEN` bytes.
    TitleTooLong,
    /// The description is longer than `MAX_DESCRIPTION_LEN` bytes.
    DescriptionTooLong,
    /// The proposer holds less than the proposal threshold.
    InsufficientTokensForProposal,
    /// The proposal is not `Active`.
    ProposalNotActive,
    /// The voting deadline has passed.
    VotingPeriodEnded,
    /// This voter's record for this proposal already holds a vote.
    AlreadyVoted,
    /// The voter holds no tokens.
    NoVotingPower,
    /// The voting deadline has not passed yet.
    VotingPeriodNotEnded,
    /// The proposal is not `Passed`.
    ProposalNotPassed,
    /// A tally, the total of both tallies, the proposal counter or the
    /// deadline would exceed what its type can hold.
    ArithmeticOverflow,
}

/// The configuration of one governance instance. After its creation only
/// the proposal counter changes.
#[derive(Clone, Copy, Debug, PartialEq, Eq)]
pub struct Governance {
    pub authority: Pubkey,
    pub token_mint: Pubkey,
    /// Share of the fixed supply that must vote, in percent.
    pub quorum_percent: u8,
    /// Least balance that entitles to propose.
    pub proposal_threshold: u64,
    /// Number of proposals created so far; the id of the next one.
    pub proposal_count: u64,
    pub voting_period_days: u8,
}

/// A proposal and its running tally.
#[derive(Debug, PartialEq, Eq)]
pub struct Proposal {
    pub id: u64,
    pub proposer: Pubkey,
    pub title: String,
    pub description: String,
    pub proposal_type: ProposalType,
    pub created_at: i64,
    /// Votes are accepted up to and including this instant.
    pub voting_end_time: i64,
    pub yes_votes: u64,
    pub no_votes: u64,
    pub status: ProposalStatus,
}

/// A proposal as a mathematical value: its texts as sequences of
/// characters, everything else as it is stored.
pub struct ProposalView {
    pub id: u64,
    pub proposer: Pubkey,
    pub title: Seq<char>,
    pub description: Seq<char>,
    pub proposal_type: ProposalType,
    pub created_at: i64,
    pub voting_end_time: i64,
    pub yes_votes: u64,
    pub no_votes: u64,
    pub status: ProposalStatus,
}

impl View for Proposal {
    type V = ProposalView;

    open spec fn view(&self) -> ProposalView {
        ProposalView {
            id: self.id,
            proposer: self.proposer,
            title: self.title@,
            description: self.description@,
            proposal_type: self.proposal_type,
            created_at: self.created_at,
            voting_end_time: self.voting_end_time,
            yes_votes: self.yes_votes,
            no_votes: self.no_votes,
            status: self.status,
        }
    }
}

impl Clone for Proposal {
    fn clone(&self) -> (copy: Proposal)
        ensures
            copy == *self,
    {
        Proposal {
            id: self.id,
            proposer: self.proposer,
            title: self.title.clone(),
            description: self.description.clone(),
            proposal_type: self.proposal_type,
            created_at: self.created_at,
            voting_end_time: self.voting_end_time,
            yes_votes: self.yes_votes,
            no_votes: self.no_votes,
            status: self.status,
        }
    }
}

/// The one record of a voter on a proposal. It is created empty, filled by
/// that voter's first vote and never changed again.
#[derive(Clone, Copy, Debug, PartialEq, Eq)]
pub struct VoteRecord {
    pub voter: Pubkey,
    pub proposal_id: u64,
    pub vote: VoteChoice,
    /// The voter's balance at the moment of voting.
    pub voting_power: u64,
    pub has_voted: bool,
}

/// Length of a text in bytes of its UTF-8 form, which is what its stored
/// form takes up.
pub open spec fn utf8_len(text: Seq<char>) -> nat {
    vstd::utf8::encode_utf8(text).len()
}

impl ProposalView {
    /// Whether both texts fit the space that a stored proposal has for them.
    pub open spec fn fits_layout(self) -> bool {
        utf8_len(self.title) <= MAX_TITLE_LEN && utf8_len(self.description) <= MAX_DESCRIPTION_LEN
    }
}

/// A new governance instance: no proposals yet, voting open for seven days.
pub fn initialize_governance(
    authority: Pubkey,
    token_mint: Pubkey,
    quorum_percent: u8,
    proposal_threshold: u64,
) -> (governance: Governance)
    ensures
        governance == (Governance {
            authority,
            token_mint,
            quorum_percent,
            proposal_threshold,
            proposal_count: 0,
            voting_period_days: DEFAULT_VOTING_PERIOD_DAYS,
        }),
{
    Governance {
        authority,
        token_mint,
        quorum_percent,
        proposal_threshold,
        proposal_count: 0,
        voting_period_days: DEFAULT_VOTING_PERIOD_DAYS,
    }
}

/// The transition that creating a proposal at `now` makes: the governance
/// instance with its counter advanced and the new proposal, or the reason
/// for refusing it.
pub open spec fn create_proposal_result(
    governance: Governance,
    proposer: Pubkey,
    proposer_balance: u64,
    title: Seq<char>,
    description: Seq<char>,
    proposal_type: ProposalType,
    now: i64,
) -> Result<(Governance, ProposalView), ErrorCode> {
    if utf8_len(title) > MAX_TITLE_LEN {
        Err(ErrorCode::TitleTooLong)
    } else if utf8_len(description) > MAX_DESCRIPTION_LEN {
        Err(ErrorCode::DescriptionTooLong)
    } else if proposer_balance < governance.proposal_threshold {
        Err(ErrorCode::InsufficientTokensForProposal)
    } else if days_after(now, governance.voting_period_days as u16) > i64::MAX
        || governance.proposal_count + 1 > u64::MAX {
        Err(ErrorCode::ArithmeticOverflow)
    } else {
        Ok(
            (
                Governance { proposal_count: (governance.proposal_count + 1) as u64, ..governance },
                ProposalView {
                    id: governance.proposal_count,
                    proposer,
                    title,
                    description,
                    proposal_type,
                    created_at: now,
                    voting_end_time: days_after(now, governance.voting_period_days as u16) as i64,
                    yes_votes: 0,
                    no_votes: 0,
                    status: ProposalStatus::Active,
                },
            ),
        )
    }
}

/// Creates a proposal at time `now` on behalf of `proposer`, who holds
/// `proposer_balance` tokens.
///
/// Refused with `TitleTooLong` for a title of more than 64 bytes, else with
/// `DescriptionTooLong` for a description of more than 512 bytes, else with
/// `InsufficientTokensForProposal` when the balance is below the threshold.
/// On success the proposal gets the counter's value as its id and the
/// counter goes up by one in the same step, so that no id is given twice;
/// the proposal is `Active` with empty tallies, and votes are accepted until
/// the voting period after `now` is over.
pub fn create_proposal(
    governance: &mut Governance,
    proposer: Pubkey,
    proposer_balance: u64,
    title: String,
    description: String,
    proposal_type: ProposalType,
    now: i64,
) -> (res: Result<Proposal, ErrorCode>)
    ensures
        match create_proposal_result(
            *old(governance),
            proposer,
            proposer_balance,
            title@,
            description@,
            proposal_type,
            now,
        ) {
            Ok((governance_after, created)) => res is Ok && res->Ok_0@ == created
                && res->Ok_0@.fits_layout() && *final(governance) == governance_after,
            Err(e) => res == Err::<Proposal, ErrorCode>(e)
                && *final(governance) == *old(governance),
        },
{
    if title.as_str().as_bytes().len() > MAX_TITLE_LEN {
        return Err(ErrorCode::TitleTooLong);
    }
    if description.as_str().as_bytes().len() > MAX_DESCRIPTION_LEN {
        return Err(ErrorCode::DescriptionTooLong);
    }
    if proposer_balance < governance.proposal_threshold {
        return Err(ErrorCode::InsufficientTokensForProposal);
    }
    let voting_end_time: i64 = match deadline_after(now, governance.voting_period_days as u16) {
        Ok(t) => t,
        Err(_) => { return Err(ErrorCode::ArithmeticOverflow); },
    };
    let next_count: u64 = match checked_add(governance.proposal_count, 1) {
        Ok(n) => n,
        Err(_) => { return Err(ErrorCode::ArithmeticOverflow); },
    };
    let proposal = Proposal {
        id: governance.proposal_count,
        proposer,
        title,
        description,
        proposal_type,
        created_at: now,
        voting_end_time,
        yes_votes: 0,
        no_votes: 0,
        status: ProposalStatus::Active,
    };
    governance.proposal_count = next_count;
    Ok(proposal)
}

impl ProposalView {
    /// The tally that a vote of this choice goes to.
    pub open spec fn tally_of(self, vote: VoteChoice) -> u64 {
        match vote {
            VoteChoice::Yes => self.yes_votes,
            VoteChoice::No => self.no_votes,
        }
    }

    /// The proposal with `weight` more on the tally of `vote`.
    pub open spec fn with_vote(self, vote: VoteChoice, weight: u64) -> ProposalView {
        match vote {
            VoteChoice::Yes => ProposalView {
                yes_votes: (self.yes_votes + weight) as u64,
                ..self
            },
            VoteChoice::No => ProposalView { no_votes: (self.no_votes + weight) as u64, ..self },
        }
    }
}

/// The transition that a vote at `now` makes: the proposal with the weight
/// added and the voter's record filled in, or the reason for refusing it.
/// The weight of a vote is the voter's balance at the moment of voting.
pub open spec fn vote_result(
    proposal: ProposalView,
    record: VoteRecord,
    voter: Pubkey,
    voting_power: u64,
    vote: VoteChoice,
    now: i64,
) -> Result<(ProposalView, VoteRecord), ErrorCode> {
    if proposal.status != ProposalStatus::Active {
        Err(ErrorCode::ProposalNotActive)
    } else if now > proposal.voting_end_time {
        Err(ErrorCode::VotingPeriodEnded)
    } else if record.has_voted {
        Err(ErrorCode::AlreadyVoted)
    } else if voting_power == 0 {
        Err(ErrorCode::NoVotingPower)
    } else if proposal.tally_of(vote) + voting_power > u64::MAX {
        Err(ErrorCode::ArithmeticOverflow)
    } else {
        Ok(
            (
                proposal.with_vote(vote, voting_power),
                VoteRecord {
                    voter,
                    proposal_id: proposal.id,
                    vote,
                    voting_power,
                    has_voted: true,
                },
            ),
        )
    }
}

/// Proposal and record as a vote at `now` leaves them: changed as
/// [`vote_result`] says when the vote is accepted, untouched when it is
/// refused.
pub open spec fn state_after_vote(
    proposal: ProposalView,
    record: VoteRecord,
    voter: Pubkey,
    voting_power: u64,
    vote: VoteChoice,
    now: i64,
) -> (ProposalView, VoteRecord) {
    match vote_result(proposal, record, voter, voting_power, vote, now) {
        Ok(state) => state,
        Err(_) => (proposal, record),
    }
}

/// Casts the vote of `voter`, who holds `voting_power` tokens, at time
/// `now`. `vote_record` is the record kept for this voter on this proposal:
/// empty before the voter's first vote, and the same record on every later
/// call.
///
/// Refused with `ProposalNotActive` unless the proposal is `Active`, else
/// with `VotingPeriodEnded` after the deadline, else with `AlreadyVoted`
/// when the record holds a vote, else with `NoVotingPower` for a balance of
/// zero. On success the balance is added to the tally of the choice and the
/// record keeps voter, proposal, choice and weight.
pub fn vote_on_proposal(
    proposal: &mut Proposal,
    vote_record: &mut VoteRecord,
    voter: Pubkey,
    voting_power: u64,
    vote: VoteChoice,
    now: i64,
) -> (res: Result<(), ErrorCode>)
    ensures
        match vote_result(old(proposal)@, *old(vote_record), voter, voting_power, vote, now) {
            Ok((proposal_after, record_after)) => res is Ok && final(proposal)@ == proposal_after
                && *final(vote_record) == record_after,
            Err(e) => res == Err::<(), ErrorCode>(e) && *final(proposal) == *old(proposal)
                && *final(vote_record) == *old(vote_record),
        },
        (final(proposal)@, *final(vote_record)) == state_after_vote(
            old(proposal)@,
            *old(vote_record),
            voter,
            voting_power,
            vote,
            now,
        ),
{
    if proposal.status != ProposalStatus::Active {
        return Err(ErrorCode::ProposalNotActive);
    }
    if now > proposal.voting_end_time {
        return Err(ErrorCode::VotingPeriodEnded);
    }
    if vote_record.has_voted {
        return Err(ErrorCode::AlreadyVoted);
    }
    if voting_power == 0 {
        return Err(ErrorCode::NoVotingPower);
    }
    let tally: u64 = match vote {
        VoteChoice::Yes => proposal.yes_votes,
        VoteChoice::No => proposal.no_votes,
    };
    let raised: u64 = match checked_add(tally, voting_power) {
        Ok(v) => v,
        Err(_) => { return Err(ErrorCode::ArithmeticOverflow); },
    };
    vote_record.voter = voter;
    vote_record.proposal_id = proposal.id;
    vote_record.vote = vote;
    vote_record.voting_power = voting_power;
    vote_record.has_voted = true;
    match vote {
        VoteChoice::Yes => { proposal.yes_votes = raised; },
        VoteChoice::No => { proposal.no_votes = raised; },
    }
    Ok(())
}

/// The least total weight that decides a proposal: the given percentage of
/// the fixed supply, rounded down.
pub open spec fn quorum_required(quorum_percent: u8) -> int {
    (FIXED_TOTAL_SUPPLY * quorum_percent) / 100
}

/// How a tally is decided against a quorum: `QuorumNotMet` when the total
/// weight is below the quorum, else `Passed` when yes outweighs no, else
/// `Rejected`. A tie is rejected.
pub open spec fn tally_outcome(yes_votes: u64, no_votes: u64, quorum: int) -> ProposalStatus {
    if yes_votes + no_votes < quorum {
        ProposalStatus::QuorumNotMet
    } else if yes_votes > no_votes {
        ProposalStatus::Passed
    } else {
        ProposalStatus::Rejected
    }
}

/// The transition that finalizing at `now` makes: the proposal with its
/// outcome as its status, or the reason for refusing it. A proposal whose
/// two tallies add up to more than a `u64` holds is not decided.
pub open spec fn finalize_result(proposal: ProposalView, governance: Governance, now: i64) -> Result<
    ProposalView,
    ErrorCode,
> {
    if proposal.status != ProposalStatus::Active {
        Err(ErrorCode::ProposalNotActive)
    } else if now <= proposal.voting_end_time {
        Err(ErrorCode::VotingPeriodNotEnded)
    } else if proposal.yes_votes + proposal.no_votes > u64::MAX {
        Err(ErrorCode::ArithmeticOverflow)
    } else {
        Ok(
            ProposalView {
                status: tally_outcome(
                    proposal.yes_votes,
                    proposal.no_votes,
                    quorum_required(governance.quorum_percent),
                ),
                ..proposal
            },
        )
    }
}

/// The proposal as finalizing at `now` leaves it: decided as
/// [`finalize_result`] says when that is accepted, untouched when it is
/// refused.
pub open spec fn state_after_finalize(
    proposal: ProposalView,
    governance: Governance,
    now: i64,
) -> ProposalView {
    match finalize_result(proposal, governance, now) {
        Ok(decided) => decided,
        Err(_) => proposal,
    }
}

/// Decides a proposal at time `now`.
///
/// Refused with `ProposalNotActive` unless the proposal is `Active`, else
/// with `VotingPeriodNotEnded` up to and including the deadline, else with
/// `ArithmeticOverflow` when the two tallies add up to more than a `u64`
/// holds: the total never wraps, and such a proposal stays `Active`. On
/// success the status becomes the outcome of the tally against the quorum,
/// and nothing else changes. Since the outcome is never `Active`, a proposal
/// is finalized at most once.
pub fn finalize_proposal(proposal: &mut Proposal, governance: &Governance, now: i64) -> (res:
    Result<(), ErrorCode>)
    ensures
        match finalize_result(old(proposal)@, *governance, now) {
            Ok(proposal_after) => res is Ok && final(proposal)@ == proposal_after,
            Err(e) => res == Err::<(), ErrorCode>(e) && *final(proposal) == *old(proposal),
        },
        final(proposal)@ == state_after_finalize(old(proposal)@, *governance, now),
{
    if proposal.status != ProposalStatus::Active {
        return Err(ErrorCode::ProposalNotActive);
    }
    if now <= proposal.voting_end_time {
        return Err(ErrorCode::VotingPeriodNotEnded);
    }
    let total_votes: u64 = match checked_add(proposal.yes_votes, proposal.no_votes) {
        Ok(total) => total,
        Err(_) => { return Err(ErrorCode::ArithmeticOverflow); },
    };
    let quorum: u64 = FIXED_TOTAL_SUPPLY * (governance.quorum_percent as u64) / 100;
    if total_votes >= quorum {
        if proposal.yes_votes > proposal.no_votes {
            proposal.status = ProposalStatus::Passed;
        } else {
            proposal.status = ProposalStatus::Rejected;
        }
    } else {
        proposal.status = ProposalStatus::QuorumNotMet;
    }
    Ok(())
}

/// Whether a proposal may be carried out, and by which handler.
pub open spec fn execute_result(proposal: ProposalView) -> Result<ProposalType, ErrorCode> {
    if proposal.status == ProposalStatus::Passed {
        Ok(proposal.proposal_type)
    } else {
        Err(ErrorCode::ProposalNotPassed)
    }
}

/// Gates the execution of a proposal and names the handler to run.
///
/// Refused with `ProposalNotPassed` unless the proposal is `Passed`. On
/// success the result is the category whose handler carries the proposal
/// out; running the handler is the caller's part. The proposal is not
/// changed and stays `Passed`, so it can be executed again.
pub fn execute_proposal(proposal: &Proposal) -> (res: Result<ProposalType, ErrorCode>)
    ensures
        res == execute_result(proposal@),
{
    if proposal.status != ProposalStatus::Passed {
        return Err(ErrorCode::ProposalNotPassed);
    }
    Ok(proposal.proposal_type)
}

/// One vote per voter and proposal: once a vote has been accepted, every
/// further vote with the same record on the proposal as it then stands is
/// refused, whoever casts it, whatever the choice, the weight and the time,
/// and leaves the tallies and the record as the first vote left them. Up to
/// the deadline the refusal is `AlreadyVoted`; after the deadline the
/// earlier check answers first, with `VotingPeriodEnded`.
pub proof fn lemma_second_vote_refused(
    proposal: ProposalView,
    record: VoteRecord,
    voter: Pubkey,
    voting_power: u64,
    vote: VoteChoice,
    now: i64,
    again_voter: Pubkey,
    again_power: u64,
    again_vote: VoteChoice,
    again_now: i64,
)
    requires
        vote_result(proposal, record, voter, voting_power, vote, now) is Ok,
    ensures
        ({
            let (voted, filled) = state_after_vote(proposal, record, voter, voting_power, vote, now);
            let second = vote_result(voted, filled, again_voter, again_power, again_vote, again_now);
            &&& filled.has_voted
            &&& second is Err
            &&& again_now <= voted.voting_end_time ==> second == Err::<
                (ProposalView, VoteRecord),
                ErrorCode,
            >(ErrorCode::AlreadyVoted)
            &&& again_now > voted.voting_end_time ==> second == Err::<
                (ProposalView, VoteRecord),
                ErrorCode,
            >(ErrorCode::VotingPeriodEnded)
            &&& state_after_vote(voted, filled, again_voter, again_power, again_vote, again_now)
                == (voted, filled)
        }),
{
}

/// An accepted vote moves exactly its weight onto the tally of its choice
/// and changes nothing else of the proposal.
pub proof fn lemma_vote_adds_weight(
    proposal: ProposalView,
    record: VoteRecord,
    voter: Pubkey,
    voting_power: u64,
    vote: VoteChoice,
    now: i64,
)
    requires
        vote_result(proposal, record, voter, voting_power, vote, now) is Ok,
    ensures
        ({
            let voted = vote_result(proposal, record, voter, voting_power, vote, now)->Ok_0.0;
            &&& voted.tally_of(vote) == proposal.tally_of(vote) + voting_power
            &&& voted.yes_votes + voted.no_votes == proposal.yes_votes + proposal.no_votes
                + voting_power
            &&& voted.status == ProposalStatus::Active
            &&& voted == ProposalView {
                yes_votes: voted.yes_votes,
                no_votes: voted.no_votes,
                ..proposal
            }
        }),
{
}

/// A tie that meets the quorum is rejected, wherever the total of the two
/// tallies fits in a `u64`. Where it does not, finalizing is refused with
/// `ArithmeticOverflow` and decides nothing.
pub proof fn lemma_tie_is_rejected(proposal: ProposalView, governance: Governance, now: i64)
    requires
        proposal.status == ProposalStatus::Active,
        now > proposal.voting_end_time,
        proposal.yes_votes == proposal.no_votes,
        proposal.yes_votes + proposal.no_votes <= u64::MAX,
        proposal.yes_votes + proposal.no_votes >= quorum_required(governance.quorum_percent),
    ensures
        finalize_result(proposal, governance, now) is Ok,
        finalize_result(proposal, governance, now)->Ok_0.status == ProposalStatus::Rejected,
{
}

/// Finalizing decides: the status it leaves is `Passed`, `Rejected` or
/// `QuorumNotMet`, and `Passed` exactly when the quorum is met and yes
/// outweighs no.
pub proof fn lemma_finalize_decides(proposal: ProposalView, governance: Governance, now: i64)
    requires
        finalize_result(proposal, governance, now) is Ok,
    ensures
        ({
            let decided = finalize_result(proposal, governance, now)->Ok_0.status;
            let quorum = quorum_required(governance.quorum_percent);
            &&& decided == ProposalStatus::Passed || decided == ProposalStatus::Rejected || decided
                == ProposalStatus::QuorumNotMet
            &&& decided == ProposalStatus::Passed <==> proposal.yes_votes + proposal.no_votes
                >= quorum && proposal.yes_votes > proposal.no_votes
            &&& decided == ProposalStatus::QuorumNotMet <==> proposal.yes_votes + proposal.no_votes
                < quorum
        }),
{
}

/// Finalizing happens once: after a proposal has been finalized, finalizing
/// it again is refused with `ProposalNotActive`, under any configuration and
/// at any time, and leaves the proposal, its status with it, as decided.
/// Votes are refused on it in the same way.
pub proof fn lemma_finalize_once(
    proposal: ProposalView,
    governance: Governance,
    now: i64,
    again_governance: Governance,
    again_now: i64,
    record: VoteRecord,
    voter: Pubkey,
    voting_power: u64,
    vote: VoteChoice,
)
    requires
        finalize_result(proposal, governance, now) is Ok,
    ensures
        ({
            let decided = state_after_finalize(proposal, governance, now);
            &&& finalize_result(decided, again_governance, again_now) == Err::<
                ProposalView,
                ErrorCode,
            >(ErrorCode::ProposalNotActive)
            &&& state_after_finalize(decided, again_governance, again_now) == decided
            &&& vote_result(decided, record, voter, voting_power, vote, again_now) == Err::<
                (ProposalView, VoteRecord),
                ErrorCode,
            >(ErrorCode::ProposalNotActive)
            &&& state_after_vote(decided, record, voter, voting_power, vote, again_now) == (
                decided,
                record,
            )
        }),
{
}

/// Ids are given in order and never twice: a created proposal carries the
/// counter's value before its creation, the counter then stands one higher,
/// and so the next proposal created on the same instance gets the next id.
pub proof fn lemma_ids_are_sequential(
    governance: Governance,
    proposer: Pubkey,
    proposer_balance: u64,
    title: Seq<char>,
    description: Seq<char>,
    proposal_type: ProposalType,
    now: i64,
    next_proposer: Pubkey,
    next_balance: u64,
    next_title: Seq<char>,
    next_description: Seq<char>,
    next_type: ProposalType,
    next_now: i64,
)
    requires
        create_proposal_result(
            governance,
            proposer,
            proposer_balance,
            title,
            description,
            proposal_type,
            now,
        ) is Ok,
    ensures
        ({
            let (advanced, first) = create_proposal_result(
                governance,
                proposer,
                proposer_balance,
                title,
                description,
                proposal_type,
                now,
            )->Ok_0;
            let second = create_proposal_result(
                advanced,
                next_proposer,
                next_balance,
                next_title,
                next_description,
                next_type,
                next_now,
            );
            &&& first.id == governance.proposal_count
            &&& advanced.proposal_count == first.id + 1
            &&& first.fits_layout()
            &&& second is Ok ==> second->Ok_0.1.id == first.id + 1
        }),
{
}

} // verus!
