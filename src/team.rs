use vstd::prelude::*;

use crate::errors::ErrorCode;
use crate::identity::{position_of, Identity};
use crate::vote::{RoundView, VoteRound, MAX_SEATS};

verus! {

/// The record of one team: its roster, its tournament, and the three rounds
/// of ballots that govern it.
#[derive(Clone, Debug)]
pub struct TeamAccount {
    pub captain: Identity,
    /// Seed byte of the record's address in the store.
    pub bump: u8,
    pub name: String,
    /// Members in the order they joined.
    pub members: Vec<Identity>,
    pub id: u64,
    /// Ballots on taking part in the active tournament.
    pub join_vote: VoteRound,
    pub active_tournament: Option<Identity>,
    pub prize: u64,
    /// Set once the join round has been approved.
    pub voting_result: bool,
    /// Ballots on leaving the active tournament.
    pub leave_vote: VoteRound,
    /// Share of the prize for each seat, in percent, in roster order.
    pub distribution_percentages: Vec<u8>,
    /// Ballots on the proposed percentages.
    pub distribution_vote: VoteRound,
    /// Whether the proposed percentages stand approved.
    pub distribution_voting_result: bool,
    /// Whether the team was last found cleared to enter the tournament.
    pub can_join_tournament: bool,
}

/// What a [`TeamAccount`] holds, as mathematical values.
pub struct TeamView {
    pub captain: Identity,
    pub bump: u8,
    pub name: Seq<char>,
    pub members: Seq<Identity>,
    pub id: u64,
    pub join_vote: RoundView,
    pub active_tournament: Option<Identity>,
    pub prize: u64,
    pub voting_result: bool,
    pub leave_vote: RoundView,
    pub distribution_percentages: Seq<u8>,
    pub distribution_vote: RoundView,
    pub distribution_voting_result: bool,
    pub can_join_tournament: bool,
}

impl View for TeamAccount {
    type V = TeamView;

    open spec fn view(&self) -> TeamView {
        TeamView {
            captain: self.captain,
            bump: self.bump,
            name: self.name@,
            members: self.members@,
            id: self.id,
            join_vote: self.join_vote@,
            active_tournament: self.active_tournament,
            prize: self.prize,
            voting_result: self.voting_result,
            leave_vote: self.leave_vote@,
            distribution_percentages: self.distribution_percentages@,
            distribution_vote: self.distribution_vote@,
            distribution_voting_result: self.distribution_voting_result,
            can_join_tournament: self.can_join_tournament,
        }
    }
}

/// `s` with the first occurrence of `x` taken out.
pub open spec fn without(s: Seq<Identity>, x: Identity) -> Seq<Identity> {
    match position_of(s, x) {
        Some(p) => s.remove(p),
        None => s,
    }
}

/// `r` and `after` are what an operation whose model is `model` yields from
/// `before`: its effect on success, and no change at all on failure.
pub open spec fn applies(
    model: Result<TeamView, ErrorCode>,
    r: Result<(), ErrorCode>,
    before: TeamView,
    after: TeamView,
) -> bool {
    match model {
        Ok(next) => r is Ok && after == next,
        Err(e) => r == Err::<(), ErrorCode>(e) && after == before,
    }
}

impl TeamView {
    /// The record of a team that has disbanded: everything cleared but the
    /// address seed.
    pub open spec fn disbanded(bump: u8) -> TeamView {
        TeamView {
            captain: Identity::spec_zero(),
            bump,
            name: Seq::empty(),
            members: Seq::empty(),
            id: 0,
            join_vote: RoundView::empty(),
            active_tournament: None,
            prize: 0,
            voting_result: false,
            leave_vote: RoundView::empty(),
            distribution_percentages: Seq::empty(),
            distribution_vote: RoundView::empty(),
            distribution_voting_result: false,
            can_join_tournament: false,
        }
    }

    /// A new team: its creator is its captain and only member.
    pub open spec fn created(name: Seq<char>, id: u64, creator: Identity, bump: u8) -> TeamView {
        TeamView {
            captain: creator,
            name,
            members: seq![creator],
            id,
            ..TeamView::disbanded(bump)
        }
    }

    pub open spec fn is_disbanded(self) -> bool {
        self.members.len() == 0
    }

    /// One to five distinct members, the captain among them.
    pub open spec fn roster_wf(self) -> bool {
        &&& 1 <= self.members.len() <= MAX_SEATS
        &&& self.members.no_duplicates()
        &&& self.members.contains(self.captain)
    }

    /// Each round has at most one ballot per voter.
    pub open spec fn rounds_wf(self) -> bool {
        &&& self.join_vote.wf()
        &&& self.leave_vote.wf()
        &&& self.distribution_vote.wf()
    }

    pub open spec fn wf(self) -> bool {
        self.roster_wf() && self.rounds_wf()
    }
}

} // verus!
