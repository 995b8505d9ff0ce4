use vstd::prelude::*;

use crate::errors::ErrorCode;
use crate::identity::{holds_identity, Identity};

verus! {

/// "Yes" ballots that decide a round. It is fixed, whatever the team's size:
/// a team of three still needs three "yes" ballots.
pub const APPROVAL_THRESHOLD: u8 = 3;

/// Seats in a team, and ballots that one round can take.
pub const MAX_SEATS: usize = 5;

/// A ballot.
#[derive(Clone, Copy, Debug, PartialEq, Eq, Structural)]
pub enum VoteType {
    Yes,
    No,
}

/// One round of ballots: who has voted, and how many said "yes".
#[derive(Clone, Debug)]
pub struct VoteRound {
    pub voters: Vec<Identity>,
    pub yes_count: u8,
}

/// What a [`VoteRound`] holds, as mathematical values.
pub struct RoundView {
    pub voters: Seq<Identity>,
    pub yes_count: nat,
}

impl View for VoteRound {
    type V = RoundView;

    open spec fn view(&self) -> RoundView {
        RoundView { voters: self.voters@, yes_count: self.yes_count as nat }
    }
}

impl RoundView {
    /// A round that nobody has voted in.
    pub open spec fn empty() -> RoundView {
        RoundView { voters: Seq::empty(), yes_count: 0 }
    }

    /// Nobody votes twice, "yes" ballots are among the ballots, and the round
    /// holds no more ballots than a team has seats.
    pub open spec fn wf(self) -> bool {
        &&& self.voters.no_duplicates()
        &&& self.yes_count <= self.voters.len()
        &&& self.voters.len() <= MAX_SEATS
    }

    /// A round takes ballots until it is approved or full.
    pub open spec fn is_open(self) -> bool {
        self.yes_count < APPROVAL_THRESHOLD && self.voters.len() < MAX_SEATS
    }

    /// Casting `vote` as `voter` among `members`: the round after the ballot
    /// and whether this very ballot brought it to the threshold.
    pub open spec fn ballot(self, voter: Identity, members: Seq<Identity>, vote: VoteType) -> Result<
        (RoundView, bool),
        ErrorCode,
    > {
        if !members.contains(voter) {
            Err(ErrorCode::MemberNotInTeamError)
        } else if self.voters.contains(voter) {
            Err(ErrorCode::AlreadyVotedError)
        } else if !self.is_open() {
            Err(ErrorCode::VotingClosedError)
        } else {
            let yes = if vote is Yes {
                self.yes_count + 1
            } else {
                self.yes_count
            };
            Ok(
                (
                    RoundView { voters: self.voters.push(voter), yes_count: yes },
                    yes >= APPROVAL_THRESHOLD,
                ),
            )
        }
    }
}

impl VoteRound {
    pub fn new() -> (r: VoteRound)
        ensures
            r@ == RoundView::empty(),
    {
        VoteRound { voters: Vec::new(), yes_count: 0 }
    }

    /// Whether `voter` has a ballot in this round.
    pub fn has_voted(&self, voter: Identity) -> (r: bool)
        ensures
            r == self@.voters.contains(voter),
    {
        holds_identity(&self.voters, voter)
    }

    /// Records a ballot. Returns whether the round reached the threshold on
    /// this ballot; a rejected ballot leaves the round as it was.
    pub fn cast_ballot(&mut self, voter: Identity, members: &Vec<Identity>, vote: VoteType) -> (r:
        Result<bool, ErrorCode>)
        ensures
            match old(self)@.ballot(voter, members@, vote) {
                Ok((next, crossed)) => r == Ok::<bool, ErrorCode>(crossed) && final(self)@ == next,
                Err(e) => r == Err::<bool, ErrorCode>(e) && final(self)@ == old(self)@,
            },
    {
        if !holds_identity(members, voter) {
            return Err(ErrorCode::MemberNotInTeamError);
        }
        if self.has_voted(voter) {
            return Err(ErrorCode::AlreadyVotedError);
        }
        if self.yes_count >= APPROVAL_THRESHOLD || self.voters.len() >= MAX_SEATS {
            return Err(ErrorCode::VotingClosedError);
        }
        self.voters.push(voter);
        if vote == VoteType::Yes {
            self.yes_count = self.yes_count + 1;
        }
        Ok(self.yes_count >= APPROVAL_THRESHOLD)
    }

    /// Empties the round: no voters, no "yes" ballots.
    pub fn reset(&mut self)
        ensures
            final(self)@ == RoundView::empty(),
    {
        self.voters = Vec::new();
        self.yes_count = 0;
    }
}

} // verus!
