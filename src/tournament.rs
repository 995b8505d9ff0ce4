use vstd::prelude::*;

use crate::errors::ErrorCode;
use crate::identity::Identity;
use crate::team::{applies, TeamAccount, TeamView};
use crate::vote::{RoundView, VoteType, APPROVAL_THRESHOLD, MAX_SEATS};

verus! {

impl TeamView {
    pub open spec fn initing_tournament(
        self,
        signer: Identity,
        tournament: Identity,
        prize: u64,
    ) -> Result<TeamView, ErrorCode> {
        if signer != self.captain {
            Err(ErrorCode::NotCaptainError)
        } else if self.active_tournament is Some {
            Err(ErrorCode::AlreadyActiveTournamentError)
        } else {
            Ok(TeamView { active_tournament: Some(tournament), prize, ..self })
        }
    }

    /// A ballot on taking part. The ballot that approves the round sets
    /// `voting_result` and empties the round.
    pub open spec fn voting_for_tournament(self, signer: Identity, vote: VoteType) -> Result<
        TeamView,
        ErrorCode,
    > {
        if self.active_tournament is None {
            Err(ErrorCode::NoActiveTournamentError)
        } else {
            match self.join_vote.ballot(signer, self.members, vote) {
                Err(e) => Err(e),
                Ok((round, crossed)) => if crossed {
                    Ok(TeamView { join_vote: RoundView::empty(), voting_result: true, ..self })
                } else {
                    Ok(TeamView { join_vote: round, ..self })
                },
            }
        }
    }

    /// The team with no tournament: every round emptied, every decision
    /// taken back, the percentages dropped.
    pub open spec fn withdrawn(self) -> TeamView {
        TeamView {
            active_tournament: None,
            join_vote: RoundView::empty(),
            voting_result: false,
            leave_vote: RoundView::empty(),
            distribution_percentages: Seq::empty(),
            distribution_vote: RoundView::empty(),
            distribution_voting_result: false,
            can_join_tournament: false,
            ..self
        }
    }

    /// A ballot on leaving. The ballot that approves the round withdraws the
    /// team from the tournament.
    pub open spec fn leaving_tournament(self, signer: Identity, vote: VoteType) -> Result<
        TeamView,
        ErrorCode,
    > {
        if self.active_tournament is None {
            Err(ErrorCode::NoActiveTournamentError)
        } else {
            match self.leave_vote.ballot(signer, self.members, vote) {
                Err(e) => Err(e),
                Ok((round, crossed)) => if crossed {
                    Ok(self.withdrawn())
                } else {
                    Ok(TeamView { leave_vote: round, ..self })
                },
            }
        }
    }

    /// Whether the team is cleared to enter: it voted to take part and the
    /// distribution round holds enough "yes" ballots.
    pub open spec fn cleared_to_join(self) -> bool {
        self.voting_result && self.distribution_vote.yes_count >= APPROVAL_THRESHOLD
    }

    pub open spec fn can_join(self) -> Result<TeamView, ErrorCode> {
        if self.members.len() != MAX_SEATS {
            Err(ErrorCode::NotEnoughPlayersError)
        } else if self.active_tournament is None {
            Err(ErrorCode::NoActiveTournamentError)
        } else {
            Ok(TeamView { can_join_tournament: self.cleared_to_join(), ..self })
        }
    }
}

/// The captain enters the team in `tournament`, whose prize is `prize`.
pub fn initing_tournament(
    team: &mut TeamAccount,
    signer: Identity,
    tournament: Identity,
    prize: u64,
) -> (r: Result<(), ErrorCode>)
    ensures
        applies(
            old(team)@.initing_tournament(signer, tournament, prize),
            r,
            old(team)@,
            final(team)@,
        ),
{
    if team.captain != signer {
        return Err(ErrorCode::NotCaptainError);
    }
    if team.active_tournament.is_some() {
        return Err(ErrorCode::AlreadyActiveTournamentError);
    }
    team.active_tournament = Some(tournament);
    team.prize = prize;
    Ok(())
}

/// A member's ballot on taking part in the active tournament.
pub fn voting_for_tournament(team: &mut TeamAccount, signer: Identity, vote: VoteType) -> (r:
    Result<(), ErrorCode>)
    ensures
        applies(old(team)@.voting_for_tournament(signer, vote), r, old(team)@, final(team)@),
{
    if team.active_tournament.is_none() {
        return Err(ErrorCode::NoActiveTournamentError);
    }
    let crossed = team.join_vote.cast_ballot(signer, &team.members, vote)?;
    if crossed {
        team.join_vote.reset();
        team.voting_result = true;
    }
    Ok(())
}

/// A member's ballot on leaving the active tournament.
pub fn leaving_tournament(team: &mut TeamAccount, signer: Identity, vote: VoteType) -> (r: Result<
    (),
    ErrorCode,
>)
    ensures
        applies(old(team)@.leaving_tournament(signer, vote), r, old(team)@, final(team)@),
{
    if team.active_tournament.is_none() {
        return Err(ErrorCode::NoActiveTournamentError);
    }
    let crossed = team.leave_vote.cast_ballot(signer, &team.members, vote)?;
    if crossed {
        team.active_tournament = None;
        team.join_vote.reset();
        team.voting_result = false;
        team.leave_vote.reset();
        team.distribution_percentages = Vec::new();
        team.distribution_vote.reset();
        team.distribution_voting_result = false;
        team.can_join_tournament = false;
    }
    Ok(())
}

/// Records whether a full team is cleared to enter its active tournament.
pub fn can_join(team: &mut TeamAccount) -> (r: Result<(), ErrorCode>)
    ensures
        applies(old(team)@.can_join(), r, old(team)@, final(team)@),
{
    if team.members.len() != MAX_SEATS {
        return Err(ErrorCode::NotEnoughPlayersError);
    }
    if team.active_tournament.is_none() {
        return Err(ErrorCode::NoActiveTournamentError);
    }
    team.can_join_tournament = team.voting_result && team.distribution_vote.yes_count
        >= APPROVAL_THRESHOLD;
    Ok(())
}

} // verus!
