use vstd::prelude::*;

verus! {

/// Why an operation was rejected. A rejected operation changes nothing.
#[derive(Clone, Copy, Debug, PartialEq, Eq, Structural)]
pub enum ErrorCode {
    /// A team holds at most five members.
    TeamCapacityFullError,
    /// The account's address seeds did not yield a bump.
    InvalidBumpSeeds,
    /// A member can only be removed from a team of two or more.
    TeamCapacityLowError,
    /// Only the captain may do this, or the captain was the target.
    NotCaptainError,
    /// The identity is not a member of the team.
    MemberNotInTeamError,
    /// The identity is already a member of the team.
    MemberAlreadyInTeamError,
    /// The captain must hand over the role before leaving.
    CaptainCannotLeaveTeamError,
    /// The caller has already cast a ballot in this round.
    AlreadyVotedError,
    /// The team already has an active tournament.
    AlreadyActiveTournamentError,
    /// The team has no active tournament.
    NoActiveTournamentError,
    /// Joining a tournament takes a full team of five.
    NotEnoughPlayersError,
    /// The proposed percentages do not add up to 100.
    InvalidPercentageError,
    /// No share of the prize is set for the claimant's seat.
    InvalidRewardError,
    /// The claimed amount is above the claimant's share of the prize.
    ExceedsCapError,
    /// The round has been decided or has taken its last ballot.
    VotingClosedError,
}

} // verus!
