use vstd::prelude::*;

use crate::errors::ErrorCode;
use crate::identity::{find_identity, position_of, Identity};
use crate::team::{applies, TeamAccount, TeamView};
use crate::vote::{VoteType, APPROVAL_THRESHOLD};

verus! {

/// The shares of the prize add up to this.
pub const FULL_SHARE: u64 = 100;

/// The sum of the percentages in `s`.
pub open spec fn sum_of(s: Seq<u8>) -> int
    decreases s.len(),
{
    if s.len() == 0 {
        0
    } else {
        sum_of(s.drop_last()) + s.last()
    }
}

/// A prefix never sums to more than the whole.
pub proof fn lemma_sum_of_prefix(s: Seq<u8>, i: int)
    requires
        0 <= i <= s.len(),
    ensures
        sum_of(s.subrange(0, i)) <= sum_of(s),
    decreases s.len(),
{
    if i < s.len() {
        lemma_sum_of_prefix(s.drop_last(), i);
        assert(s.drop_last().subrange(0, i) =~= s.subrange(0, i));
    } else {
        assert(s.subrange(0, i) =~= s);
    }
}

/// The most that a seat with `percentage` percent of `prize` may claim: the
/// share rounded down.
pub open spec fn reward_cap(prize: u64, percentage: u8) -> int {
    (prize as int * percentage as int) / (FULL_SHARE as int)
}

impl TeamView {
    pub open spec fn initing_percentage_proposal(self, signer: Identity, percentages: Seq<u8>) -> Result<
        TeamView,
        ErrorCode,
    > {
        if signer != self.captain {
            Err(ErrorCode::NotCaptainError)
        } else if self.active_tournament is None {
            Err(ErrorCode::NoActiveTournamentError)
        } else if sum_of(percentages) != FULL_SHARE {
            Err(ErrorCode::InvalidPercentageError)
        } else {
            Ok(TeamView { distribution_percentages: percentages, ..self })
        }
    }

    /// A ballot on the proposed percentages. From the third ballot on, the
    /// percentages stand approved exactly when the round holds enough "yes"
    /// ballots.
    pub open spec fn handle_distribute_proposal(self, signer: Identity, vote: VoteType) -> Result<
        TeamView,
        ErrorCode,
    > {
        if self.active_tournament is None {
            Err(ErrorCode::NoActiveTournamentError)
        } else {
            match self.distribution_vote.ballot(signer, self.members, vote) {
                Err(e) => Err(e),
                Ok((round, _)) => Ok(
                    TeamView {
                        distribution_vote: round,
                        distribution_voting_result: if round.voters.len() >= APPROVAL_THRESHOLD {
                            round.yes_count >= APPROVAL_THRESHOLD
                        } else {
                            self.distribution_voting_result
                        },
                        ..self
                    },
                ),
            }
        }
    }

    /// The amount `claimant` may be paid: `reward` itself, when it is within
    /// the share of the prize set for the claimant's seat.
    pub open spec fn claiming_reward(self, claimant: Identity, reward: u64) -> Result<u64, ErrorCode> {
        match position_of(self.members, claimant) {
            None => Err(ErrorCode::MemberNotInTeamError),
            Some(seat) => if seat >= self.distribution_percentages.len() {
                Err(ErrorCode::InvalidRewardError)
            } else if reward > reward_cap(self.prize, self.distribution_percentages[seat]) {
                Err(ErrorCode::ExceedsCapError)
            } else {
                Ok(reward)
            },
        }
    }
}

/// Whether `percentages` add up to exactly 100.
pub fn is_full_share(percentages: &Vec<u8>) -> (r: bool)
    ensures
        r == (sum_of(percentages@) == FULL_SHARE),
{
    let mut total: u64 = 0;
    let mut i: usize = 0;
    while i < percentages.len()
        invariant
            i <= percentages@.len(),
            total == sum_of(percentages@.subrange(0, i as int)),
            total <= FULL_SHARE,
        decreases percentages@.len() - i,
    {
        assert(percentages@.subrange(0, i + 1).drop_last() =~= percentages@.subrange(0, i as int));
        total = total + percentages[i] as u64;
        i = i + 1;
        if total > FULL_SHARE {
            proof {
                lemma_sum_of_prefix(percentages@, i as int);
            }
            return false;
        }
    }
    assert(percentages@.subrange(0, i as int) =~= percentages@);
    total == FULL_SHARE
}

/// The share of `prize` that `percentage` percent gives, rounded down.
pub fn compute_reward_cap(prize: u64, percentage: u8) -> (r: u128)
    ensures
        r == reward_cap(prize, percentage),
{
    assert(prize as int * percentage as int <= u64::MAX as int * 255) by (nonlinear_arith)
        requires
            percentage <= 255,
    ;
    (prize as u128) * (percentage as u128) / (FULL_SHARE as u128)
}

/// The captain proposes how the prize is split; each seat of the roster gets
/// the percentage at its position.
pub fn initing_percentage_proposal(
    team: &mut TeamAccount,
    signer: Identity,
    percentages: Vec<u8>,
) -> (r: Result<(), ErrorCode>)
    ensures
        applies(
            old(team)@.initing_percentage_proposal(signer, percentages@),
            r,
            old(team)@,
            final(team)@,
        ),
{
    if team.captain != signer {
        return Err(ErrorCode::NotCaptainError);
    }
    if team.active_tournament.is_none() {
        return Err(ErrorCode::NoActiveTournamentError);
    }
    if !is_full_share(&percentages) {
        return Err(ErrorCode::InvalidPercentageError);
    }
    team.distribution_percentages = percentages;
    Ok(())
}

/// A member's ballot on the proposed percentages.
pub fn handle_distribute_proposal(team: &mut TeamAccount, signer: Identity, vote: VoteType) -> (r:
    Result<(), ErrorCode>)
    ensures
        applies(old(team)@.handle_distribute_proposal(signer, vote), r, old(team)@, final(team)@),
{
    if team.active_tournament.is_none() {
        return Err(ErrorCode::NoActiveTournamentError);
    }
    team.distribution_vote.cast_ballot(signer, &team.members, vote)?;
    if team.distribution_vote.voters.len() >= APPROVAL_THRESHOLD as usize {
        team.distribution_voting_result = team.distribution_vote.yes_count >= APPROVAL_THRESHOLD;
    }
    Ok(())
}

/// Checks a claim of `reward` by `claimant` against the claimant's share of
/// the prize, and returns the amount to move to the claimant. Nothing in the
/// record changes: paying it out is up to the caller's ledger.
pub fn claiming_reward(team: &TeamAccount, claimant: Identity, reward: u64) -> (r: Result<
    u64,
    ErrorCode,
>)
    ensures
        r == team@.claiming_reward(claimant, reward),
{
    let seat = match find_identity(&team.members, claimant) {
        None => return Err(ErrorCode::MemberNotInTeamError),
        Some(seat) => seat,
    };
    if seat >= team.distribution_percentages.len() {
        return Err(ErrorCode::InvalidRewardError);
    }
    let cap = compute_reward_cap(team.prize, team.distribution_percentages[seat]);
    if reward as u128 > cap {
        return Err(ErrorCode::ExceedsCapError);
    }
    Ok(reward)
}

} // verus!
