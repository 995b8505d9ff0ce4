use vstd::prelude::*;

use crate::errors::ErrorCode;
use crate::identity::{lemma_position_of_first, lemma_position_of_hit, position_of, Identity};
use crate::membership::RemovalPolicy;
use crate::reward::{lemma_sum_of_prefix, reward_cap, sum_of, FULL_SHARE};
use crate::team::{without, TeamView};
use crate::vote::VoteType;

verus! {

/// Each operation that changes a team record, with its arguments.
pub enum Operation {
    AddMember { signer: Identity, member: Identity },
    RemoveMember { policy: RemovalPolicy, signer: Identity, member: Identity },
    TransferCaptain { signer: Identity, member: Identity },
    LeaveTeam { signer: Identity },
    InitTournament { signer: Identity, tournament: Identity, prize: u64 },
    VoteForTournament { signer: Identity, vote: VoteType },
    LeaveTournament { signer: Identity, vote: VoteType },
    ProposePercentages { signer: Identity, percentages: Seq<u8> },
    VoteOnDistribution { signer: Identity, vote: VoteType },
    CanJoin,
}

/// What `op` does to the team `t`.
pub open spec fn step(t: TeamView, op: Operation) -> Result<TeamView, ErrorCode> {
    match op {
        Operation::AddMember { signer, member } => t.adding_member(signer, member),
        Operation::RemoveMember { policy, signer, member } => t.removing_member(
            policy,
            signer,
            member,
        ),
        Operation::TransferCaptain { signer, member } => t.transfering_captain(signer, member),
        Operation::LeaveTeam { signer } => t.leaving_team(signer),
        Operation::InitTournament { signer, tournament, prize } => t.initing_tournament(
            signer,
            tournament,
            prize,
        ),
        Operation::VoteForTournament { signer, vote } => t.voting_for_tournament(signer, vote),
        Operation::LeaveTournament { signer, vote } => t.leaving_tournament(signer, vote),
        Operation::ProposePercentages { signer, percentages } => t.initing_percentage_proposal(
            signer,
            percentages,
        ),
        Operation::VoteOnDistribution { signer, vote } => t.handle_distribute_proposal(
            signer,
            vote,
        ),
        Operation::CanJoin => t.can_join(),
    }
}

/// `op` is the captain leaving from the second seat of the roster. The
/// succession rule then names the leaving captain as the new one.
pub open spec fn captain_leaves_from_second_seat(t: TeamView, op: Operation) -> bool {
    match op {
        Operation::LeaveTeam { signer } => signer == t.captain && t.members.len() >= 2
            && t.members[1] == signer,
        _ => false,
    }
}

proof fn lemma_without(s: Seq<Identity>, x: Identity)
    requires
        s.no_duplicates(),
        s.contains(x),
    ensures
        without(s, x).no_duplicates(),
        without(s, x).len() == s.len() - 1,
        !without(s, x).contains(x),
        forall|y: Identity| y != x ==> (without(s, x).contains(y) <==> s.contains(y)),
{
    lemma_position_of_hit(s, x);
    let p = position_of(s, x)->Some_0;
    let w = s.remove(p);
    assert forall|y: Identity| y != x implies (w.contains(y) <==> s.contains(y)) by {
        if s.contains(y) {
            let k = choose|k: int| 0 <= k < s.len() && s[k] == y;
            if k < p {
                assert(w[k] == y);
            } else {
                assert(w[k - 1] == y);
            }
        }
    }
    if w.contains(x) {
        let k = choose|k: int| 0 <= k < w.len() && w[k] == x;
        if k < p {
            assert(s[k] == x);
        } else {
            assert(s[k + 1] == x);
        }
    }
}

/// A new team is well formed.
pub proof fn lemma_created_wf(name: Seq<char>, id: u64, creator: Identity, bump: u8)
    ensures
        TeamView::created(name, id, creator, bump).wf(),
{
    let t = TeamView::created(name, id, creator, bump);
    assert(t.members[0] == creator);
}

/// Every operation that succeeds on a team of one to five distinct members,
/// the captain among them, leaves such a team, or the disbanded record when
/// its last member left. The one exception is the captain leaving from the
/// second seat, where the succession rule picks the leaving captain.
pub proof fn lemma_roster_invariant(t: TeamView, op: Operation)
    requires
        t.roster_wf(),
        !captain_leaves_from_second_seat(t, op),
    ensures
        step(t, op) matches Ok(next) ==> next.roster_wf() || next == TeamView::disbanded(t.bump),
{
    match op {
        Operation::AddMember { signer, member } => {
            if let Ok(next) = step(t, op) {
                assert(next.members[t.members.len() as int] == member);
                assert forall|y: Identity| t.members.contains(y) implies next.members.contains(y) by {
                    let k = choose|k: int| 0 <= k < t.members.len() && t.members[k] == y;
                    assert(next.members[k] == y);
                }
            }
        },
        Operation::RemoveMember { policy, signer, member } => {
            if let Ok(_) = step(t, op) {
                lemma_without(t.members, member);
            }
        },
        Operation::LeaveTeam { signer } => {
            if let Ok(_) = step(t, op) {
                if t.members.len() > 1 {
                    lemma_without(t.members, signer);
                    if signer == t.captain {
                        assert(t.members.contains(t.members[1]));
                    }
                }
            }
        },
        _ => {},
    }
}

/// Every operation that succeeds keeps each round free of a second ballot
/// by the same voter, between the round's resets.
pub proof fn lemma_one_ballot_per_voter(t: TeamView, op: Operation)
    requires
        t.rounds_wf(),
    ensures
        step(t, op) matches Ok(next) ==> next.rounds_wf(),
{
}

/// Checking whether the team may join a second time, with nothing done in
/// between, finds the same answer and changes nothing more.
pub proof fn lemma_can_join_idempotent(t: TeamView)
    ensures
        t.can_join() matches Ok(once) ==> once.can_join() == Ok::<TeamView, ErrorCode>(once)
            && once.can_join_tournament == t.cleared_to_join(),
{
}

proof fn lemma_sum_of_element(s: Seq<u8>, i: int)
    requires
        0 <= i < s.len(),
    ensures
        s[i] <= sum_of(s),
{
    lemma_sum_of_prefix(s, i + 1);
    let p = s.subrange(0, i + 1);
    assert(p.drop_last() =~= s.subrange(0, i));
    lemma_sum_of_prefix(s, i);
    if i == 0 {
        assert(s.subrange(0, 0) =~= Seq::<u8>::empty());
    }
    lemma_sum_nonneg(s.subrange(0, i));
}

proof fn lemma_sum_nonneg(s: Seq<u8>)
    ensures
        sum_of(s) >= 0,
    decreases s.len(),
{
    if s.len() > 0 {
        lemma_sum_nonneg(s.drop_last());
    }
}

/// Right after a proposal of percentages is accepted, the member in each seat
/// that the proposal covers may claim exactly the rounded-down share of the
/// prize for that seat, and one unit more is refused as above the cap.
pub proof fn lemma_claim_up_to_cap(
    t: TeamView,
    signer: Identity,
    percentages: Seq<u8>,
    seat: int,
)
    requires
        t.members.no_duplicates(),
        t.initing_percentage_proposal(signer, percentages) is Ok,
        0 <= seat < t.members.len(),
        seat < percentages.len(),
    ensures
        ({
            let proposed = t.initing_percentage_proposal(signer, percentages)->Ok_0;
            let cap = reward_cap(t.prize, percentages[seat]);
            &&& 0 <= cap <= t.prize
            &&& proposed.claiming_reward(t.members[seat], cap as u64) == Ok::<u64, ErrorCode>(
                cap as u64,
            )
            &&& cap < u64::MAX ==> proposed.claiming_reward(t.members[seat], (cap + 1) as u64)
                == Err::<u64, ErrorCode>(ErrorCode::ExceedsCapError)
        }),
{
    let proposed = t.initing_percentage_proposal(signer, percentages)->Ok_0;
    let who = t.members[seat];
    assert forall|j: int| 0 <= j < seat implies t.members[j] != who by {}
    lemma_position_of_first(t.members, who, seat);
    lemma_sum_of_element(percentages, seat);
    let pct = percentages[seat];
    let prize = t.prize;
    assert(0 <= prize as int * pct as int <= prize as int * FULL_SHARE as int) by (nonlinear_arith)
        requires
            0 <= pct <= FULL_SHARE,
    ;
    assert(reward_cap(prize, pct) <= prize) by (nonlinear_arith)
        requires
            0 <= prize as int * pct as int <= prize as int * 100,
            reward_cap(prize, pct) == (prize as int * pct as int) / 100,
    ;
}

} // verus!
