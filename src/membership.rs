use vstd::prelude::*;

use crate::errors::ErrorCode;
use crate::identity::{find_identity, holds_identity, Identity};
use crate::team::{applies, without, TeamAccount, TeamView};
use crate::vote::{VoteRound, MAX_SEATS};

verus! {

/// Who may remove a member from a team.
#[derive(Clone, Copy, Debug, PartialEq, Eq, Structural)]
pub enum RemovalPolicy {
    /// Only the captain removes members.
    CaptainOnly,
    /// Any caller may remove a member who is not the captain.
    Open,
}

impl TeamView {
    pub open spec fn adding_member(self, signer: Identity, member: Identity) -> Result<
        TeamView,
        ErrorCode,
    > {
        if signer != self.captain {
            Err(ErrorCode::NotCaptainError)
        } else if self.members.len() >= MAX_SEATS {
            Err(ErrorCode::TeamCapacityFullError)
        } else if self.members.contains(member) {
            Err(ErrorCode::MemberAlreadyInTeamError)
        } else {
            Ok(TeamView { members: self.members.push(member), ..self })
        }
    }

    pub open spec fn removing_member(
        self,
        policy: RemovalPolicy,
        signer: Identity,
        member: Identity,
    ) -> Result<TeamView, ErrorCode> {
        if policy is CaptainOnly && signer != self.captain {
            Err(ErrorCode::NotCaptainError)
        } else if self.members.len() <= 1 {
            Err(ErrorCode::TeamCapacityLowError)
        } else if member == self.captain {
            Err(ErrorCode::NotCaptainError)
        } else if !self.members.contains(member) {
            Err(ErrorCode::MemberNotInTeamError)
        } else {
            Ok(TeamView { members: without(self.members, member), ..self })
        }
    }

    pub open spec fn transfering_captain(self, signer: Identity, member: Identity) -> Result<
        TeamView,
        ErrorCode,
    > {
        if signer != self.captain {
            Err(ErrorCode::NotCaptainError)
        } else if !self.members.contains(member) {
            Err(ErrorCode::MemberNotInTeamError)
        } else {
            Ok(TeamView { captain: member, ..self })
        }
    }

    /// The last member leaving disbands the team. A leaving captain hands the
    /// role to whoever holds the second seat of the roster.
    pub open spec fn leaving_team(self, signer: Identity) -> Result<TeamView, ErrorCode> {
        if !self.members.contains(signer) {
            Err(ErrorCode::MemberNotInTeamError)
        } else if self.members.len() == 1 {
            Ok(TeamView::disbanded(self.bump))
        } else if signer == self.captain {
            Ok(TeamView { captain: self.members[1], members: without(self.members, signer), ..self })
        } else {
            Ok(TeamView { members: without(self.members, signer), ..self })
        }
    }
}

/// A new team record with `creator` as captain and only member.
pub fn creating_team(team_name: String, team_id: u64, creator: Identity, bump: u8) -> (r:
    TeamAccount)
    ensures
        r@ == TeamView::created(team_name@, team_id, creator, bump),
{
    let mut members: Vec<Identity> = Vec::new();
    members.push(creator);
    let r = TeamAccount {
        captain: creator,
        bump,
        name: team_name,
        members,
        id: team_id,
        join_vote: VoteRound::new(),
        active_tournament: None,
        prize: 0,
        voting_result: false,
        leave_vote: VoteRound::new(),
        distribution_percentages: Vec::new(),
        distribution_vote: VoteRound::new(),
        distribution_voting_result: false,
        can_join_tournament: false,
    };
    assert(r@.members =~= seq![creator]);
    r
}

/// The captain adds `member` at the end of the roster.
pub fn adding_member(team: &mut TeamAccount, signer: Identity, member: Identity) -> (r: Result<
    (),
    ErrorCode,
>)
    ensures
        applies(old(team)@.adding_member(signer, member), r, old(team)@, final(team)@),
{
    if team.captain != signer {
        return Err(ErrorCode::NotCaptainError);
    }
    if team.members.len() >= MAX_SEATS {
        return Err(ErrorCode::TeamCapacityFullError);
    }
    if holds_identity(&team.members, member) {
        return Err(ErrorCode::MemberAlreadyInTeamError);
    }
    team.members.push(member);
    Ok(())
}

/// Removes `member`, who must not be the captain, under `policy`.
pub fn removing_member_under(
    team: &mut TeamAccount,
    policy: RemovalPolicy,
    signer: Identity,
    member: Identity,
) -> (r: Result<(), ErrorCode>)
    ensures
        applies(old(team)@.removing_member(policy, signer, member), r, old(team)@, final(team)@),
{
    if policy == RemovalPolicy::CaptainOnly && team.captain != signer {
        return Err(ErrorCode::NotCaptainError);
    }
    if team.members.len() <= 1 {
        return Err(ErrorCode::TeamCapacityLowError);
    }
    if team.captain == member {
        return Err(ErrorCode::NotCaptainError);
    }
    match find_identity(&team.members, member) {
        None => Err(ErrorCode::MemberNotInTeamError),
        Some(i) => {
            team.members.remove(i);
            Ok(())
        },
    }
}

/// The captain removes `member`, who must not be the captain.
pub fn removing_member(team: &mut TeamAccount, signer: Identity, member: Identity) -> (r: Result<
    (),
    ErrorCode,
>)
    ensures
        applies(
            old(team)@.removing_member(RemovalPolicy::CaptainOnly, signer, member),
            r,
            old(team)@,
            final(team)@,
        ),
{
    removing_member_under(team, RemovalPolicy::CaptainOnly, signer, member)
}

/// The captain hands the role to `member`.
pub fn transfering_captain(team: &mut TeamAccount, signer: Identity, member: Identity) -> (r:
    Result<(), ErrorCode>)
    ensures
        applies(old(team)@.transfering_captain(signer, member), r, old(team)@, final(team)@),
{
    if team.captain != signer {
        return Err(ErrorCode::NotCaptainError);
    }
    if !holds_identity(&team.members, member) {
        return Err(ErrorCode::MemberNotInTeamError);
    }
    team.captain = member;
    Ok(())
}

/// `signer` leaves the team; see [`TeamView::leaving_team`].
pub fn leaving_team(team: &mut TeamAccount, signer: Identity) -> (r: Result<(), ErrorCode>)
    ensures
        applies(old(team)@.leaving_team(signer), r, old(team)@, final(team)@),
{
    let i = match find_identity(&team.members, signer) {
        None => return Err(ErrorCode::MemberNotInTeamError),
        Some(i) => i,
    };
    if team.members.len() == 1 {
        team.captain = Identity::zero();
        team.name = String::new();
        team.members = Vec::new();
        team.id = 0;
        team.join_vote.reset();
        team.active_tournament = None;
        team.prize = 0;
        team.voting_result = false;
        team.leave_vote.reset();
        team.distribution_percentages = Vec::new();
        team.distribution_vote.reset();
        team.distribution_voting_result = false;
        team.can_join_tournament = false;
        assert(team.name@ =~= Seq::<char>::empty());
        return Ok(());
    }
    if team.captain == signer {
        team.captain = team.members[1];
    }
    team.members.remove(i);
    Ok(())
}

} // verus!
