use team_dao::{
    adding_member, can_join, claiming_reward, creating_team, handle_distribute_proposal,
    initing_percentage_proposal, initing_tournament, is_full_share, leaving_team,
    leaving_tournament, removing_member, removing_member_under, transfering_captain,
    voting_for_tournament, ErrorCode, Identity, RemovalPolicy, TeamAccount, VoteType,
};

fn id(n: u128) -> Identity {
    Identity::new(7, n)
}

fn team_of(n: u128) -> TeamAccount {
    let mut team = creating_team("wolves".to_string(), 42, id(1), 254);
    for k in 2..=n {
        assert_eq!(adding_member(&mut team, id(1), id(k)), Ok(()));
    }
    team
}

fn team_in_tournament(n: u128, prize: u64) -> TeamAccount {
    let mut team = team_of(n);
    assert_eq!(initing_tournament(&mut team, id(1), id(900), prize), Ok(()));
    team
}

fn roster_ok(team: &TeamAccount) -> bool {
    let n = team.members.len();
    let distinct = (0..n).all(|i| (0..n).all(|j| i == j || team.members[i] != team.members[j]));
    (1..=5).contains(&n) && distinct && team.members.contains(&team.captain)
}

#[test]
fn creating_team_makes_creator_captain() {
    let team = creating_team("wolves".to_string(), 42, id(1), 254);
    assert_eq!(team.captain, id(1));
    assert_eq!(team.members, vec![id(1)]);
    assert_eq!(team.name, "wolves");
    assert_eq!(team.id, 42);
    assert_eq!(team.bump, 254);
    assert_eq!(team.active_tournament, None);
    assert!(team.join_vote.voters.is_empty());
    assert!(!team.can_join_tournament);
}

#[test]
fn scenario_sixth_member_is_refused() {
    let mut team = team_of(5);
    assert_eq!(team.members, vec![id(1), id(2), id(3), id(4), id(5)]);
    assert_eq!(adding_member(&mut team, id(1), id(6)), Err(ErrorCode::TeamCapacityFullError));
    assert_eq!(team.members.len(), 5);
}

#[test]
fn adding_member_errors() {
    let mut team = team_of(2);
    assert_eq!(adding_member(&mut team, id(2), id(3)), Err(ErrorCode::NotCaptainError));
    assert_eq!(adding_member(&mut team, id(1), id(2)), Err(ErrorCode::MemberAlreadyInTeamError));
    assert_eq!(team.members, vec![id(1), id(2)]);
}

#[test]
fn scenario_third_yes_approves_join() {
    let mut team = team_in_tournament(5, 1000);
    assert_eq!(voting_for_tournament(&mut team, id(1), VoteType::Yes), Ok(()));
    assert_eq!(voting_for_tournament(&mut team, id(2), VoteType::Yes), Ok(()));
    assert!(!team.voting_result);
    assert_eq!(team.join_vote.yes_count, 2);
    assert_eq!(voting_for_tournament(&mut team, id(3), VoteType::Yes), Ok(()));
    assert!(team.voting_result);
    assert!(team.join_vote.voters.is_empty());
    assert_eq!(team.join_vote.yes_count, 0);
    for k in 1..=3 {
        assert_eq!(voting_for_tournament(&mut team, id(k), VoteType::Yes), Ok(()));
    }
}

#[test]
fn voting_twice_in_a_round_is_refused() {
    let mut team = team_in_tournament(5, 1000);
    assert_eq!(voting_for_tournament(&mut team, id(2), VoteType::No), Ok(()));
    assert_eq!(
        voting_for_tournament(&mut team, id(2), VoteType::Yes),
        Err(ErrorCode::AlreadyVotedError)
    );
    assert_eq!(team.join_vote.voters, vec![id(2)]);
    assert_eq!(team.join_vote.yes_count, 0);
}

#[test]
fn voting_errors() {
    let mut team = team_of(5);
    assert_eq!(
        voting_for_tournament(&mut team, id(1), VoteType::Yes),
        Err(ErrorCode::NoActiveTournamentError)
    );
    assert_eq!(
        leaving_tournament(&mut team, id(1), VoteType::Yes),
        Err(ErrorCode::NoActiveTournamentError)
    );
    assert_eq!(
        handle_distribute_proposal(&mut team, id(1), VoteType::Yes),
        Err(ErrorCode::NoActiveTournamentError)
    );
    assert_eq!(initing_tournament(&mut team, id(1), id(900), 10), Ok(()));
    assert_eq!(
        voting_for_tournament(&mut team, id(77), VoteType::Yes),
        Err(ErrorCode::MemberNotInTeamError)
    );
}

#[test]
fn small_team_still_needs_three_yes() {
    let mut team = team_in_tournament(2, 1000);
    assert_eq!(voting_for_tournament(&mut team, id(1), VoteType::Yes), Ok(()));
    assert_eq!(voting_for_tournament(&mut team, id(2), VoteType::Yes), Ok(()));
    assert!(!team.voting_result);
    assert_eq!(team.join_vote.yes_count, 2);
}

#[test]
fn scenario_captain_succession() {
    let mut team = team_of(5);
    assert_eq!(leaving_team(&mut team, id(1)), Ok(()));
    assert_eq!(team.captain, id(2));
    assert_eq!(team.members, vec![id(2), id(3), id(4), id(5)]);
    assert!(roster_ok(&team));
}

#[test]
fn member_leaving_keeps_captain() {
    let mut team = team_of(3);
    assert_eq!(leaving_team(&mut team, id(3)), Ok(()));
    assert_eq!(team.captain, id(1));
    assert_eq!(team.members, vec![id(1), id(2)]);
    assert_eq!(leaving_team(&mut team, id(3)), Err(ErrorCode::MemberNotInTeamError));
}

#[test]
fn captain_in_later_seat_hands_over_to_second_seat() {
    let mut team = team_of(4);
    assert_eq!(transfering_captain(&mut team, id(1), id(3)), Ok(()));
    assert_eq!(leaving_team(&mut team, id(3)), Ok(()));
    assert_eq!(team.captain, id(2));
    assert_eq!(team.members, vec![id(1), id(2), id(4)]);
}

#[test]
fn captain_in_second_seat_names_itself() {
    let mut team = team_of(3);
    assert_eq!(transfering_captain(&mut team, id(1), id(2)), Ok(()));
    assert_eq!(leaving_team(&mut team, id(2)), Ok(()));
    assert_eq!(team.captain, id(2));
    assert_eq!(team.members, vec![id(1), id(3)]);
    assert!(!roster_ok(&team));
}

#[test]
fn last_member_leaving_disbands_team() {
    let mut team = team_in_tournament(1, 500);
    assert_eq!(initing_percentage_proposal(&mut team, id(1), vec![100]), Ok(()));
    assert_eq!(leaving_team(&mut team, id(1)), Ok(()));
    assert!(team.members.is_empty());
    assert_eq!(team.captain, Identity::zero());
    assert_eq!(team.name, "");
    assert_eq!(team.id, 0);
    assert_eq!(team.bump, 254);
    assert_eq!(team.active_tournament, None);
    assert_eq!(team.prize, 0);
    assert!(team.distribution_percentages.is_empty());
}

#[test]
fn boundary_remove_down_to_one() {
    let mut team = team_of(2);
    assert_eq!(removing_member(&mut team, id(1), id(2)), Ok(()));
    assert_eq!(team.members, vec![id(1)]);
    assert_eq!(removing_member(&mut team, id(1), id(2)), Err(ErrorCode::TeamCapacityLowError));
    assert_eq!(removing_member(&mut team, id(1), id(1)), Err(ErrorCode::TeamCapacityLowError));
}

#[test]
fn removing_member_errors() {
    let mut team = team_of(3);
    assert_eq!(removing_member(&mut team, id(2), id(3)), Err(ErrorCode::NotCaptainError));
    assert_eq!(removing_member(&mut team, id(1), id(1)), Err(ErrorCode::NotCaptainError));
    assert_eq!(removing_member(&mut team, id(1), id(9)), Err(ErrorCode::MemberNotInTeamError));
    assert_eq!(team.members, vec![id(1), id(2), id(3)]);
}

#[test]
fn open_policy_lets_any_caller_remove() {
    let mut team = team_of(3);
    assert_eq!(
        removing_member_under(&mut team, RemovalPolicy::Open, id(2), id(3)),
        Ok(())
    );
    assert_eq!(team.members, vec![id(1), id(2)]);
    assert_eq!(
        removing_member_under(&mut team, RemovalPolicy::Open, id(2), id(1)),
        Err(ErrorCode::NotCaptainError)
    );
}

#[test]
fn transfering_captain_errors() {
    let mut team = team_of(2);
    assert_eq!(transfering_captain(&mut team, id(2), id(2)), Err(ErrorCode::NotCaptainError));
    assert_eq!(
        transfering_captain(&mut team, id(1), id(8)),
        Err(ErrorCode::MemberNotInTeamError)
    );
    assert_eq!(transfering_captain(&mut team, id(1), id(2)), Ok(()));
    assert_eq!(team.captain, id(2));
    assert_eq!(adding_member(&mut team, id(1), id(3)), Err(ErrorCode::NotCaptainError));
}

#[test]
fn roster_stays_well_formed_through_operations() {
    let mut team = team_of(1);
    assert!(roster_ok(&team));
    let _ = adding_member(&mut team, id(1), id(2));
    let _ = adding_member(&mut team, id(1), id(2));
    let _ = adding_member(&mut team, id(1), id(3));
    assert!(roster_ok(&team));
    let _ = transfering_captain(&mut team, id(1), id(3));
    let _ = removing_member(&mut team, id(3), id(1));
    assert!(roster_ok(&team));
    let _ = transfering_captain(&mut team, id(3), id(2));
    let _ = leaving_team(&mut team, id(2));
    assert!(roster_ok(&team));
    assert_eq!(team.members, vec![id(3)]);
    assert_eq!(team.captain, id(3));
}

#[test]
fn initing_tournament_errors() {
    let mut team = team_of(2);
    assert_eq!(initing_tournament(&mut team, id(2), id(900), 10), Err(ErrorCode::NotCaptainError));
    assert_eq!(initing_tournament(&mut team, id(1), id(900), 10), Ok(()));
    assert_eq!(team.active_tournament, Some(id(900)));
    assert_eq!(team.prize, 10);
    assert_eq!(
        initing_tournament(&mut team, id(1), id(901), 20),
        Err(ErrorCode::AlreadyActiveTournamentError)
    );
    assert_eq!(team.prize, 10);
}

#[test]
fn leaving_tournament_rolls_everything_back() {
    let mut team = team_in_tournament(5, 1000);
    for k in 1..=3 {
        assert_eq!(voting_for_tournament(&mut team, id(k), VoteType::Yes), Ok(()));
    }
    assert_eq!(initing_percentage_proposal(&mut team, id(1), vec![20, 20, 20, 20, 20]), Ok(()));
    for k in 1..=3 {
        assert_eq!(handle_distribute_proposal(&mut team, id(k), VoteType::Yes), Ok(()));
    }
    assert_eq!(can_join(&mut team), Ok(()));
    assert!(team.can_join_tournament);
    assert_eq!(voting_for_tournament(&mut team, id(4), VoteType::No), Ok(()));
    assert_eq!(leaving_tournament(&mut team, id(1), VoteType::Yes), Ok(()));
    assert_eq!(leaving_tournament(&mut team, id(2), VoteType::No), Ok(()));
    assert_eq!(leaving_tournament(&mut team, id(3), VoteType::Yes), Ok(()));
    assert_eq!(team.active_tournament, Some(id(900)));
    assert_eq!(team.leave_vote.voters.len(), 3);
    assert_eq!(leaving_tournament(&mut team, id(4), VoteType::Yes), Ok(()));
    assert_eq!(team.active_tournament, None);
    assert!(team.leave_vote.voters.is_empty());
    assert!(team.join_vote.voters.is_empty());
    assert!(!team.voting_result);
    assert!(team.distribution_percentages.is_empty());
    assert!(team.distribution_vote.voters.is_empty());
    assert_eq!(team.distribution_vote.yes_count, 0);
    assert!(!team.distribution_voting_result);
    assert!(!team.can_join_tournament);
    assert_eq!(initing_tournament(&mut team, id(1), id(901), 5), Ok(()));
}

#[test]
fn proposing_percentages_errors() {
    let mut team = team_of(5);
    assert_eq!(
        initing_percentage_proposal(&mut team, id(1), vec![50, 50]),
        Err(ErrorCode::NoActiveTournamentError)
    );
    assert_eq!(initing_tournament(&mut team, id(1), id(900), 10), Ok(()));
    assert_eq!(
        initing_percentage_proposal(&mut team, id(2), vec![50, 50]),
        Err(ErrorCode::NotCaptainError)
    );
    assert_eq!(
        initing_percentage_proposal(&mut team, id(1), vec![50, 49]),
        Err(ErrorCode::InvalidPercentageError)
    );
    assert_eq!(
        initing_percentage_proposal(&mut team, id(1), vec![200, 200, 100, 12]),
        Err(ErrorCode::InvalidPercentageError)
    );
    assert!(team.distribution_percentages.is_empty());
    assert_eq!(initing_percentage_proposal(&mut team, id(1), vec![60, 40]), Ok(()));
    assert_eq!(initing_percentage_proposal(&mut team, id(1), vec![10, 90]), Ok(()));
    assert_eq!(team.distribution_percentages, vec![10, 90]);
}

#[test]
fn full_share_sums() {
    assert!(is_full_share(&vec![100]));
    assert!(is_full_share(&vec![20, 20, 20, 20, 20]));
    assert!(is_full_share(&vec![0, 100, 0]));
    assert!(!is_full_share(&vec![]));
    assert!(!is_full_share(&vec![99]));
    assert!(!is_full_share(&vec![255, 101]));
}

#[test]
fn scenario_distribution_then_claims() {
    let mut team = team_in_tournament(5, 1000);
    assert_eq!(initing_percentage_proposal(&mut team, id(1), vec![20, 20, 20, 20, 20]), Ok(()));
    for k in 1..=3 {
        assert_eq!(handle_distribute_proposal(&mut team, id(k), VoteType::Yes), Ok(()));
    }
    assert!(team.distribution_voting_result);
    assert_eq!(claiming_reward(&team, id(3), 200), Ok(200));
    assert_eq!(claiming_reward(&team, id(3), 150), Ok(150));
    assert_eq!(claiming_reward(&team, id(3), 201), Err(ErrorCode::ExceedsCapError));
}

#[test]
fn distribution_rejected_then_approved() {
    let mut team = team_in_tournament(5, 1000);
    assert_eq!(handle_distribute_proposal(&mut team, id(1), VoteType::Yes), Ok(()));
    assert_eq!(handle_distribute_proposal(&mut team, id(2), VoteType::No), Ok(()));
    assert!(!team.distribution_voting_result);
    assert_eq!(handle_distribute_proposal(&mut team, id(3), VoteType::No), Ok(()));
    assert!(!team.distribution_voting_result);
    assert_eq!(handle_distribute_proposal(&mut team, id(4), VoteType::Yes), Ok(()));
    assert!(!team.distribution_voting_result);
    assert_eq!(handle_distribute_proposal(&mut team, id(5), VoteType::Yes), Ok(()));
    assert!(team.distribution_voting_result);
    assert_eq!(team.distribution_vote.yes_count, 3);
    assert_eq!(
        handle_distribute_proposal(&mut team, id(5), VoteType::Yes),
        Err(ErrorCode::AlreadyVotedError)
    );
}

#[test]
fn decided_round_takes_no_more_ballots() {
    let mut team = team_in_tournament(5, 1000);
    for k in 1..=3 {
        assert_eq!(handle_distribute_proposal(&mut team, id(k), VoteType::Yes), Ok(()));
    }
    assert_eq!(
        handle_distribute_proposal(&mut team, id(4), VoteType::No),
        Err(ErrorCode::VotingClosedError)
    );
    assert_eq!(team.distribution_vote.voters.len(), 3);
    assert!(team.distribution_voting_result);
}

#[test]
fn full_round_takes_no_more_ballots() {
    let mut team = team_in_tournament(5, 1000);
    for k in 1..=5 {
        assert_eq!(voting_for_tournament(&mut team, id(k), VoteType::No), Ok(()));
    }
    assert_eq!(removing_member(&mut team, id(1), id(5)), Ok(()));
    assert_eq!(adding_member(&mut team, id(1), id(6)), Ok(()));
    assert_eq!(
        voting_for_tournament(&mut team, id(6), VoteType::Yes),
        Err(ErrorCode::VotingClosedError)
    );
}

#[test]
fn claiming_reward_errors() {
    let mut team = team_in_tournament(3, 999);
    assert_eq!(claiming_reward(&team, id(1), 0), Err(ErrorCode::InvalidRewardError));
    assert_eq!(initing_percentage_proposal(&mut team, id(1), vec![33, 67]), Ok(()));
    assert_eq!(claiming_reward(&team, id(9), 1), Err(ErrorCode::MemberNotInTeamError));
    assert_eq!(claiming_reward(&team, id(3), 0), Err(ErrorCode::InvalidRewardError));
    assert_eq!(claiming_reward(&team, id(1), 329), Ok(329));
    assert_eq!(claiming_reward(&team, id(1), 330), Err(ErrorCode::ExceedsCapError));
    assert_eq!(claiming_reward(&team, id(2), 669), Ok(669));
    assert_eq!(claiming_reward(&team, id(2), 670), Err(ErrorCode::ExceedsCapError));
}

#[test]
fn claim_cap_rounds_down_on_a_large_prize() {
    let mut team = team_in_tournament(2, u64::MAX);
    assert_eq!(initing_percentage_proposal(&mut team, id(1), vec![100, 0]), Ok(()));
    assert_eq!(claiming_reward(&team, id(1), u64::MAX), Ok(u64::MAX));
    assert_eq!(claiming_reward(&team, id(2), 0), Ok(0));
    assert_eq!(claiming_reward(&team, id(2), 1), Err(ErrorCode::ExceedsCapError));
    assert_eq!(initing_percentage_proposal(&mut team, id(1), vec![33, 67]), Ok(()));
    assert_eq!(claiming_reward(&team, id(1), 6087425544324152032), Ok(6087425544324152032));
    assert_eq!(
        claiming_reward(&team, id(1), 6087425544324152033),
        Err(ErrorCode::ExceedsCapError)
    );
}

#[test]
fn claim_right_after_proposal_each_seat() {
    let mut team = team_in_tournament(4, 777);
    assert_eq!(initing_percentage_proposal(&mut team, id(1), vec![10, 25, 65, 0]), Ok(()));
    let caps = [77u64, 194, 505, 0];
    for (k, cap) in caps.iter().enumerate() {
        let who = id(k as u128 + 1);
        assert_eq!(claiming_reward(&team, who, *cap), Ok(*cap));
        assert_eq!(claiming_reward(&team, who, *cap + 1), Err(ErrorCode::ExceedsCapError));
    }
}

#[test]
fn can_join_twice_gives_same_answer() {
    let mut team = team_in_tournament(5, 1000);
    for k in 1..=3 {
        assert_eq!(voting_for_tournament(&mut team, id(k), VoteType::Yes), Ok(()));
        assert_eq!(handle_distribute_proposal(&mut team, id(k), VoteType::Yes), Ok(()));
    }
    assert_eq!(can_join(&mut team), Ok(()));
    let first = team.clone();
    assert!(team.can_join_tournament);
    assert_eq!(can_join(&mut team), Ok(()));
    assert!(team.can_join_tournament);
    assert_eq!(team.members, first.members);
    assert_eq!(team.distribution_vote.yes_count, first.distribution_vote.yes_count);
}

#[test]
fn can_join_needs_both_votes() {
    let mut team = team_in_tournament(5, 1000);
    assert_eq!(can_join(&mut team), Ok(()));
    assert!(!team.can_join_tournament);
    for k in 1..=3 {
        assert_eq!(voting_for_tournament(&mut team, id(k), VoteType::Yes), Ok(()));
    }
    assert_eq!(can_join(&mut team), Ok(()));
    assert!(!team.can_join_tournament);
    assert_eq!(can_join(&mut team), Ok(()));
    assert!(!team.can_join_tournament);
}

#[test]
fn can_join_errors() {
    let mut team = team_of(4);
    assert_eq!(can_join(&mut team), Err(ErrorCode::NotEnoughPlayersError));
    assert_eq!(adding_member(&mut team, id(1), id(5)), Ok(()));
    assert_eq!(can_join(&mut team), Err(ErrorCode::NoActiveTournamentError));
}
