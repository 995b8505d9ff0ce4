//! Governance of a small team: membership, threshold voting on joining and
//! leaving a tournament, and a voted split of the tournament prize.
//!
//! Every operation takes the team record by `&mut`, checks its preconditions,
//! and either applies its whole effect or returns an [`ErrorCode`] with the
//! record left untouched. Each operation's contract is stated against a
//! transition of the abstract [`TeamView`].
pub mod errors;
pub mod identity;
pub mod laws;
pub mod membership;
pub mod reward;
pub mod team;
pub mod tournament;
pub mod vote;

pub use errors::ErrorCode;
pub use identity::Identity;
pub use membership::{
    adding_member, creating_team, leaving_team, removing_member, removing_member_under,
    transfering_captain, RemovalPolicy,
};
pub use reward::{
    claiming_reward, handle_distribute_proposal, initing_percentage_proposal, is_full_share,
};
pub use team::{TeamAccount, TeamView};
pub use tournament::{can_join, initing_tournament, leaving_tournament, voting_for_tournament};
pub use vote::{RoundView, VoteRound, VoteType};
