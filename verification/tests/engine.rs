use vote_me::errors::ContractError;
use vote_me::governance::activate_user;
use vote_me::governance::close_committee_proposal;
use vote_me::governance::committee_create_propose;
use vote_me::governance::committee_create_user_propose;
use vote_me::governance::committee_vote_on_propose;
use vote_me::governance::create_user_propose;
use vote_me::governance::get_committee_proposals;
use vote_me::governance::get_presidential_elections;
use vote_me::governance::get_salt;
use vote_me::governance::init;
use vote_me::governance::user_belongs_to_committee;
use vote_me::governance::GovernanceState;
use vote_me::identity::Identity;
use vote_me::governance::vote_on_propose;
use vote_me::types::CommitteeActions;
use vote_me::types::Config;
use vote_me::types::UserPropose;
use vote_me::types::UserProposeVote;
use vote_me::types::VoteState;

fn test_config() -> Config {
    Config {
        committee_threshold: 5000,
        max_committee_size: 100,
        committee_proposals_duration: 1000,
        user_proposals_duration: 1000,
        presidential_elections_threshold: 5000,
    }
}

fn entry(i: u8) -> Identity {
    Identity::new(vec![100, i])
}

fn member(i: u8) -> Identity {
    Identity::new(vec![1, i])
}

/// A state with `n` activated committee members: entry identities
/// `entry(0..n)`, activated identities `member(0..n)`.
fn committee_of(n: u8) -> GovernanceState {
    let mut state = GovernanceState::new();
    let entries: Vec<Identity> = (0..n).map(entry).collect();
    init(&mut state, test_config(), &entries);
    for i in 0..n {
        activate_user(&mut state, &entry(i), member(i), format!("seed-{}", i)).unwrap();
    }
    state
}

#[test]
fn threshold_exactness_accepts_at_half() {
    let mut state = committee_of(10);
    let action = CommitteeActions::RegisterNewEntryIdentities(vec![Identity::new(vec![9, 9])]);
    let id = committee_create_propose(&mut state, &member(0), action, 0).unwrap();
    for i in 0..5 {
        committee_vote_on_propose(&mut state, &member(i), id).unwrap();
    }
    // 5 of 10 yes-votes is exactly 5000 basis points.
    assert_eq!(close_committee_proposal(&mut state, id, 2000), Ok(None));
    let proposals = get_committee_proposals(&state);
    assert_eq!(proposals[0].state, VoteState::Accepted);
    assert_eq!(proposals[0].votes_yes, 5);
}

#[test]
fn threshold_exactness_rejects_below_half() {
    let mut state = committee_of(10);
    let action = CommitteeActions::RegisterNewEntryIdentities(vec![Identity::new(vec![9, 9])]);
    let id = committee_create_propose(&mut state, &member(0), action, 0).unwrap();
    for i in 0..4 {
        committee_vote_on_propose(&mut state, &member(i), id).unwrap();
    }
    // 4 of 10 yes-votes is 4000 basis points, below the 5000 threshold.
    assert_eq!(close_committee_proposal(&mut state, id, 2000), Ok(None));
    let proposals = get_committee_proposals(&state);
    assert_eq!(proposals[0].state, VoteState::Rejected);
    assert_eq!(state.users.len(), 10);
}

#[test]
fn idempotent_closing() {
    let mut state = committee_of(2);
    let action = CommitteeActions::RegisterNewEntryIdentities(vec![Identity::new(vec![9, 9])]);
    let id = committee_create_propose(&mut state, &member(0), action, 0).unwrap();
    committee_vote_on_propose(&mut state, &member(0), id).unwrap();
    committee_vote_on_propose(&mut state, &member(1), id).unwrap();
    assert_eq!(close_committee_proposal(&mut state, id, 2000), Ok(None));
    assert_eq!(state.users.len(), 3);
    // A second close is refused and does not register the identities again.
    assert_eq!(
        close_committee_proposal(&mut state, id, 3000),
        Err(ContractError::ProposeInProgress)
    );
    assert_eq!(state.users.len(), 3);
    assert_eq!(get_committee_proposals(&state)[0].state, VoteState::Accepted);
}

#[test]
fn close_before_window_is_refused() {
    let mut state = committee_of(2);
    let action = CommitteeActions::RegisterNewEntryIdentities(vec![Identity::new(vec![9, 9])]);
    let id = committee_create_propose(&mut state, &member(0), action, 0).unwrap();
    // The window is 1000 and closing is strict: at 1000 it is still open.
    assert_eq!(
        close_committee_proposal(&mut state, id, 1000),
        Err(ContractError::ProposeInProgress)
    );
    assert_eq!(get_committee_proposals(&state)[0].state, VoteState::Open);
}

#[test]
fn promote_member_side_effect() {
    let mut state = committee_of(2);
    // Register a new member, activate it, and confirm it is no
    // committee member yet.
    let new_entry = Identity::new(vec![9, 9]);
    let new_member = Identity::new(vec![2, 0]);
    let action = CommitteeActions::RegisterNewEntryIdentities(vec![new_entry.clone()]);
    let id = committee_create_propose(&mut state, &member(0), action, 0).unwrap();
    committee_vote_on_propose(&mut state, &member(0), id).unwrap();
    committee_vote_on_propose(&mut state, &member(1), id).unwrap();
    close_committee_proposal(&mut state, id, 2000).unwrap();
    activate_user(&mut state, &new_entry, new_member.clone(), "seed-new".to_string()).unwrap();
    assert_eq!(user_belongs_to_committee(&state, &new_member), Ok(false));

    let action = CommitteeActions::PromoteUser(new_member.clone());
    let id = committee_create_propose(&mut state, &member(0), action, 2000).unwrap();
    committee_vote_on_propose(&mut state, &member(0), id).unwrap();
    committee_vote_on_propose(&mut state, &member(1), id).unwrap();
    // Not promoted until the proposal is closed and accepted.
    assert_eq!(user_belongs_to_committee(&state, &new_member), Ok(false));
    assert_eq!(close_committee_proposal(&mut state, id, 4000), Ok(None));
    assert_eq!(user_belongs_to_committee(&state, &new_member), Ok(true));
}

#[test]
fn demote_member_side_effect() {
    let mut state = committee_of(3);
    let action = CommitteeActions::DemoteUser(member(2));
    let id = committee_create_propose(&mut state, &member(0), action, 0).unwrap();
    committee_vote_on_propose(&mut state, &member(0), id).unwrap();
    committee_vote_on_propose(&mut state, &member(1), id).unwrap();
    assert_eq!(close_committee_proposal(&mut state, id, 2000), Ok(None));
    assert_eq!(user_belongs_to_committee(&state, &member(2)), Ok(false));
}

#[test]
fn promote_unknown_user_rejects_proposal() {
    let mut state = committee_of(2);
    let action = CommitteeActions::PromoteUser(Identity::new(vec![7, 7]));
    let id = committee_create_propose(&mut state, &member(0), action, 0).unwrap();
    committee_vote_on_propose(&mut state, &member(0), id).unwrap();
    committee_vote_on_propose(&mut state, &member(1), id).unwrap();
    // Execution fails, so the accepted vote is downgraded to Rejected.
    assert_eq!(
        close_committee_proposal(&mut state, id, 2000),
        Err(ContractError::UserNotFound)
    );
    assert_eq!(get_committee_proposals(&state)[0].state, VoteState::Rejected);
}

#[test]
fn cancel_propose_fails_explicitly() {
    let mut state = committee_of(2);
    let action = CommitteeActions::CancelPropose(0);
    let id = committee_create_propose(&mut state, &member(0), action, 0).unwrap();
    committee_vote_on_propose(&mut state, &member(0), id).unwrap();
    committee_vote_on_propose(&mut state, &member(1), id).unwrap();
    assert_eq!(
        close_committee_proposal(&mut state, id, 2000),
        Err(ContractError::InvalidAction)
    );
    assert_eq!(get_committee_proposals(&state)[0].state, VoteState::Rejected);
}

#[test]
fn accepted_election_action_opens_election() {
    let mut state = committee_of(2);
    let ballot = UserPropose::PresidentialElections(vec!["left".to_string(), "right".to_string()]);
    let action = CommitteeActions::CreateUserPropose(ballot);
    let id = committee_create_user_propose(&mut state, &member(0), action, 0).unwrap();
    committee_vote_on_propose(&mut state, &member(0), id).unwrap();
    committee_vote_on_propose(&mut state, &member(1), id).unwrap();
    assert_eq!(close_committee_proposal(&mut state, id, 2000), Ok(Some(0)));
    let elections = get_presidential_elections(&state);
    assert_eq!(elections.len(), 1);
    assert_eq!(elections[0].state, VoteState::Open);
    assert_eq!(
        elections[0].proposal_content,
        vec!["left".to_string(), "right".to_string()]
    );
    assert_eq!(elections[0].votes_yes, vec![0, 0]);
    // The election is credited to the action's creator.
    assert_eq!(elections[0].creator, member(0));
}

#[test]
fn double_vote_is_refused() {
    let mut state = committee_of(3);
    let action = CommitteeActions::RegisterNewEntryIdentities(vec![Identity::new(vec![9, 9])]);
    let id = committee_create_propose(&mut state, &member(0), action, 0).unwrap();
    committee_vote_on_propose(&mut state, &member(0), id).unwrap();
    assert_eq!(
        committee_vote_on_propose(&mut state, &member(0), id),
        Err(ContractError::UserAlreadyVoted)
    );
    assert_eq!(get_committee_proposals(&state)[0].votes_yes, 1);
}

#[test]
fn vote_after_close_is_refused() {
    let mut state = committee_of(2);
    let action = CommitteeActions::RegisterNewEntryIdentities(vec![Identity::new(vec![9, 9])]);
    let id = committee_create_propose(&mut state, &member(0), action, 0).unwrap();
    close_committee_proposal(&mut state, id, 2000).unwrap();
    assert_eq!(
        committee_vote_on_propose(&mut state, &member(0), id),
        Err(ContractError::VoteNotOpen)
    );
}

#[test]
fn vote_on_missing_proposal() {
    let mut state = committee_of(2);
    assert_eq!(
        committee_vote_on_propose(&mut state, &member(0), 5),
        Err(ContractError::ProposeNotFound)
    );
}

#[test]
fn guard_refuses_anonymous_unknown_and_plain_users() {
    let mut state = committee_of(2);
    let anonymous = Identity::new(vec![4]);
    let action = CommitteeActions::CancelPropose(0);
    assert_eq!(
        committee_create_propose(&mut state, &anonymous, action.clone(), 0),
        Err(ContractError::AnonymousCaller)
    );
    assert_eq!(
        committee_create_propose(&mut state, &Identity::new(vec![8, 8]), action.clone(), 0),
        Err(ContractError::UserNotFound)
    );
    // A registered, activated, but non-committee user is refused.
    let new_entry = Identity::new(vec![9, 9]);
    let new_member = Identity::new(vec![2, 0]);
    let register = CommitteeActions::RegisterNewEntryIdentities(vec![new_entry.clone()]);
    let id = committee_create_propose(&mut state, &member(0), register, 0).unwrap();
    committee_vote_on_propose(&mut state, &member(0), id).unwrap();
    committee_vote_on_propose(&mut state, &member(1), id).unwrap();
    close_committee_proposal(&mut state, id, 2000).unwrap();
    activate_user(&mut state, &new_entry, new_member.clone(), "s".to_string()).unwrap();
    assert_eq!(
        committee_create_propose(&mut state, &new_member, action, 2000),
        Err(ContractError::NotInCommittee)
    );
}

#[test]
fn invalid_actions_are_refused_at_creation() {
    let mut state = committee_of(1);
    assert_eq!(
        committee_create_propose(
            &mut state,
            &member(0),
            CommitteeActions::RegisterNewEntryIdentities(vec![]),
            0
        ),
        Err(ContractError::InvalidAction)
    );
    assert_eq!(
        committee_create_propose(
            &mut state,
            &member(0),
            CommitteeActions::PromoteUser(Identity::new(vec![4])),
            0
        ),
        Err(ContractError::InvalidAction)
    );
    assert_eq!(
        committee_create_propose(
            &mut state,
            &member(0),
            CommitteeActions::CreateUserPropose(UserPropose::PresidentialElections(vec![])),
            0
        ),
        Err(ContractError::InvalidAction)
    );
    assert_eq!(get_committee_proposals(&state).len(), 0);
}

#[test]
fn create_user_propose_without_config() {
    let mut state = GovernanceState::new();
    let ballot = UserPropose::PresidentialElections(vec!["a".to_string()]);
    assert_eq!(
        create_user_propose(&mut state, &ballot, &Identity::new(vec![1, 1]), 0),
        Err(ContractError::ConfigNotSet)
    );
}

#[test]
fn vote_on_election_through_entry_point() {
    let mut state = committee_of(2);
    let ballot = UserPropose::PresidentialElections(vec!["x".to_string(), "y".to_string()]);
    let id = create_user_propose(&mut state, &ballot, &member(0), 0).unwrap();
    let choice = UserProposeVote::PresidentialElections(0);
    vote_on_propose(&mut state, &member(0), &choice, id).unwrap();
    assert_eq!(
        vote_on_propose(&mut state, &member(0), &choice, id),
        Err(ContractError::UserAlreadyVoted)
    );
    assert_eq!(
        vote_on_propose(
            &mut state,
            &member(1),
            &UserProposeVote::Referendum(vec!["q".to_string()]),
            id
        ),
        Err(ContractError::InvalidAction)
    );
    assert_eq!(
        vote_on_propose(&mut state, &Identity::new(vec![4]), &choice, id),
        Err(ContractError::AnonymousCaller)
    );
    assert_eq!(get_presidential_elections(&state)[0].votes_yes, vec![1, 0]);
}

#[test]
fn create_user_propose_opens_an_election() {
    let mut state = committee_of(1);
    let ballot = UserPropose::PresidentialElections(vec!["x".to_string()]);
    let id = create_user_propose(&mut state, &ballot, &member(0), 5).unwrap();
    assert_eq!(id, 0);
    let elections = get_presidential_elections(&state);
    assert_eq!(elections[0].created_at, 5);
    assert_eq!(elections[0].state, VoteState::Open);
    assert_eq!(elections[0].proposal_content, vec!["x".to_string()]);
    assert_eq!(
        create_user_propose(&mut state, &UserPropose::Referendum(vec!["q".to_string()]), &member(0), 5),
        Err(ContractError::InvalidAction)
    );
}

#[test]
fn activate_unknown_entry_identity() {
    let mut state = committee_of(1);
    assert_eq!(
        activate_user(
            &mut state,
            &Identity::new(vec![8, 8]),
            Identity::new(vec![2, 1]),
            "s".to_string()
        ),
        Err(ContractError::UserNotFound)
    );
}

#[test]
fn salt_is_returned_for_activated_entry_identity() {
    let state = committee_of(2);
    assert_eq!(get_salt(&state, &entry(1)), Ok("seed-1".to_string()));
    assert_eq!(
        get_salt(&state, &Identity::new(vec![8, 8])),
        Err(ContractError::UserNotFound)
    );
}
