use vote_me::elections::PresidentialElectionsProposals;
use vote_me::errors::ContractError;
use vote_me::identity::Identity;
use vote_me::types::Config;
use vote_me::types::VoteState;

fn test_config() -> Config {
    Config {
        committee_threshold: 5000,
        max_committee_size: 100,
        committee_proposals_duration: 1000,
        user_proposals_duration: 1000,
        presidential_elections_threshold: 5000,
    }
}

fn voter(i: u8) -> Identity {
    Identity::new(vec![3, i])
}

fn labels(names: &[&str]) -> Vec<String> {
    names.iter().map(|n| n.to_string()).collect()
}

/// Casts `count` fresh votes for the candidate at `index`, starting
/// with the voter numbered `from`.
fn cast(store: &mut PresidentialElectionsProposals, id: usize, index: usize, from: u8, count: u8) {
    for i in 0..count {
        store.vote(voter(from + i), id, &index).unwrap();
    }
}

#[test]
fn uncontested_election_is_accepted() {
    let mut store = PresidentialElectionsProposals::default();
    let id = store.create_proposal(&test_config(), voter(200), &labels(&["only"]), 0);
    // No votes at all: a one-candidate election is accepted regardless.
    assert_eq!(store.close_proposal(&test_config(), id, 5, 2000), Ok(None));
    assert_eq!(store.get()[0].state, VoteState::Accepted);
}

#[test]
fn two_candidate_tie_is_unresolved() {
    let mut store = PresidentialElectionsProposals::default();
    let id = store.create_proposal(&test_config(), voter(200), &labels(&["a", "b"]), 0);
    cast(&mut store, id, 0, 0, 3);
    cast(&mut store, id, 1, 3, 3);
    assert_eq!(store.close_proposal(&test_config(), id, 10, 2000), Ok(None));
    assert_eq!(store.get()[0].state, VoteState::Unresolved);
}

#[test]
fn two_candidate_majority_is_accepted() {
    let mut store = PresidentialElectionsProposals::default();
    let id = store.create_proposal(&test_config(), voter(200), &labels(&["a", "b"]), 0);
    cast(&mut store, id, 0, 0, 2);
    cast(&mut store, id, 1, 2, 1);
    assert_eq!(store.close_proposal(&test_config(), id, 10, 2000), Ok(None));
    assert_eq!(store.get()[0].state, VoteState::Accepted);
}

#[test]
fn runoff_takes_two_leading_candidates() {
    let mut store = PresidentialElectionsProposals::default();
    let id = store.create_proposal(&test_config(), voter(200), &labels(&["a", "b", "c", "d"]), 0);
    cast(&mut store, id, 0, 0, 10);
    cast(&mut store, id, 1, 10, 7);
    cast(&mut store, id, 2, 17, 7);
    cast(&mut store, id, 3, 24, 2);
    // The leader holds 10 of 30 eligible votes: 3333 basis points,
    // below the 5000 threshold, so a runoff is opened.
    assert_eq!(store.close_proposal(&test_config(), id, 30, 2000), Ok(Some(1)));
    let proposals = store.get();
    assert_eq!(proposals[0].state, VoteState::Unresolved);
    assert_eq!(proposals.len(), 2);
    // Among the tied runners-up, the earlier candidate wins the spot.
    assert_eq!(proposals[1].proposal_content, labels(&["a", "b"]));
    assert_eq!(proposals[1].votes_yes, vec![0, 0]);
    assert_eq!(proposals[1].state, VoteState::Open);
    assert_eq!(proposals[1].voters.len(), 0);
    assert_eq!(proposals[1].id, 1);
    assert_eq!(proposals[1].created_at, 2000);
}

#[test]
fn clear_leader_is_accepted_without_runoff() {
    let mut store = PresidentialElectionsProposals::default();
    let id = store.create_proposal(&test_config(), voter(200), &labels(&["a", "b", "c"]), 0);
    cast(&mut store, id, 1, 0, 6);
    cast(&mut store, id, 2, 6, 2);
    // The leader holds 6 of 10 eligible votes: 6000 basis points.
    assert_eq!(store.close_proposal(&test_config(), id, 10, 2000), Ok(None));
    let proposals = store.get();
    assert_eq!(proposals.len(), 1);
    assert_eq!(proposals[0].state, VoteState::Accepted);
}

#[test]
fn election_close_is_idempotent() {
    let mut store = PresidentialElectionsProposals::default();
    let id = store.create_proposal(&test_config(), voter(200), &labels(&["a", "b", "c", "d"]), 0);
    cast(&mut store, id, 0, 0, 1);
    assert_eq!(store.close_proposal(&test_config(), id, 30, 2000), Ok(Some(1)));
    // A second close must not spawn a second runoff.
    assert_eq!(
        store.close_proposal(&test_config(), id, 30, 3000),
        Err(ContractError::ProposeInProgress)
    );
    assert_eq!(store.get().len(), 2);
}

#[test]
fn election_close_respects_window() {
    let mut store = PresidentialElectionsProposals::default();
    let id = store.create_proposal(&test_config(), voter(200), &labels(&["only"]), 500);
    // The window of 1000 ends strictly after 1500.
    assert_eq!(
        store.close_proposal(&test_config(), id, 5, 1500),
        Err(ContractError::ProposeInProgress)
    );
    assert_eq!(store.close_proposal(&test_config(), id, 5, 1501), Ok(None));
}

#[test]
fn election_vote_errors() {
    let mut store = PresidentialElectionsProposals::default();
    let id = store.create_proposal(&test_config(), voter(200), &labels(&["a", "b"]), 0);
    assert_eq!(
        store.vote(voter(0), 9, &0),
        Err(ContractError::ProposeNotFound)
    );
    assert_eq!(
        store.vote(voter(0), id, &2),
        Err(ContractError::CandidatesNotFound)
    );
    store.vote(voter(0), id, &0).unwrap();
    assert_eq!(
        store.vote(voter(0), id, &1),
        Err(ContractError::UserAlreadyVoted)
    );
    store.close_proposal(&test_config(), id, 10, 2000).unwrap();
    assert_eq!(
        store.vote(voter(1), id, &0),
        Err(ContractError::VoteNotOpen)
    );
    assert_eq!(store.get()[0].votes_yes, vec![1, 0]);
}

#[test]
fn empty_candidate_list_is_unresolved() {
    let mut store = PresidentialElectionsProposals::default();
    let id = store.create_proposal(&test_config(), voter(200), &Vec::new(), 0);
    assert_eq!(store.close_proposal(&test_config(), id, 5, 2000), Ok(None));
    assert_eq!(store.get()[0].state, VoteState::Unresolved);
}
