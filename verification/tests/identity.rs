use vote_me::errors::ContractError;
use vote_me::identity::Identity;
use vote_me::types::CommitteeActions;
use vote_me::types::UserPropose;

#[test]
fn anonymous_identity_matches_candid() {
    // The engine's anonymous check must agree with candid's notion of
    // the anonymous principal.
    let anonymous = Identity::new(candid::Principal::anonymous().as_slice().to_vec());
    assert!(anonymous.is_anonymous());
    assert_eq!(anonymous, Identity::new(vec![4]));
    assert!(!Identity::new(vec![1, 2]).is_anonymous());
    assert!(!Identity::new(vec![]).is_anonymous());
    assert!(!Identity::new(vec![4, 4]).is_anonymous());
}

#[test]
fn identity_equality_is_byte_equality() {
    assert_eq!(Identity::new(vec![1, 2, 3]), Identity::new(vec![1, 2, 3]));
    assert!(Identity::new(vec![1, 2, 3]) != Identity::new(vec![1, 2]));
    assert!(Identity::new(vec![1, 2, 3]) != Identity::new(vec![1, 2, 4]));
}

#[test]
fn validate_refuses_anonymous_targets() {
    let anonymous = Identity::new(vec![4]);
    assert!(matches!(
        CommitteeActions::PromoteUser(anonymous.clone()).validate(),
        Err(ContractError::InvalidAction)
    ));
    assert!(matches!(
        CommitteeActions::DemoteUser(anonymous).validate(),
        Err(ContractError::InvalidAction)
    ));
    assert!(CommitteeActions::PromoteUser(Identity::new(vec![1, 2])).validate().is_ok());
    assert!(CommitteeActions::CancelPropose(3).validate().is_ok());
}

#[test]
fn ballot_validity_requires_an_entry() {
    assert!(UserPropose::PresidentialElections(vec!["a".to_string()]).is_valid());
    assert!(!UserPropose::PresidentialElections(vec![]).is_valid());
    assert!(!UserPropose::Referendum(vec![]).is_valid());
    assert!(UserPropose::Referendum(vec!["q".to_string()]).is_valid());
}

#[test]
fn error_messages() {
    assert_eq!(
        ContractError::AnonymousCaller.message(),
        "Anonymous principal not allowed to make calls."
    );
    assert_eq!(ContractError::ProposeNotFound.message(), "Propose not found.");
    assert_eq!(ContractError::VoteNotOpen.message(), "Vote is not open.");
    assert_eq!(ContractError::UserAlreadyVoted.message(), "User already voted.");
    assert_eq!(
        ContractError::ProposeInProgress.message(),
        "Propose is still in progress."
    );
    assert_eq!(ContractError::ConfigNotSet.message(), "Config is not set.");
    assert_eq!(ContractError::UserNotFound.message(), "User not found.");
    assert_eq!(ContractError::InvalidAction.message(), "Invalid action.");
}
