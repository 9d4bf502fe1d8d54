use vstd::prelude::*;

verus! {

/// The error taxonomy of the governance engine. Every public operation
/// reports failure through one of these variants; none of the verified
/// entry points panics.
#[derive(Clone, Copy, Debug, PartialEq, Eq, Structural)]
pub enum ContractError {
    AnonymousCaller,
    UserNotFound,
    NotInCommittee,
    ConfigNotSet,
    ProposeNotFound,
    VoteNotOpen,
    UserAlreadyVoted,
    InvalidAction,
    ProposeInProgress,
    AlreadyInitialized,
    ThresholdToLow,
    CandidatesNotFound,
    InvalidPercentage,
}

impl ContractError {
    /// A human-readable description of the error.
    pub fn message(&self) -> String {
        match self {
            ContractError::AnonymousCaller => {
                "Anonymous principal not allowed to make calls.".to_owned()
            },
            ContractError::UserNotFound => "User not found.".to_owned(),
            ContractError::NotInCommittee => "User do not belongs to committee.".to_owned(),
            ContractError::ConfigNotSet => "Config is not set.".to_owned(),
            ContractError::ProposeNotFound => "Propose not found.".to_owned(),
            ContractError::VoteNotOpen => "Vote is not open.".to_owned(),
            ContractError::UserAlreadyVoted => "User already voted.".to_owned(),
            ContractError::InvalidAction => "Invalid action.".to_owned(),
            ContractError::ProposeInProgress => "Propose is still in progress.".to_owned(),
            ContractError::AlreadyInitialized => {
                "The canister is already initialized.".to_owned()
            },
            ContractError::ThresholdToLow => {
                "Threshold is lower then min threshold length (committee_size / 2) + 1.".to_owned()
            },
            ContractError::CandidatesNotFound => "Candidates do not found.".to_owned(),
            ContractError::InvalidPercentage => "Invalid percentage.".to_owned(),
        }
    }
}

} // verus!
