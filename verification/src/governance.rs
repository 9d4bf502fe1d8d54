use vstd::prelude::*;

use crate::committee::committee_appended;
use crate::committee::committee_close_outcome;
use crate::committee::committee_vote_outcome;
use crate::committee::CommitteeProposals;
use crate::committee::CommitteeProposeCandidType;
use crate::elections::election_appended;
use crate::elections::election_close_outcome;
use crate::elections::election_vote_outcome;
use crate::elections::PresidentialElectionsProposals;
use crate::elections::PresidentialElectionsProposeCandidType;
use crate::errors::ContractError;
use crate::identities::count_committee;
use crate::identities::is_first_entry_match;
use crate::identities::is_first_identity_match;
use crate::identities::some_user_has_entry_identity;
use crate::identities::some_user_has_identity;
use crate::identities::Users;
use crate::identity::validate_caller;
use crate::identity::Identity;
use crate::types::CommitteeActions;
use crate::types::Config;
use crate::types::Role;
use crate::types::User;
use crate::types::UserPropose;
use crate::types::UserProposeVote;

verus! {

/// The whole engine's state: the configuration fixed at
/// initialization, the membership store, and the two proposal stores.
/// The host environment owns one value of this type and routes every
/// entry point through it.
pub struct GovernanceState {
    pub config: Option<Config>,
    pub users: Users,
    pub committee_proposals: CommitteeProposals,
    pub presidential_elections: PresidentialElectionsProposals,
}

impl GovernanceState {
    pub open spec fn wf(self) -> bool {
        &&& self.committee_proposals.wf()
        &&& self.presidential_elections.wf()
    }

    /// The empty, uninitialized state.
    pub fn new() -> (r: Self)
        ensures
            r.wf(),
            r.config is None,
            r.users.0@.len() == 0,
            r.committee_proposals.0@.len() == 0,
            r.presidential_elections.0@.len() == 0,
    {
        GovernanceState {
            config: None,
            users: Users::default(),
            committee_proposals: CommitteeProposals::default(),
            presidential_elections: PresidentialElectionsProposals::default(),
        }
    }
}

/// Initializes the system: stores the configuration and registers
/// every entry identity as a committee member. Re-initialization and
/// out-of-range thresholds are excluded by precondition; the host
/// treats either as a fatal deployment error.
pub fn init(state: &mut GovernanceState, config: Config, entry_identities: &Vec<Identity>)
    requires
        old(state).wf(),
        old(state).users.0@.len() == 0,
        config.committee_threshold <= 10000,
        config.presidential_elections_threshold <= 10000,
    ensures
        final(state).wf(),
        final(state).config == Some(config),
        final(state).users.0@.len() == entry_identities@.len(),
        forall|k: int|
            0 <= k < entry_identities@.len() ==> (#[trigger] final(state).users.0@[k]).entry_identity@
                == entry_identities@[k]@ && final(state).users.0@[k].role == Role::Committee
                && final(state).users.0@[k].identity is None
                && final(state).users.0@[k].identity_seed is None,
        final(state).committee_proposals == old(state).committee_proposals,
        final(state).presidential_elections == old(state).presidential_elections,
{
    state.config = Some(config);
    let n = entry_identities.len();
    let mut i: usize = 0;
    while i < n
        invariant
            n == entry_identities@.len(),
            0 <= i <= n,
            state.users.0@.len() == i,
            forall|k: int|
                0 <= k < i ==> (#[trigger] state.users.0@[k]).entry_identity@
                    == entry_identities@[k]@ && state.users.0@[k].role == Role::Committee
                    && state.users.0@[k].identity is None && state.users.0@[k].identity_seed
                    is None,
            state.config == Some(config),
            state.committee_proposals == old(state).committee_proposals,
            state.presidential_elections == old(state).presidential_elections,
            state.wf(),
        decreases n - i,
    {
        state.users.push(User::new_with_role(&entry_identities[i], Role::Committee));
        i += 1;
    }
}

/// The guard on committee entry points: the caller must not be
/// anonymous, must be a known activated user, and must hold the
/// `Committee` role.
pub fn committee_guard(state: &GovernanceState, caller: &Identity) -> (r: Result<
    (),
    ContractError,
>)
    ensures
        caller.is_anonymous_spec() ==> r == Err::<(), ContractError>(
            ContractError::AnonymousCaller,
        ),
        !caller.is_anonymous_spec() && !some_user_has_identity(state.users.0@, caller@) ==> r
            == Err::<(), ContractError>(ContractError::UserNotFound),
        !caller.is_anonymous_spec() && some_user_has_identity(state.users.0@, caller@)
            ==> exists|j: int|
            #[trigger] is_first_identity_match(state.users.0@, caller@, j) && r == (
            if state.users.0@[j].role == Role::Committee {
                Ok::<(), ContractError>(())
            } else {
                Err::<(), ContractError>(ContractError::NotInCommittee)
            }),
        r is Ok ==> !caller.is_anonymous_spec() && some_user_has_identity(state.users.0@, caller@),
{
    validate_caller(caller)?;

    if !(state.users.is_in_committee(caller)?) {
        return Err(ContractError::NotInCommittee);
    }

    Ok(())
}

/// Whether the guard admits the caller: a known, non-anonymous user
/// whose first identity match holds the `Committee` role.
pub open spec fn committee_guard_ok(state: GovernanceState, caller: Identity) -> bool {
    &&& !caller.is_anonymous_spec()
    &&& exists|j: int|
        #[trigger] is_first_identity_match(state.users.0@, caller@, j) && state.users.0@[j].role
            == Role::Committee
}

/// Opens an action proposal on behalf of a committee member: the
/// caller passes the guard, the action its validation, and the
/// proposal is appended with the configured window, its id returned.
pub fn committee_create_propose(
    state: &mut GovernanceState,
    caller: &Identity,
    propose: CommitteeActions,
    now: u64,
) -> (r: Result<usize, ContractError>)
    requires
        old(state).wf(),
    ensures
        final(state).wf(),
        r is Err ==> *final(state) == *old(state),
        caller.is_anonymous_spec() ==> r == Err::<usize, ContractError>(
            ContractError::AnonymousCaller,
        ),
        !caller.is_anonymous_spec() && !some_user_has_identity(old(state).users.0@, caller@) ==> r
            == Err::<usize, ContractError>(ContractError::UserNotFound),
        !caller.is_anonymous_spec() && some_user_has_identity(old(state).users.0@, caller@)
            && !committee_guard_ok(*old(state), *caller) ==> r == Err::<usize, ContractError>(
            ContractError::NotInCommittee,
        ),
        committee_guard_ok(*old(state), *caller) && !propose.is_valid_spec() ==> r == Err::<
            usize,
            ContractError,
        >(ContractError::InvalidAction),
        committee_guard_ok(*old(state), *caller) && propose.is_valid_spec() && old(
            state,
        ).config is None ==> r == Err::<usize, ContractError>(ContractError::ConfigNotSet),
        committee_guard_ok(*old(state), *caller) && propose.is_valid_spec() && old(
            state,
        ).config is Some ==> ({
            &&& r == Ok::<usize, ContractError>(old(state).committee_proposals.0.len() as usize)
            &&& committee_appended(
                old(state).committee_proposals.0@,
                final(state).committee_proposals.0@,
                caller@,
                propose,
                old(state).config->0.committee_proposals_duration,
                now,
            )
            &&& final(state).users == old(state).users
            &&& final(state).presidential_elections == old(state).presidential_elections
            &&& final(state).config == old(state).config
        }),
{
    committee_guard(state, caller)?;
    let propose = propose.validate()?;

    let config = match &state.config {
        Some(config) => *config,
        None => {
            return Err(ContractError::ConfigNotSet);
        },
    };

    Ok(state.committee_proposals.create_proposal(&config, caller.duplicate(), propose, now))
}

/// Opens a user-facing proposal on behalf of a committee member; the
/// engine validates and stores it exactly as `committee_create_propose`
/// does.
pub fn committee_create_user_propose(
    state: &mut GovernanceState,
    caller: &Identity,
    propose: CommitteeActions,
    now: u64,
) -> (r: Result<usize, ContractError>)
    requires
        old(state).wf(),
    ensures
        final(state).wf(),
        r is Err ==> *final(state) == *old(state),
        caller.is_anonymous_spec() ==> r == Err::<usize, ContractError>(
            ContractError::AnonymousCaller,
        ),
        !caller.is_anonymous_spec() && !some_user_has_identity(old(state).users.0@, caller@) ==> r
            == Err::<usize, ContractError>(ContractError::UserNotFound),
        !caller.is_anonymous_spec() && some_user_has_identity(old(state).users.0@, caller@)
            && !committee_guard_ok(*old(state), *caller) ==> r == Err::<usize, ContractError>(
            ContractError::NotInCommittee,
        ),
        committee_guard_ok(*old(state), *caller) && !propose.is_valid_spec() ==> r == Err::<
            usize,
            ContractError,
        >(ContractError::InvalidAction),
        committee_guard_ok(*old(state), *caller) && propose.is_valid_spec() && old(
            state,
        ).config is None ==> r == Err::<usize, ContractError>(ContractError::ConfigNotSet),
        committee_guard_ok(*old(state), *caller) && propose.is_valid_spec() && old(
            state,
        ).config is Some ==> ({
            &&& r == Ok::<usize, ContractError>(old(state).committee_proposals.0.len() as usize)
            &&& committee_appended(
                old(state).committee_proposals.0@,
                final(state).committee_proposals.0@,
                caller@,
                propose,
                old(state).config->0.committee_proposals_duration,
                now,
            )
            &&& final(state).users == old(state).users
            &&& final(state).presidential_elections == old(state).presidential_elections
            &&& final(state).config == old(state).config
        }),
{
    committee_create_propose(state, caller, propose, now)
}

/// Records a committee member's yes-vote on an action proposal.
pub fn committee_vote_on_propose(
    state: &mut GovernanceState,
    caller: &Identity,
    propose_id: usize,
) -> (r: Result<(), ContractError>)
    requires
        old(state).wf(),
    ensures
        final(state).wf(),
        r is Err ==> *final(state) == *old(state),
        caller.is_anonymous_spec() ==> r == Err::<(), ContractError>(
            ContractError::AnonymousCaller,
        ),
        !caller.is_anonymous_spec() && !some_user_has_identity(old(state).users.0@, caller@) ==> r
            == Err::<(), ContractError>(ContractError::UserNotFound),
        !caller.is_anonymous_spec() && some_user_has_identity(old(state).users.0@, caller@)
            && !committee_guard_ok(*old(state), *caller) ==> r == Err::<(), ContractError>(
            ContractError::NotInCommittee,
        ),
        committee_guard_ok(*old(state), *caller) ==> committee_vote_outcome(
            old(state).committee_proposals.0@,
            final(state).committee_proposals.0@,
            propose_id as int,
            caller@,
            r,
        ) && final(state).users == old(state).users && final(state).presidential_elections == old(
            state,
        ).presidential_elections && final(state).config == old(state).config,
{
    committee_guard(state, caller)?;
    state.committee_proposals.vote(caller.duplicate(), propose_id)
}

/// The read-only projection of every action proposal.
pub fn get_committee_proposals(state: &GovernanceState) -> (r: Vec<CommitteeProposeCandidType>)
    ensures
        r@.len() == state.committee_proposals.0@.len(),
        forall|i: int|
            0 <= i < r@.len() ==> (#[trigger] r@[i]).matches(state.committee_proposals.0@[i]),
{
    state.committee_proposals.get()
}

/// Whether the caller is an activated committee member.
pub fn user_belongs_to_committee(state: &GovernanceState, caller: &Identity) -> (r: Result<
    bool,
    ContractError,
>)
    ensures
        caller.is_anonymous_spec() ==> r == Err::<bool, ContractError>(
            ContractError::AnonymousCaller,
        ),
        !caller.is_anonymous_spec() ==> {
            &&& r is Ok <==> some_user_has_identity(state.users.0@, caller@)
            &&& r is Ok ==> exists|j: int|
                #[trigger] is_first_identity_match(state.users.0@, caller@, j) && r->Ok_0 == (
                state.users.0@[j].role == Role::Committee)
            &&& r is Err ==> r == Err::<bool, ContractError>(ContractError::UserNotFound)
        },
{
    validate_caller(caller)?;
    state.users.is_in_committee(caller)
}

/// The seed recorded for the caller's entry identity.
pub fn get_salt(state: &GovernanceState, caller: &Identity) -> (r: Result<String, ContractError>)
    ensures
        caller.is_anonymous_spec() ==> r == Err::<String, ContractError>(
            ContractError::AnonymousCaller,
        ),
        !caller.is_anonymous_spec() ==> {
            &&& r is Ok <==> exists|j: int|
                #[trigger] is_first_entry_match(state.users.0@, caller@, j)
                    && state.users.0@[j].identity_seed is Some
            &&& r is Ok ==> exists|j: int|
                #[trigger] is_first_entry_match(state.users.0@, caller@, j) && r->Ok_0@
                    == state.users.0@[j].identity_seed->0@
            &&& r is Err ==> r == Err::<String, ContractError>(ContractError::UserNotFound)
        },
{
    validate_caller(caller)?;
    state.users.get_seed_by_entry_identity(caller)
}

/// Records the caller's activation: identity and seed, on the first
/// user registered under the caller's entry identity.
pub fn activate_user(
    state: &mut GovernanceState,
    caller: &Identity,
    identity: Identity,
    identity_seed: String,
) -> (r: Result<(), ContractError>)
    requires
        old(state).wf(),
    ensures
        final(state).wf(),
        r is Err ==> *final(state) == *old(state),
        caller.is_anonymous_spec() ==> r == Err::<(), ContractError>(
            ContractError::AnonymousCaller,
        ),
        !caller.is_anonymous_spec() ==> {
            &&& r is Ok <==> some_user_has_entry_identity(old(state).users.0@, caller@)
            &&& r is Ok ==> exists|j: int|
                #[trigger] is_first_entry_match(old(state).users.0@, caller@, j)
                    && final(state).users.0@ == old(state).users.0@.update(
                    j,
                    old(state).users.0@[j].activate_spec(identity, identity_seed),
                )
            &&& r is Err ==> r == Err::<(), ContractError>(ContractError::UserNotFound)
        },
        final(state).committee_proposals == old(state).committee_proposals,
        final(state).presidential_elections == old(state).presidential_elections,
        final(state).config == old(state).config,
{
    validate_caller(caller)?;
    state.users.activate_user(caller, identity, identity_seed)
}

/// The read-only projection of every election proposal.
pub fn get_presidential_elections(state: &GovernanceState) -> (r: Vec<
    PresidentialElectionsProposeCandidType,
>)
    ensures
        r@.len() == state.presidential_elections.0@.len(),
        forall|i: int|
            0 <= i < r@.len() ==> (#[trigger] r@[i]).matches(state.presidential_elections.0@[i]),
{
    state.presidential_elections.get()
}

/// Records a user's vote on a user-facing proposal. Only presidential
/// election ballots are in service; a vote on any other ballot kind is
/// rejected as invalid.
pub fn vote_on_propose(
    state: &mut GovernanceState,
    caller: &Identity,
    propose: &UserProposeVote,
    propose_id: usize,
) -> (r: Result<(), ContractError>)
    requires
        old(state).wf(),
    ensures
        final(state).wf(),
        r is Err ==> *final(state) == *old(state),
        caller.is_anonymous_spec() ==> r == Err::<(), ContractError>(
            ContractError::AnonymousCaller,
        ),
        !caller.is_anonymous_spec() && !(propose is PresidentialElections) ==> r == Err::<
            (),
            ContractError,
        >(ContractError::InvalidAction),
        !caller.is_anonymous_spec() && propose is PresidentialElections ==> election_vote_outcome(
            old(state).presidential_elections.0@,
            final(state).presidential_elections.0@,
            propose_id as int,
            propose->PresidentialElections_0 as int,
            caller@,
            r,
        ) && final(state).users == old(state).users && final(state).committee_proposals == old(
            state,
        ).committee_proposals && final(state).config == old(state).config,
{
    validate_caller(caller)?;

    match propose {
        UserProposeVote::PresidentialElections(candidate_index) => state.presidential_elections.vote(
            caller.duplicate(),
            propose_id,
            candidate_index,
        ),
        UserProposeVote::ElectionsToSejm(_) => Err(ContractError::InvalidAction),
        UserProposeVote::ElectionsToSenate(_) => Err(ContractError::InvalidAction),
        UserProposeVote::Referendum(_) => Err(ContractError::InvalidAction),
    }
}

/// Evaluates an action proposal for closing: the scheduler's entry
/// point, safe to invoke out of band. On acceptance the embedded
/// action is executed; when it opens an election, the new election's
/// id is handed back for the host to schedule.
pub fn close_committee_proposal(state: &mut GovernanceState, id: usize, now: u64) -> (r: Result<
    Option<usize>,
    ContractError,
>)
    requires
        old(state).wf(),
        count_committee(old(state).users.0@) > 0,
    ensures
        final(state).wf(),
        old(state).config is None ==> r == Err::<Option<usize>, ContractError>(
            ContractError::ConfigNotSet,
        ) && *final(state) == *old(state),
        old(state).config is Some ==> committee_close_outcome(
            old(state).committee_proposals.0@,
            final(state).committee_proposals.0@,
            old(state).users.0@,
            final(state).users.0@,
            old(state).presidential_elections.0@,
            final(state).presidential_elections.0@,
            old(state).config->0,
            id as int,
            count_committee(old(state).users.0@) as int,
            now,
            r,
        ) && final(state).config == old(state).config,
{
    let config = match &state.config {
        Some(config) => *config,
        None => {
            return Err(ContractError::ConfigNotSet);
        },
    };
    let committee_size = state.users.get_committee_size();

    state.committee_proposals.close_proposal(
        &config,
        id,
        committee_size,
        now,
        &mut state.users,
        &mut state.presidential_elections,
    )
}

/// Evaluates an election proposal for closing: the scheduler's entry
/// point, safe to invoke out of band. When an unresolved election
/// spawns a runoff, the runoff's id is handed back for the host to
/// schedule.
pub fn close_presidential_elections(state: &mut GovernanceState, id: usize, now: u64) -> (r:
    Result<Option<usize>, ContractError>)
    requires
        old(state).wf(),
        old(state).users.0@.len() > 0,
    ensures
        final(state).wf(),
        old(state).config is None ==> r == Err::<Option<usize>, ContractError>(
            ContractError::ConfigNotSet,
        ) && *final(state) == *old(state),
        old(state).config is Some ==> election_close_outcome(
            old(state).presidential_elections.0@,
            final(state).presidential_elections.0@,
            old(state).config->0,
            id as int,
            old(state).users.0@.len() as int,
            now,
            r,
        ) && final(state).users == old(state).users && final(state).committee_proposals == old(
            state,
        ).committee_proposals && final(state).config == old(state).config,
{
    let config = match &state.config {
        Some(config) => *config,
        None => {
            return Err(ContractError::ConfigNotSet);
        },
    };
    let users_count = state.users.len();

    state.presidential_elections.close_proposal(&config, id, users_count, now)
}

/// Opens the user-facing proposal an accepted committee action
/// carries, crediting the action's creator. Only presidential election
/// ballots are in service; any other ballot kind fails as invalid.
pub fn create_user_propose(
    state: &mut GovernanceState,
    propose: &UserPropose,
    creator: &Identity,
    now: u64,
) -> (r: Result<usize, ContractError>)
    requires
        old(state).wf(),
    ensures
        final(state).wf(),
        r is Err ==> *final(state) == *old(state),
        old(state).config is None ==> r == Err::<usize, ContractError>(ContractError::ConfigNotSet),
        old(state).config is Some && !(propose is PresidentialElections) ==> r == Err::<
            usize,
            ContractError,
        >(ContractError::InvalidAction),
        old(state).config is Some && propose is PresidentialElections ==> ({
            &&& r == Ok::<usize, ContractError>(
                old(state).presidential_elections.0.len() as usize,
            )
            &&& election_appended(
                old(state).presidential_elections.0@,
                final(state).presidential_elections.0@,
                creator@,
                propose->PresidentialElections_0.deep_view(),
                old(state).config->0.committee_proposals_duration,
                now,
            )
            &&& final(state).users == old(state).users
            &&& final(state).committee_proposals == old(state).committee_proposals
            &&& final(state).config == old(state).config
        }),
{
    let config = match &state.config {
        Some(config) => *config,
        None => {
            return Err(ContractError::ConfigNotSet);
        },
    };

    match propose {
        UserPropose::PresidentialElections(proposal_content) => Ok(
            state.presidential_elections.create_proposal(
                &config,
                creator.duplicate(),
                proposal_content,
                now,
            ),
        ),
        UserPropose::ElectionsToSejm(_) => Err(ContractError::InvalidAction),
        UserPropose::ElectionsToSenate(_) => Err(ContractError::InvalidAction),
        UserPropose::Referendum(_) => Err(ContractError::InvalidAction),
    }
}

} // verus!
