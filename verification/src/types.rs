use vstd::prelude::*;

use std::collections::BTreeMap;
use std::collections::HashMap;

use crate::errors::ContractError;
use crate::identity::Identity;

verus! {

/// Configuration fixed at initialization; thresholds are basis points
/// (0..=10000) and durations are in the host's time units.
#[derive(Clone, Copy, Debug)]
pub struct Config {
    pub committee_threshold: u16,
    pub max_committee_size: u64,
    pub committee_proposals_duration: u64,
    pub user_proposals_duration: u64,
    pub presidential_elections_threshold: u16,
}

#[derive(Clone, Copy, PartialEq, Eq, Structural, Debug)]
pub enum Role {
    Committee,
    User,
}

/// A registered member: the entry identity handed out by the committee,
/// and, once activated, the member's own identity and seed.
#[derive(Clone, Debug)]
pub struct User {
    pub entry_identity: Identity,
    pub identity: Option<Identity>,
    pub identity_seed: Option<String>,
    pub role: Role,
}

impl User {
    /// Whether this user has activated with the given identity bytes.
    pub open spec fn has_identity(self, id: Seq<u8>) -> bool {
        self.identity is Some && self.identity->0@ == id
    }

    pub fn new(entry_identity: &Identity) -> (r: Self)
        ensures
            r.entry_identity@ == entry_identity@,
            r.identity is None,
            r.identity_seed is None,
            r.role == Role::User,
    {
        Self {
            entry_identity: entry_identity.duplicate(),
            identity: None,
            identity_seed: None,
            role: Role::User,
        }
    }

    pub fn promote(&mut self)
        ensures
            *final(self) == (User { role: Role::Committee, ..*old(self) }),
    {
        self.role = Role::Committee
    }

    pub fn demote(&mut self)
        ensures
            *final(self) == (User { role: Role::User, ..*old(self) }),
    {
        self.role = Role::User
    }

    pub fn new_with_role(entry_identity: &Identity, role: Role) -> (r: Self)
        ensures
            r.entry_identity@ == entry_identity@,
            r.identity is None,
            r.identity_seed is None,
            r.role == role,
    {
        Self {
            entry_identity: entry_identity.duplicate(),
            identity: None,
            identity_seed: None,
            role,
        }
    }

    pub fn get_user_identity(&self) -> (r: Option<Identity>)
        ensures
            r is Some <==> self.identity is Some,
            r is Some ==> r->0@ == self.identity->0@,
    {
        match &self.identity {
            Some(id) => Some(id.duplicate()),
            None => None,
        }
    }

    pub fn get_user_entry_identity(&self) -> (r: Identity)
        ensures
            r@ == self.entry_identity@,
    {
        self.entry_identity.duplicate()
    }

    pub fn get_user_seed(&self) -> (r: Option<&String>)
        ensures
            r is Some <==> self.identity_seed is Some,
            r is Some ==> *r->0 == self.identity_seed->0,
    {
        self.identity_seed.as_ref()
    }

    /// The activated user: same entry identity and role, with the given
    /// identity and seed recorded.
    pub open spec fn activate_spec(self, identity: Identity, identity_seed: String) -> User {
        User { identity: Some(identity), identity_seed: Some(identity_seed), ..self }
    }

    pub fn activate(&mut self, identity: Identity, identity_seed: String)
        ensures
            *final(self) == old(self).activate_spec(identity, identity_seed),
    {
        self.identity = Some(identity);
        self.identity_seed = Some(identity_seed);
    }

    pub fn is_in_committee(&self) -> (r: bool)
        ensures
            r == (self.role == Role::Committee),
    {
        self.role == Role::Committee
    }
}

/// The lifecycle state of a proposal; every state but `Open` is terminal.
#[derive(Clone, Copy, PartialEq, Eq, Structural, Debug)]
pub enum VoteState {
    Open,
    Accepted,
    Rejected,
    Unresolved,
    Cancelled,
}

/// A party list for an election to the Sejm. The engine validates only
/// that a ballot is non-empty; the payload itself is never interpreted.
#[derive(Clone)]
pub struct SejmList {
    pub reporting: String,
    pub candidates: HashMap<u32, String>,
}

/// A single candidacy for an election to the Senate; never interpreted
/// by the engine.
#[derive(Clone)]
pub struct SenateEntry {
    pub reporting: String,
    pub candidate: String,
}

/// A user's vote on one of the user-facing ballot kinds.
#[derive(Clone)]
pub enum UserProposeVote {
    PresidentialElections(usize),
    ElectionsToSejm(BTreeMap<u32, SejmList>),
    ElectionsToSenate(Vec<SenateEntry>),
    Referendum(Vec<String>),
}

/// A user-facing ballot to be opened by an accepted committee action.
#[derive(Clone)]
pub enum UserPropose {
    PresidentialElections(Vec<String>),
    ElectionsToSejm(BTreeMap<u32, SejmList>),
    ElectionsToSenate(Vec<SenateEntry>),
    Referendum(Vec<String>),
}

impl UserPropose {
    /// A ballot is valid exactly when it carries at least one entry.
    pub open spec fn is_valid_spec(&self) -> bool {
        match self {
            UserPropose::PresidentialElections(candidates) => candidates@.len() > 0,
            UserPropose::ElectionsToSejm(candidates) => !candidates@.is_empty(),
            UserPropose::ElectionsToSenate(entries) => entries@.len() > 0,
            UserPropose::Referendum(entries) => entries@.len() > 0,
        }
    }

    pub fn is_valid(&self) -> (r: bool)
        ensures
            r == self.is_valid_spec(),
    {
        match self {
            UserPropose::PresidentialElections(candidates) => candidates.len() > 0,
            UserPropose::ElectionsToSejm(candidates) => !candidates.is_empty(),
            UserPropose::ElectionsToSenate(entries) => entries.len() > 0,
            UserPropose::Referendum(entries) => entries.len() > 0,
        }
    }
}

/// `b` carries the same ballot as `a`. Candidate lists are compared
/// character for character; the payloads of ballot kinds the engine
/// never interprets are compared by kind alone.
pub open spec fn propose_like(a: &UserPropose, b: &UserPropose) -> bool {
    match (a, b) {
        (UserPropose::PresidentialElections(x), UserPropose::PresidentialElections(y)) => x.deep_view() == y.deep_view(),
        (UserPropose::ElectionsToSejm(_), UserPropose::ElectionsToSejm(_)) => true,
        (UserPropose::ElectionsToSenate(_), UserPropose::ElectionsToSenate(_)) => true,
        (UserPropose::Referendum(x), UserPropose::Referendum(y)) => x.deep_view() == y.deep_view(),
        _ => false,
    }
}

impl UserPropose {
    /// An owned copy: candidate lists are copied character for
    /// character, uninterpreted ballot payloads structurally.
    pub fn duplicate(&self) -> (r: Self)
        ensures
            propose_like(self, &r),
    {
        match self {
            UserPropose::PresidentialElections(candidates) => UserPropose::PresidentialElections(
                crate::elections::clone_strings(candidates),
            ),
            UserPropose::ElectionsToSejm(candidates) => UserPropose::ElectionsToSejm(
                candidates.clone(),
            ),
            UserPropose::ElectionsToSenate(entries) => UserPropose::ElectionsToSenate(
                entries.clone(),
            ),
            UserPropose::Referendum(entries) => UserPropose::Referendum(
                crate::elections::clone_strings(entries),
            ),
        }
    }
}

/// `b` carries the same action as `a`, with embedded ballots compared
/// by `propose_like`.
pub open spec fn action_like(a: &CommitteeActions, b: &CommitteeActions) -> bool {
    match (a, b) {
        (
            CommitteeActions::RegisterNewEntryIdentities(x),
            CommitteeActions::RegisterNewEntryIdentities(y),
        ) => x.deep_view() == y.deep_view(),
        (CommitteeActions::PromoteUser(x), CommitteeActions::PromoteUser(y)) => x@ == y@,
        (CommitteeActions::DemoteUser(x), CommitteeActions::DemoteUser(y)) => x@ == y@,
        (CommitteeActions::CancelPropose(x), CommitteeActions::CancelPropose(y)) => x == y,
        (CommitteeActions::CreateUserPropose(p), CommitteeActions::CreateUserPropose(q)) => propose_like(
            p,
            q,
        ),
        _ => false,
    }
}

/// The actions a committee proposal can carry; an accepted proposal
/// executes its action.
#[derive(Clone)]
pub enum CommitteeActions {
    RegisterNewEntryIdentities(Vec<Identity>),
    PromoteUser(Identity),
    DemoteUser(Identity),
    CancelPropose(usize),
    CreateUserPropose(UserPropose),
}

impl CommitteeActions {
    /// Validity of an action: non-empty identity lists, no anonymous
    /// targets, and a valid embedded ballot.
    pub open spec fn is_valid_spec(&self) -> bool {
        match self {
            CommitteeActions::RegisterNewEntryIdentities(principals) => principals@.len() > 0,
            CommitteeActions::PromoteUser(user) => !user.is_anonymous_spec(),
            CommitteeActions::DemoteUser(user) => !user.is_anonymous_spec(),
            CommitteeActions::CreateUserPropose(propose) => propose.is_valid_spec(),
            CommitteeActions::CancelPropose(_) => true,
        }
    }

    /// Hands the action back unchanged when it is valid, and rejects it
    /// with `InvalidAction` otherwise.
    pub fn validate(self) -> (r: Result<Self, ContractError>)
        ensures
            self.is_valid_spec() ==> r == Ok::<Self, ContractError>(self),
            !self.is_valid_spec() ==> r == Err::<Self, ContractError>(ContractError::InvalidAction),
    {
        let is_valid = match &self {
            CommitteeActions::RegisterNewEntryIdentities(principals) => principals.len() > 0,
            CommitteeActions::PromoteUser(user) => !user.is_anonymous(),
            CommitteeActions::DemoteUser(user) => !user.is_anonymous(),
            CommitteeActions::CreateUserPropose(propose) => propose.is_valid(),
            CommitteeActions::CancelPropose(_) => true,
        };

        if !is_valid {
            return Err(ContractError::InvalidAction);
        }

        Ok(self)
    }

    /// An owned copy, with embedded ballots copied as `duplicate` on
    /// `UserPropose` does.
    pub fn duplicate(&self) -> (r: Self)
        ensures
            action_like(self, &r),
    {
        match self {
            CommitteeActions::RegisterNewEntryIdentities(principals) => CommitteeActions::RegisterNewEntryIdentities(
                crate::identity::clone_identities(principals),
            ),
            CommitteeActions::PromoteUser(user) => CommitteeActions::PromoteUser(user.duplicate()),
            CommitteeActions::DemoteUser(user) => CommitteeActions::DemoteUser(user.duplicate()),
            CommitteeActions::CancelPropose(id) => CommitteeActions::CancelPropose(*id),
            CommitteeActions::CreateUserPropose(propose) => CommitteeActions::CreateUserPropose(
                propose.duplicate(),
            ),
        }
    }
}

} // verus!
