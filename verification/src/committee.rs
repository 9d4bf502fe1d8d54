use vstd::prelude::*;

use crate::elections::window_elapsed;
use crate::elections::PresidentialElectionsProposals;
use crate::errors::ContractError;
use crate::identities::demote_user;
use crate::identities::promote_user;
use crate::identities::register_new_entry_identities;
use crate::identities::some_user_has_identity;
use crate::identities::user_role_set;
use crate::identities::users_extended;
use crate::identities::Users;
use crate::identity::clone_identities;
use crate::identity::contains_identity;
use crate::identity::seq_contains_identity;
use crate::identity::unique_identities;
use crate::identity::Identity;
use crate::types::action_like;
use crate::types::propose_like;
use crate::types::CommitteeActions;
use crate::types::Config;
use crate::types::Role;
use crate::types::User;
use crate::types::UserPropose;
use crate::types::VoteState;

verus! {

/// An action proposal: a committee action with a single yes-tally.
pub struct CommitteePropose {
    pub id: usize,
    pub creator: Identity,
    pub action: CommitteeActions,
    pub created_at: u64,
    pub window: u64,
    pub state: VoteState,
    pub votes_yes: u64,
    pub voters: Vec<Identity>,
}

impl CommitteePropose {
    /// Well-formedness: every recorded voter voted yes exactly once,
    /// so the tally equals the number of voters, and no voter is
    /// recorded twice.
    pub open spec fn wf(self) -> bool {
        &&& self.votes_yes == self.voters@.len()
        &&& unique_identities(self.voters@)
    }

    pub open spec fn has_voted(self, id: Seq<u8>) -> bool {
        seq_contains_identity(self.voters@, id)
    }

    /// The same record with another lifecycle state.
    pub open spec fn with_state(self, state: VoteState) -> Self {
        CommitteePropose { state, ..self }
    }

    /// Whether the voting window has elapsed at time `now`.
    pub open spec fn closing_due(self, now: u64) -> bool {
        now > self.created_at + self.window
    }
}

/// The yes-share of the committee reaches the threshold (basis points,
/// truncating integer division).
pub open spec fn action_accepted(votes_yes: u64, committee_size: int, threshold: u16) -> bool {
    votes_yes * 10000 / committee_size >= threshold
}

/// `post` is `pre` with one action proposal appended: the next
/// sequential id, the given creator and action, an open state, a zero
/// tally, no voters, and the given window, created at `now`.
pub open spec fn committee_appended(
    pre: Seq<CommitteePropose>,
    post: Seq<CommitteePropose>,
    creator: Seq<u8>,
    action: CommitteeActions,
    window: u64,
    now: u64,
) -> bool {
    &&& post.len() == pre.len() + 1
    &&& forall|k: int| 0 <= k < pre.len() ==> post[k] == pre[k]
    &&& post.last().id == pre.len()
    &&& post.last().creator@ == creator
    &&& post.last().action == action
    &&& post.last().created_at == now
    &&& post.last().window == window
    &&& post.last().state == VoteState::Open
    &&& post.last().votes_yes == 0
    &&& post.last().voters@.len() == 0
}

/// What one `vote` call does: on the one proposal addressed and open,
/// not yet voted on by `voter`, the yes-tally rises by one and the
/// voter is recorded; on any other input the matching error is
/// returned and nothing changes.
pub open spec fn committee_vote_outcome(
    pre: Seq<CommitteePropose>,
    post: Seq<CommitteePropose>,
    pid: int,
    voter: Seq<u8>,
    r: Result<(), ContractError>,
) -> bool {
    &&& r is Err ==> post == pre
    &&& pid >= pre.len() ==> r == Err::<(), ContractError>(ContractError::ProposeNotFound)
    &&& 0 <= pid < pre.len() && pre[pid].state != VoteState::Open ==> r == Err::<
        (),
        ContractError,
    >(ContractError::VoteNotOpen)
    &&& 0 <= pid < pre.len() && pre[pid].state == VoteState::Open && pre[pid].has_voted(voter)
        ==> r == Err::<(), ContractError>(ContractError::UserAlreadyVoted)
    &&& r is Ok <==> 0 <= pid < pre.len() && pre[pid].state == VoteState::Open
        && !pre[pid].has_voted(voter)
    &&& r is Ok ==> post.len() == pre.len() && (forall|k: int|
        0 <= k < pre.len() && k != pid ==> post[k] == pre[k]) && ({
        let p = pre[pid];
        let q = post[pid];
        &&& q.id == p.id
        &&& q.creator == p.creator
        &&& q.action == p.action
        &&& q.created_at == p.created_at
        &&& q.window == p.window
        &&& q.state == p.state
        &&& q.votes_yes == p.votes_yes + 1
        &&& q.voters@.len() == p.voters@.len() + 1
        &&& (forall|k: int| 0 <= k < p.voters@.len() ==> post[pid].voters@[k] == p.voters@[k])
        &&& q.voters@.last()@ == voter
    })
}

/// What one `close_proposal` call does, given the committee size and
/// the configuration: errors for a missing id, a record no longer
/// open, or a window not yet elapsed, each leaving everything
/// unchanged; rejection below the threshold; and, at or above it,
/// acceptance together with the action's effect on the membership or
/// election store — or rejection of the proposal with the execution
/// failure reported, when the action cannot be executed.
pub open spec fn committee_close_outcome(
    pre: Seq<CommitteePropose>,
    post: Seq<CommitteePropose>,
    pre_users: Seq<User>,
    post_users: Seq<User>,
    pre_elections: Seq<crate::elections::PresidentialElectionsPropose>,
    post_elections: Seq<crate::elections::PresidentialElectionsPropose>,
    config: Config,
    id: int,
    committee_size: int,
    now: u64,
    r: Result<Option<usize>, ContractError>,
) -> bool {
    &&& r is Err ==> post_users == pre_users && post_elections == pre_elections
    &&& id >= pre.len() ==> r == Err::<Option<usize>, ContractError>(
        ContractError::ProposeNotFound,
    ) && post == pre
    &&& 0 <= id < pre.len() && !(pre[id].state == VoteState::Open && pre[id].closing_due(now))
        ==> r == Err::<Option<usize>, ContractError>(ContractError::ProposeInProgress) && post
        == pre
    &&& 0 <= id < pre.len() && pre[id].state == VoteState::Open && pre[id].closing_due(now)
        ==> ({
        let p = pre[id];
        let threshold = config.presidential_elections_threshold;
        &&& !action_accepted(p.votes_yes, committee_size, threshold) ==> r == Ok::<
            Option<usize>,
            ContractError,
        >(None) && post == pre.update(id, p.with_state(VoteState::Rejected)) && post_users
            == pre_users && post_elections == pre_elections
        &&& action_accepted(p.votes_yes, committee_size, threshold) ==> ({
            &&& p.action is RegisterNewEntryIdentities ==> r == Ok::<
                Option<usize>,
                ContractError,
            >(None) && post == pre.update(id, p.with_state(VoteState::Accepted))
                && users_extended(
                pre_users,
                post_users,
                p.action->RegisterNewEntryIdentities_0@,
            ) && post_elections == pre_elections
            &&& p.action is PromoteUser ==> ({
                let target = p.action->PromoteUser_0@;
                if some_user_has_identity(pre_users, target) {
                    r == Ok::<Option<usize>, ContractError>(None) && post == pre.update(
                        id,
                        p.with_state(VoteState::Accepted),
                    ) && user_role_set(pre_users, post_users, target, Role::Committee)
                        && post_elections == pre_elections
                } else {
                    r == Err::<Option<usize>, ContractError>(ContractError::UserNotFound) && post
                        == pre.update(id, p.with_state(VoteState::Rejected))
                }
            })
            &&& p.action is DemoteUser ==> ({
                let target = p.action->DemoteUser_0@;
                if some_user_has_identity(pre_users, target) {
                    r == Ok::<Option<usize>, ContractError>(None) && post == pre.update(
                        id,
                        p.with_state(VoteState::Accepted),
                    ) && user_role_set(pre_users, post_users, target, Role::User)
                        && post_elections == pre_elections
                } else {
                    r == Err::<Option<usize>, ContractError>(ContractError::UserNotFound) && post
                        == pre.update(id, p.with_state(VoteState::Rejected))
                }
            })
            &&& p.action is CancelPropose ==> r == Err::<Option<usize>, ContractError>(
                ContractError::InvalidAction,
            ) && post == pre.update(id, p.with_state(VoteState::Rejected))
            &&& p.action is CreateUserPropose ==> ({
                let ballot = p.action->CreateUserPropose_0;
                if ballot is PresidentialElections {
                    r == Ok::<Option<usize>, ContractError>(Some(pre_elections.len() as usize))
                        && post == pre.update(id, p.with_state(VoteState::Accepted)) && post_users
                        == pre_users && crate::elections::election_appended(
                        pre_elections,
                        post_elections,
                        p.creator@,
                        ballot->PresidentialElections_0.deep_view(),
                        config.committee_proposals_duration,
                        now,
                    )
                } else {
                    r == Err::<Option<usize>, ContractError>(ContractError::InvalidAction) && post
                        == pre.update(id, p.with_state(VoteState::Rejected))
                }
            })
        })
    })
}

/// The projection of an action proposal handed to external callers; it
/// omits the scheduling concerns (the window) and nothing else.
pub struct CommitteeProposeCandidType {
    pub id: usize,
    pub creator: Identity,
    pub action: CommitteeActions,
    pub created_at: u64,
    pub state: VoteState,
    pub votes_yes: u64,
    pub voters: Vec<Identity>,
}

impl CommitteeProposeCandidType {
    /// The projection carries the record's data unchanged.
    pub open spec fn matches(self, p: CommitteePropose) -> bool {
        &&& self.id == p.id
        &&& self.creator@ == p.creator@
        &&& action_like(&self.action, &p.action)
        &&& self.created_at == p.created_at
        &&& self.state == p.state
        &&& self.votes_yes == p.votes_yes
        &&& self.voters.deep_view() == p.voters.deep_view()
    }

    pub fn new(vote: &CommitteePropose) -> (r: Self)
        ensures
            r.matches(*vote),
    {
        Self {
            id: vote.id,
            creator: vote.creator.duplicate(),
            action: vote.action.duplicate(),
            created_at: vote.created_at,
            state: vote.state,
            votes_yes: vote.votes_yes,
            voters: clone_identities(&vote.voters),
        }
    }
}

/// A throwaway record used to swap a stored record out for mutation.
fn placeholder_committee() -> CommitteePropose {
    CommitteePropose {
        id: 0,
        creator: Identity::new(Vec::new()),
        action: CommitteeActions::CancelPropose(0),
        created_at: 0,
        window: 0,
        state: VoteState::Open,
        votes_yes: 0,
        voters: Vec::new(),
    }
}

/// The store of action proposals, in creation order; a record's `id`
/// is its position.
pub struct CommitteeProposals(pub Vec<CommitteePropose>);

impl CommitteeProposals {
    /// Every stored record is well-formed and sits at the position its
    /// `id` names.
    pub open spec fn wf(self) -> bool {
        forall|i: int|
            0 <= i < self.0@.len() ==> (#[trigger] self.0@[i]).id == i && self.0@[i].wf()
    }

    pub fn default() -> (r: Self)
        ensures
            r.0@.len() == 0,
            r.wf(),
    {
        CommitteeProposals(Vec::new())
    }

    /// The read-only projection of every stored record.
    pub fn get(&self) -> (r: Vec<CommitteeProposeCandidType>)
        ensures
            r@.len() == self.0@.len(),
            forall|i: int| 0 <= i < r@.len() ==> (#[trigger] r@[i]).matches(self.0@[i]),
    {
        let n = self.0.len();
        let mut r: Vec<CommitteeProposeCandidType> = Vec::new();
        let mut i: usize = 0;
        while i < n
            invariant
                n == self.0@.len(),
                0 <= i <= n,
                r@.len() == i,
                forall|k: int| 0 <= k < i ==> (#[trigger] r@[k]).matches(self.0@[k]),
            decreases n - i,
        {
            r.push(CommitteeProposeCandidType::new(&self.0[i]));
            i += 1;
        }
        r
    }

    fn next_id(&self) -> (r: usize)
        ensures
            r == self.0@.len(),
    {
        self.0.len()
    }

    /// Moves the record at `id` to another lifecycle state.
    fn set_state(&mut self, id: usize, state: VoteState)
        requires
            id < old(self).0@.len(),
        ensures
            final(self).0@ == old(self).0@.update(
                id as int,
                old(self).0@[id as int].with_state(state),
            ),
    {
        let mut p = placeholder_committee();
        self.0.set_and_swap(id, &mut p);
        p.state = state;
        self.0.set_and_swap(id, &mut p);
        proof {
            assert(self.0@ =~= old(self).0@.update(
                id as int,
                old(self).0@[id as int].with_state(state),
            ));
        }
    }

    /// Opens a new action proposal: the next sequential id, an open
    /// state, a zero tally, no voters, and the window configured at
    /// creation time.
    pub fn create_proposal(
        &mut self,
        config: &Config,
        creator: Identity,
        action: CommitteeActions,
        now: u64,
    ) -> (id: usize)
        requires
            old(self).wf(),
        ensures
            final(self).wf(),
            id == old(self).0@.len(),
            final(self).0@.last().creator == creator,
            committee_appended(
                old(self).0@,
                final(self).0@,
                creator@,
                action,
                config.committee_proposals_duration,
                now,
            ),
    {
        let id = self.next_id();
        self.0.push(
            CommitteePropose {
                id,
                creator,
                action,
                created_at: now,
                window: config.committee_proposals_duration,
                state: VoteState::Open,
                votes_yes: 0,
                voters: Vec::new(),
            },
        );
        id
    }

    /// Records one yes-vote: the single mutation available while a
    /// proposal is open. The tally rises by one exactly when the voter
    /// is recorded, so a voter can never contribute more than one vote
    /// to the same proposal.
    pub fn vote(&mut self, voter: Identity, propose_id: usize) -> (r: Result<(), ContractError>)
        requires
            old(self).wf(),
        ensures
            final(self).wf(),
            r is Err ==> *final(self) == *old(self),
            committee_vote_outcome(old(self).0@, final(self).0@, propose_id as int, voter@, r),
    {
        if propose_id >= self.0.len() {
            return Err(ContractError::ProposeNotFound);
        }
        if !(self.0[propose_id].state == VoteState::Open) {
            return Err(ContractError::VoteNotOpen);
        }
        if contains_identity(&self.0[propose_id].voters, &voter) {
            return Err(ContractError::UserAlreadyVoted);
        }

        let mut record = placeholder_committee();
        self.0.set_and_swap(propose_id, &mut record);
        record.voters.push(voter);
        let _voters_now: usize = record.voters.len();
        record.votes_yes = record.votes_yes + 1;
        self.0.set_and_swap(propose_id, &mut record);
        proof {
            assert(final(self).wf()) by {
                assert forall|k: int| 0 <= k < self.0@.len() implies (#[trigger] self.0@[k]).id
                    == k && self.0@[k].wf() by {
                    if k != propose_id {
                        assert(self.0@[k] == old(self).0@[k]);
                    }
                }
            }
        }
        Ok(())
    }

    /// Evaluates the record at `id` for closing at time `now`, given
    /// the committee size. A missing id is reported as
    /// `ProposeNotFound`; a record that is no longer open, or whose
    /// window has not yet elapsed, as `ProposeInProgress` — closing is
    /// evaluated at most once, and a second call mutates nothing and
    /// never executes the action again. Below the threshold the
    /// proposal is rejected; at or above it the proposal is accepted
    /// and its action executed against the membership store or, for an
    /// embedded election ballot, the election store, whose new id is
    /// handed back. An action whose execution fails leaves the
    /// proposal rejected and reports the failure. The configured
    /// election threshold (`presidential_elections_threshold`) governs
    /// action proposals as well.
    pub fn close_proposal(
        &mut self,
        config: &Config,
        id: usize,
        committee_size: usize,
        now: u64,
        users: &mut Users,
        elections: &mut PresidentialElectionsProposals,
    ) -> (r: Result<Option<usize>, ContractError>)
        requires
            old(self).wf(),
            old(elections).wf(),
            committee_size > 0,
        ensures
            final(self).wf(),
            final(elections).wf(),
            committee_close_outcome(
                old(self).0@,
                final(self).0@,
                old(users).0@,
                final(users).0@,
                old(elections).0@,
                final(elections).0@,
                *config,
                id as int,
                committee_size as int,
                now,
                r,
            ),
    {
        if id >= self.0.len() {
            return Err(ContractError::ProposeNotFound);
        }
        if !(self.0[id].state == VoteState::Open) {
            return Err(ContractError::ProposeInProgress);
        }
        if !window_elapsed(self.0[id].created_at, self.0[id].window, now) {
            return Err(ContractError::ProposeInProgress);
        }

        let ghost pre = *self;
        let accepted = (self.0[id].votes_yes as u128) * 10000 / (committee_size as u128) >= (
        config.presidential_elections_threshold as u128);

        if !accepted {
            self.set_state(id, VoteState::Rejected);
            proof {
                lemma_wf_after_set_state(pre, *self, id as int, VoteState::Rejected);
            }
            return Ok(None);
        }

        let action = self.0[id].action.duplicate();
        let ghost dup_action = action;
        let creator = self.0[id].creator.duplicate();
        match action {
            CommitteeActions::RegisterNewEntryIdentities(identities) => {
                self.set_state(id, VoteState::Accepted);
                proof {
                    lemma_wf_after_set_state(pre, *self, id as int, VoteState::Accepted);
                }
                register_new_entry_identities(users, &identities);
                proof {
                    let orig = pre.0@[id as int].action->RegisterNewEntryIdentities_0;
                    assert(dup_action == CommitteeActions::RegisterNewEntryIdentities(identities));
                    assert(identities.deep_view().len() == orig.deep_view().len());
                    assert(identities@.len() == orig@.len());
                    assert forall|k: int| 0 <= k < orig@.len() implies (#[trigger] identities@[k])@
                        == orig@[k]@ by {
                        assert(identities.deep_view()[k] == orig.deep_view()[k]);
                    }
                }
                Ok(None)
            },
            CommitteeActions::PromoteUser(user) => {
                proof {
                    assert(dup_action == CommitteeActions::PromoteUser(user));
                    assert(pre.0@[id as int].action is PromoteUser && pre.0@[
                        id as int].action->PromoteUser_0@ == user@);
                }
                match promote_user(users, &user) {
                    Ok(_) => {
                        self.set_state(id, VoteState::Accepted);
                        proof {
                            lemma_wf_after_set_state(pre, *self, id as int, VoteState::Accepted);
                        }
                        Ok(None)
                    },
                    Err(e) => {
                        self.set_state(id, VoteState::Rejected);
                        proof {
                            lemma_wf_after_set_state(pre, *self, id as int, VoteState::Rejected);
                        }
                        Err(e)
                    },
                }
            },
            CommitteeActions::DemoteUser(user) => {
                proof {
                    assert(dup_action == CommitteeActions::DemoteUser(user));
                    assert(pre.0@[id as int].action is DemoteUser && pre.0@[
                        id as int].action->DemoteUser_0@ == user@);
                }
                match demote_user(users, &user) {
                    Ok(_) => {
                        self.set_state(id, VoteState::Accepted);
                        proof {
                            lemma_wf_after_set_state(pre, *self, id as int, VoteState::Accepted);
                        }
                        Ok(None)
                    },
                    Err(e) => {
                        self.set_state(id, VoteState::Rejected);
                        proof {
                            lemma_wf_after_set_state(pre, *self, id as int, VoteState::Rejected);
                        }
                        Err(e)
                    },
                }
            },
            CommitteeActions::CancelPropose(_) => {
                proof {
                    assert(pre.0@[id as int].action is CancelPropose);
                }
                self.set_state(id, VoteState::Rejected);
                proof {
                    lemma_wf_after_set_state(pre, *self, id as int, VoteState::Rejected);
                }
                Err(ContractError::InvalidAction)
            },
            CommitteeActions::CreateUserPropose(ballot) => {
                let ghost dup_ballot = ballot;
                proof {
                    assert(dup_action == CommitteeActions::CreateUserPropose(dup_ballot));
                    assert(pre.0@[id as int].action is CreateUserPropose);
                    assert(propose_like(&pre.0@[id as int].action->CreateUserPropose_0, &dup_ballot));
                }
                match ballot {
                    UserPropose::PresidentialElections(content) => {
                        proof {
                            let orig_ballot = pre.0@[id as int].action->CreateUserPropose_0;
                            assert(dup_ballot == UserPropose::PresidentialElections(content));
                            assert(orig_ballot is PresidentialElections);
                            assert(content.deep_view()
                                == orig_ballot->PresidentialElections_0.deep_view());
                            assert(content.deep_view().len()
                                == orig_ballot->PresidentialElections_0.deep_view().len());
                            assert(content@.len()
                                == orig_ballot->PresidentialElections_0@.len());
                        }
                        let new_id = elections.create_proposal(config, creator, &content, now);
                        self.set_state(id, VoteState::Accepted);
                        proof {
                            lemma_wf_after_set_state(pre, *self, id as int, VoteState::Accepted);
                        }
                        Ok(Some(new_id))
                    },
                    _ => {
                        proof {
                            assert(!(pre.0@[
                                id as int].action->CreateUserPropose_0 is PresidentialElections));
                        }
                        self.set_state(id, VoteState::Rejected);
                        proof {
                            lemma_wf_after_set_state(pre, *self, id as int, VoteState::Rejected);
                        }
                        Err(ContractError::InvalidAction)
                    },
                }
            },
        }
    }
}

/// No double voting: a well-formed action proposal records any single
/// identity at most once, and its yes-tally equals the number of
/// recorded voters, so one voter contributes at most one vote.
pub proof fn lemma_no_double_voting_committee(p: CommitteePropose, id: Seq<u8>)
    requires
        p.wf(),
    ensures
        crate::identity::identity_count(p.voters@, id) <= 1,
        p.votes_yes == p.voters@.len(),
{
    crate::identity::lemma_no_double_voting(p.voters@, id);
}

/// Closing monotonicity: a vote cast on a proposal that has left
/// `Open` is refused and mutates nothing.
pub proof fn lemma_vote_on_closed_is_no_op(
    pre: Seq<CommitteePropose>,
    post: Seq<CommitteePropose>,
    pid: int,
    voter: Seq<u8>,
    r: Result<(), ContractError>,
)
    requires
        0 <= pid < pre.len(),
        pre[pid].state != VoteState::Open,
        committee_vote_outcome(pre, post, pid, voter, r),
    ensures
        r == Err::<(), ContractError>(ContractError::VoteNotOpen),
        post == pre,
{
}

/// Closing monotonicity: closing a proposal that has already left
/// `Open` is refused and mutates nothing — in particular its action
/// is not executed again.
pub proof fn lemma_close_on_closed_is_no_op(
    pre: Seq<CommitteePropose>,
    post: Seq<CommitteePropose>,
    pre_users: Seq<User>,
    post_users: Seq<User>,
    pre_elections: Seq<crate::elections::PresidentialElectionsPropose>,
    post_elections: Seq<crate::elections::PresidentialElectionsPropose>,
    config: Config,
    id: int,
    committee_size: int,
    now: u64,
    r: Result<Option<usize>, ContractError>,
)
    requires
        0 <= id < pre.len(),
        pre[id].state != VoteState::Open,
        committee_close_outcome(
            pre,
            post,
            pre_users,
            post_users,
            pre_elections,
            post_elections,
            config,
            id,
            committee_size,
            now,
            r,
        ),
    ensures
        r == Err::<Option<usize>, ContractError>(ContractError::ProposeInProgress),
        post == pre,
        post_users == pre_users,
        post_elections == pre_elections,
{
}

/// Idempotent closing: once a close call has evaluated a proposal —
/// whether it was accepted, rejected, or its action failed — a second
/// close of the same id reports `ProposeInProgress` and mutates
/// nothing, so the action can never execute twice.
pub proof fn lemma_close_idempotent(
    pre: Seq<CommitteePropose>,
    mid: Seq<CommitteePropose>,
    post: Seq<CommitteePropose>,
    pre_users: Seq<User>,
    mid_users: Seq<User>,
    post_users: Seq<User>,
    pre_elections: Seq<crate::elections::PresidentialElectionsPropose>,
    mid_elections: Seq<crate::elections::PresidentialElectionsPropose>,
    post_elections: Seq<crate::elections::PresidentialElectionsPropose>,
    config: Config,
    id: int,
    committee_size: int,
    now1: u64,
    now2: u64,
    r1: Result<Option<usize>, ContractError>,
    r2: Result<Option<usize>, ContractError>,
)
    requires
        0 <= id < pre.len(),
        pre[id].state == VoteState::Open,
        pre[id].closing_due(now1),
        committee_close_outcome(
            pre,
            mid,
            pre_users,
            mid_users,
            pre_elections,
            mid_elections,
            config,
            id,
            committee_size,
            now1,
            r1,
        ),
        committee_close_outcome(
            mid,
            post,
            mid_users,
            post_users,
            mid_elections,
            post_elections,
            config,
            id,
            committee_size,
            now2,
            r2,
        ),
    ensures
        r2 == Err::<Option<usize>, ContractError>(ContractError::ProposeInProgress),
        post == mid,
        post_users == mid_users,
        post_elections == mid_elections,
{
    assert(mid[id].state != VoteState::Open);
    lemma_close_on_closed_is_no_op(
        mid,
        post,
        mid_users,
        post_users,
        mid_elections,
        post_elections,
        config,
        id,
        committee_size,
        now2,
        r2,
    );
}

/// Changing only a record's state preserves the store's
/// well-formedness.
proof fn lemma_wf_after_set_state(
    pre: CommitteeProposals,
    post: CommitteeProposals,
    id: int,
    state: VoteState,
)
    requires
        pre.wf(),
        0 <= id < pre.0@.len(),
        post.0@ == pre.0@.update(id, pre.0@[id].with_state(state)),
    ensures
        post.wf(),
{
    assert forall|i: int| 0 <= i < post.0@.len() implies (#[trigger] post.0@[i]).id == i
        && post.0@[i].wf() by {
        if i != id {
            assert(post.0@[i] == pre.0@[i]);
        }
    }
}

} // verus!
