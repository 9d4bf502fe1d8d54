use vstd::prelude::*;

use crate::errors::ContractError;
use crate::identity::contains_identity;
use crate::identity::seq_contains_identity;
use crate::identity::unique_identities;
use crate::identity::Identity;
use crate::types::Config;
use crate::types::VoteState;

verus! {

/// The total number of votes recorded in a per-candidate tally.
pub open spec fn tally_sum(votes: Seq<u64>) -> int
    decreases votes.len(),
{
    if votes.len() == 0 {
        0
    } else {
        tally_sum(votes.drop_last()) + votes.last()
    }
}

pub proof fn lemma_tally_sum_nonneg(votes: Seq<u64>)
    ensures
        tally_sum(votes) >= 0,
    decreases votes.len(),
{
    if votes.len() > 0 {
        lemma_tally_sum_nonneg(votes.drop_last());
    }
}

/// Each single tally entry is bounded by the total.
pub proof fn lemma_tally_sum_le(votes: Seq<u64>, i: int)
    requires
        0 <= i < votes.len(),
    ensures
        votes[i] <= tally_sum(votes),
    decreases votes.len(),
{
    if i == votes.len() - 1 {
        lemma_tally_sum_nonneg(votes.drop_last());
    } else {
        lemma_tally_sum_le(votes.drop_last(), i);
    }
}

/// Updating one tally entry shifts the total by the difference.
pub proof fn lemma_tally_sum_update(votes: Seq<u64>, i: int, v: u64)
    requires
        0 <= i < votes.len(),
    ensures
        tally_sum(votes.update(i, v)) == tally_sum(votes) - votes[i] + v,
    decreases votes.len(),
{
    let updated = votes.update(i, v);
    if i == votes.len() - 1 {
        assert(updated.drop_last() =~= votes.drop_last());
    } else {
        assert(updated.drop_last() =~= votes.drop_last().update(i, v));
        assert(updated.last() == votes.last());
        lemma_tally_sum_update(votes.drop_last(), i, v);
    }
}

pub proof fn lemma_tally_sum_push(votes: Seq<u64>, v: u64)
    ensures
        tally_sum(votes.push(v)) == tally_sum(votes) + v,
{
    assert(votes.push(v).drop_last() =~= votes);
    assert(votes.push(v).last() == v);
}

/// `i` is the position a stable sort by votes, descending, would put
/// first: no entry beats it, and no earlier entry ties with it.
pub open spec fn is_leader(votes: Seq<u64>, i: int) -> bool {
    &&& 0 <= i < votes.len()
    &&& forall|j: int| 0 <= j < votes.len() ==> votes[j] <= votes[i]
    &&& forall|j: int| 0 <= j < i ==> votes[j] < votes[i]
}

/// `r` is the position such a sort would put second, after the leader
/// `i`: among all other entries none beats it and no earlier one ties.
pub open spec fn is_runner_up(votes: Seq<u64>, i: int, r: int) -> bool {
    &&& 0 <= r < votes.len()
    &&& r != i
    &&& forall|j: int| 0 <= j < votes.len() && j != i ==> votes[j] <= votes[r]
    &&& forall|j: int| 0 <= j < r && j != i ==> votes[j] < votes[r]
}

pub proof fn lemma_leader_unique(votes: Seq<u64>, i: int, j: int)
    requires
        is_leader(votes, i),
        is_leader(votes, j),
    ensures
        i == j,
{
    if i < j {
        assert(votes[i] < votes[j]);
        assert(votes[j] <= votes[i]);
    } else if j < i {
        assert(votes[j] < votes[i]);
        assert(votes[i] <= votes[j]);
    }
}

/// The leading candidate's share of the eligible voters reaches the
/// threshold (basis points, truncating integer division).
pub open spec fn election_accepted(votes: Seq<u64>, users_count: int, threshold: u16) -> bool {
    exists|i: int| #[trigger] is_leader(votes, i) && votes[i] * 10000 / users_count >= threshold
}

/// An election proposal: an ordered candidate list with an
/// index-aligned tally, plus the record's identity and window.
pub struct PresidentialElectionsPropose {
    pub id: usize,
    pub creator: Identity,
    pub proposal_content: Vec<String>,
    pub created_at: u64,
    pub window: u64,
    pub state: VoteState,
    pub votes_yes: Vec<u64>,
    pub voters: Vec<Identity>,
}

impl PresidentialElectionsPropose {
    /// Well-formedness: the tally is index-aligned with the candidate
    /// list, its total equals the number of recorded voters, and no
    /// voter is recorded twice.
    pub open spec fn wf(self) -> bool {
        &&& self.votes_yes@.len() == self.proposal_content@.len()
        &&& tally_sum(self.votes_yes@) == self.voters@.len()
        &&& unique_identities(self.voters@)
    }

    pub open spec fn has_voted(self, id: Seq<u8>) -> bool {
        seq_contains_identity(self.voters@, id)
    }

    /// The same record with another lifecycle state.
    pub open spec fn with_state(self, state: VoteState) -> Self {
        PresidentialElectionsPropose { state, ..self }
    }

    /// Whether the voting window has elapsed at time `now`.
    pub open spec fn closing_due(self, now: u64) -> bool {
        now > self.created_at + self.window
    }

    /// The outcome of closing an election of at most two candidates:
    /// uncontested elections are accepted, two-candidate elections are
    /// accepted unless the tallies tie.
    pub open spec fn small_election_outcome(self) -> VoteState {
        if self.proposal_content@.len() == 1 {
            VoteState::Accepted
        } else if self.proposal_content@.len() == 2 && self.votes_yes@[0] != self.votes_yes@[1] {
            VoteState::Accepted
        } else {
            VoteState::Unresolved
        }
    }
}

/// `post` is `pre` with one election proposal appended: the next
/// sequential id, the given creator and candidate labels, an open
/// state, a zero tally, no voters, and the given window, created at
/// `now`.
pub open spec fn election_appended(
    pre: Seq<PresidentialElectionsPropose>,
    post: Seq<PresidentialElectionsPropose>,
    creator: Seq<u8>,
    content: Seq<Seq<char>>,
    window: u64,
    now: u64,
) -> bool {
    &&& post.len() == pre.len() + 1
    &&& forall|k: int| 0 <= k < pre.len() ==> post[k] == pre[k]
    &&& post.last().id == pre.len()
    &&& post.last().creator@ == creator
    &&& post.last().proposal_content.deep_view() == content
    &&& post.last().created_at == now
    &&& post.last().window == window
    &&& post.last().state == VoteState::Open
    &&& post.last().votes_yes@.len() == content.len()
    &&& forall|k: int| 0 <= k < content.len() ==> post.last().votes_yes@[k] == 0
    &&& post.last().voters@.len() == 0
}

/// What one `vote` call does: on the one proposal addressed and open,
/// not yet voted on by `voter`, with a candidate index in range, the
/// indexed tally entry rises by one and the voter is recorded; on any
/// other input the matching error is returned and nothing changes.
pub open spec fn election_vote_outcome(
    pre: Seq<PresidentialElectionsPropose>,
    post: Seq<PresidentialElectionsPropose>,
    pid: int,
    ci: int,
    voter: Seq<u8>,
    r: Result<(), ContractError>,
) -> bool {
    &&& r is Err ==> post == pre
    &&& pid >= pre.len() ==> r == Err::<(), ContractError>(ContractError::ProposeNotFound)
    &&& 0 <= pid < pre.len() && pre[pid].state != VoteState::Open ==> r == Err::<
        (),
        ContractError,
    >(ContractError::VoteNotOpen)
    &&& 0 <= pid < pre.len() && pre[pid].state == VoteState::Open && pre[pid].has_voted(voter)
        ==> r == Err::<(), ContractError>(ContractError::UserAlreadyVoted)
    &&& 0 <= pid < pre.len() && pre[pid].state == VoteState::Open && !pre[pid].has_voted(voter)
        && ci >= pre[pid].votes_yes@.len() ==> r == Err::<(), ContractError>(
        ContractError::CandidatesNotFound,
    )
    &&& r is Ok <==> 0 <= pid < pre.len() && pre[pid].state == VoteState::Open
        && !pre[pid].has_voted(voter) && 0 <= ci < pre[pid].votes_yes@.len()
    &&& r is Ok ==> post.len() == pre.len() && (forall|k: int|
        0 <= k < pre.len() && k != pid ==> post[k] == pre[k]) && ({
        let p = pre[pid];
        let q = post[pid];
        &&& q.id == p.id
        &&& q.creator == p.creator
        &&& q.proposal_content == p.proposal_content
        &&& q.created_at == p.created_at
        &&& q.window == p.window
        &&& q.state == p.state
        &&& q.votes_yes@ == p.votes_yes@.update(ci, (p.votes_yes@[ci] + 1) as u64)
        &&& q.voters@.len() == p.voters@.len() + 1
        &&& (forall|k: int| 0 <= k < p.voters@.len() ==> post[pid].voters@[k] == p.voters@[k])
        &&& q.voters@.last()@ == voter
    })
}

/// What one `close_proposal` call does, given the eligible voter count
/// and the configuration: errors for a missing id, a record no longer
/// open, or a window not yet elapsed, each leaving everything
/// unchanged; the resolution of an election of at most two candidates
/// by `small_election_outcome`; acceptance of a larger election whose
/// leader reaches the threshold; and, below it, an unresolved mark
/// together with a runoff between the two leading candidates.
pub open spec fn election_close_outcome(
    pre: Seq<PresidentialElectionsPropose>,
    post: Seq<PresidentialElectionsPropose>,
    config: Config,
    id: int,
    users_count: int,
    now: u64,
    r: Result<Option<usize>, ContractError>,
) -> bool {
    &&& r is Err ==> post == pre
    &&& id >= pre.len() ==> r == Err::<Option<usize>, ContractError>(
        ContractError::ProposeNotFound,
    )
    &&& 0 <= id < pre.len() && !(pre[id].state == VoteState::Open && pre[id].closing_due(now))
        ==> r == Err::<Option<usize>, ContractError>(ContractError::ProposeInProgress)
    &&& 0 <= id < pre.len() && pre[id].state == VoteState::Open && pre[id].closing_due(now)
        && pre[id].proposal_content@.len() <= 2 ==> r == Ok::<Option<usize>, ContractError>(None)
        && post == pre.update(id, pre[id].with_state(pre[id].small_election_outcome()))
    &&& 0 <= id < pre.len() && pre[id].state == VoteState::Open && pre[id].closing_due(now)
        && pre[id].proposal_content@.len() > 2 && election_accepted(
        pre[id].votes_yes@,
        users_count,
        config.presidential_elections_threshold,
    ) ==> r == Ok::<Option<usize>, ContractError>(None) && post == pre.update(
        id,
        pre[id].with_state(VoteState::Accepted),
    )
    &&& 0 <= id < pre.len() && pre[id].state == VoteState::Open && pre[id].closing_due(now)
        && pre[id].proposal_content@.len() > 2 && !election_accepted(
        pre[id].votes_yes@,
        users_count,
        config.presidential_elections_threshold,
    ) ==> ({
        let p = pre[id];
        &&& r == Ok::<Option<usize>, ContractError>(Some(pre.len() as usize))
        &&& exists|i1: int, i2: int|
            #![trigger is_leader(p.votes_yes@, i1), is_runner_up(p.votes_yes@, i1, i2)]
            is_leader(p.votes_yes@, i1) && is_runner_up(p.votes_yes@, i1, i2)
                && election_appended(
                pre.update(id, p.with_state(VoteState::Unresolved)),
                post,
                p.creator@,
                seq![p.proposal_content@[i1]@, p.proposal_content@[i2]@],
                config.committee_proposals_duration,
                now,
            )
    })
}

/// The projection of an election proposal handed to external callers;
/// it omits the scheduling concerns (the window) and nothing else.
pub struct PresidentialElectionsProposeCandidType {
    pub id: usize,
    pub creator: Identity,
    pub proposal_content: Vec<String>,
    pub created_at: u64,
    pub state: VoteState,
    pub votes_yes: Vec<u64>,
    pub voters: Vec<Identity>,
}

impl PresidentialElectionsProposeCandidType {
    /// The projection carries the record's data unchanged.
    pub open spec fn matches(self, p: PresidentialElectionsPropose) -> bool {
        &&& self.id == p.id
        &&& self.creator@ == p.creator@
        &&& self.proposal_content.deep_view() == p.proposal_content.deep_view()
        &&& self.created_at == p.created_at
        &&& self.state == p.state
        &&& self.votes_yes@ == p.votes_yes@
        &&& self.voters.deep_view() == p.voters.deep_view()
    }

    pub fn new(vote: &PresidentialElectionsPropose) -> (r: Self)
        ensures
            r.matches(*vote),
    {
        Self {
            id: vote.id,
            creator: vote.creator.duplicate(),
            created_at: vote.created_at,
            state: vote.state,
            votes_yes: clone_votes(&vote.votes_yes),
            voters: crate::identity::clone_identities(&vote.voters),
            proposal_content: clone_strings(&vote.proposal_content),
        }
    }
}

/// An owned copy of a list of candidate labels, character for character.
pub fn clone_strings(labels: &Vec<String>) -> (r: Vec<String>)
    ensures
        r@.len() == labels@.len(),
        r.deep_view() == labels.deep_view(),
{
    let n = labels.len();
    let mut r: Vec<String> = Vec::new();
    let mut i: usize = 0;
    while i < n
        invariant
            n == labels@.len(),
            0 <= i <= n,
            r@.len() == i,
            forall|k: int| 0 <= k < i ==> (#[trigger] r@[k])@ == labels@[k]@,
        decreases n - i,
    {
        r.push(labels[i].clone());
        i += 1;
    }
    proof {
        assert(r.deep_view() =~= labels.deep_view());
    }
    r
}

/// An owned copy of a tally.
fn clone_votes(votes: &Vec<u64>) -> (r: Vec<u64>)
    ensures
        r@ == votes@,
{
    let r = votes.clone();
    proof {
        assert(r@ =~= votes@);
    }
    r
}

/// A throwaway record used to swap a stored record out for mutation.
fn placeholder_election() -> PresidentialElectionsPropose {
    PresidentialElectionsPropose {
        id: 0,
        creator: Identity::new(Vec::new()),
        proposal_content: Vec::new(),
        created_at: 0,
        window: 0,
        state: VoteState::Open,
        votes_yes: Vec::new(),
        voters: Vec::new(),
    }
}

/// Whether the window that began at `created_at` has elapsed at `now`.
pub(crate) fn window_elapsed(created_at: u64, window: u64, now: u64) -> (r: bool)
    ensures
        r == (now > created_at + window),
{
    (now as u128) > (created_at as u128) + (window as u128)
}

/// The position a stable sort of the tally, descending, would put
/// first.
fn leading_index(votes: &Vec<u64>) -> (lead: usize)
    requires
        votes@.len() > 0,
    ensures
        is_leader(votes@, lead as int),
{
    let mut best: usize = 0;
    let mut i: usize = 1;
    while i < votes.len()
        invariant
            0 <= best < i <= votes@.len(),
            forall|j: int| 0 <= j < i ==> votes@[j] <= votes@[best as int],
            forall|j: int| 0 <= j < best ==> votes@[j] < votes@[best as int],
        decreases votes@.len() - i,
    {
        if votes[i] > votes[best] {
            best = i;
        }
        i += 1;
    }
    best
}

/// The position such a sort would put second, given the leader's
/// position.
fn runner_up_index(votes: &Vec<u64>, lead: usize) -> (ru: usize)
    requires
        votes@.len() >= 2,
        lead < votes@.len(),
    ensures
        is_runner_up(votes@, lead as int, ru as int),
{
    let mut best: usize = if lead == 0 {
        1
    } else {
        0
    };
    let mut i: usize = best + 1;
    while i < votes.len()
        invariant
            lead < votes@.len(),
            0 <= best < i,
            i <= votes@.len(),
            best != lead,
            forall|j: int| 0 <= j < i && j != lead ==> votes@[j] <= votes@[best as int],
            forall|j: int| 0 <= j < best && j != lead ==> votes@[j] < votes@[best as int],
        decreases votes@.len() - i,
    {
        if i != lead && votes[i] > votes[best] {
            best = i;
        }
        i += 1;
    }
    best
}

/// The store of election proposals, in creation order; a record's `id`
/// is its position.
pub struct PresidentialElectionsProposals(pub Vec<PresidentialElectionsPropose>);

impl PresidentialElectionsProposals {
    /// Every stored record is well-formed and sits at the position its
    /// `id` names.
    pub open spec fn wf(self) -> bool {
        forall|i: int|
            0 <= i < self.0@.len() ==> (#[trigger] self.0@[i]).id == i && self.0@[i].wf()
    }

    pub fn default() -> (r: Self)
        ensures
            r.0@.len() == 0,
            r.wf(),
    {
        PresidentialElectionsProposals(Vec::new())
    }

    fn next_id(&self) -> (r: usize)
        ensures
            r == self.0@.len(),
    {
        self.0.len()
    }

    /// The read-only projection of every stored record.
    pub fn get(&self) -> (r: Vec<PresidentialElectionsProposeCandidType>)
        ensures
            r@.len() == self.0@.len(),
            forall|i: int| 0 <= i < r@.len() ==> (#[trigger] r@[i]).matches(self.0@[i]),
    {
        let n = self.0.len();
        let mut r: Vec<PresidentialElectionsProposeCandidType> = Vec::new();
        let mut i: usize = 0;
        while i < n
            invariant
                n == self.0@.len(),
                0 <= i <= n,
                r@.len() == i,
                forall|k: int| 0 <= k < i ==> (#[trigger] r@[k]).matches(self.0@[k]),
            decreases n - i,
        {
            r.push(PresidentialElectionsProposeCandidType::new(&self.0[i]));
            i += 1;
        }
        r
    }

    /// Opens a new election proposal over the given candidate list: the
    /// next sequential id, an open state, a zero tally, no voters, and
    /// the window configured at creation time.
    pub fn create_proposal(
        &mut self,
        config: &Config,
        creator: Identity,
        proposal_content: &Vec<String>,
        now: u64,
    ) -> (id: usize)
        requires
            old(self).wf(),
        ensures
            final(self).wf(),
            id == old(self).0@.len(),
            final(self).0@.last().creator == creator,
            election_appended(
                old(self).0@,
                final(self).0@,
                creator@,
                proposal_content.deep_view(),
                config.committee_proposals_duration,
                now,
            ),
    {
        let id = self.next_id();

        let n = proposal_content.len();
        let mut votes: Vec<u64> = Vec::new();
        let mut i: usize = 0;
        while i < n
            invariant
                0 <= i <= n,
                votes@.len() == i,
                forall|k: int| 0 <= k < i ==> votes@[k] == 0,
                tally_sum(votes@) == 0,
            decreases n - i,
        {
            proof {
                lemma_tally_sum_push(votes@, 0);
            }
            votes.push(0);
            i += 1;
        }

        self.0.push(
            PresidentialElectionsPropose {
                id,
                creator,
                proposal_content: clone_strings(proposal_content),
                created_at: now,
                window: config.committee_proposals_duration,
                state: VoteState::Open,
                votes_yes: votes,
                voters: Vec::new(),
            },
        );
        id
    }

    /// Moves the record at `id` to another lifecycle state.
    fn set_state(&mut self, id: usize, state: VoteState)
        requires
            id < old(self).0@.len(),
        ensures
            final(self).0@ == old(self).0@.update(
                id as int,
                old(self).0@[id as int].with_state(state),
            ),
    {
        let mut p = placeholder_election();
        self.0.set_and_swap(id, &mut p);
        p.state = state;
        self.0.set_and_swap(id, &mut p);
        proof {
            assert(self.0@ =~= old(self).0@.update(
                id as int,
                old(self).0@[id as int].with_state(state),
            ));
        }
    }

    /// Records one vote for the candidate at `candidate_index`: the
    /// single mutation available while a proposal is open. Exactly one
    /// tally entry rises by one and the voter is recorded, so a voter
    /// can never contribute more than one vote to the same proposal.
    pub fn vote(&mut self, voter: Identity, propose_id: usize, candidate_index: &usize) -> (r:
        Result<(), ContractError>)
        requires
            old(self).wf(),
        ensures
            final(self).wf(),
            r is Err ==> *final(self) == *old(self),
            election_vote_outcome(
                old(self).0@,
                final(self).0@,
                propose_id as int,
                *candidate_index as int,
                voter@,
                r,
            ),
    {
        if propose_id >= self.0.len() {
            return Err(ContractError::ProposeNotFound);
        }
        if !(self.0[propose_id].state == VoteState::Open) {
            return Err(ContractError::VoteNotOpen);
        }
        if contains_identity(&self.0[propose_id].voters, &voter) {
            return Err(ContractError::UserAlreadyVoted);
        }
        let ci = *candidate_index;
        if ci >= self.0[propose_id].votes_yes.len() {
            return Err(ContractError::CandidatesNotFound);
        }

        let ghost p = self.0@[propose_id as int];
        let mut record = placeholder_election();
        self.0.set_and_swap(propose_id, &mut record);
        record.voters.push(voter);
        let _voters_now: usize = record.voters.len();
        proof {
            lemma_tally_sum_le(p.votes_yes@, ci as int);
        }
        let current = record.votes_yes[ci];
        record.votes_yes.set(ci, current + 1);
        proof {
            lemma_tally_sum_update(p.votes_yes@, ci as int, (current + 1) as u64);
        }
        self.0.set_and_swap(propose_id, &mut record);
        proof {
            assert(final(self).wf()) by {
                assert forall|k: int| 0 <= k < self.0@.len() implies (#[trigger] self.0@[k]).id
                    == k && self.0@[k].wf() by {
                    if k != propose_id {
                        assert(self.0@[k] == old(self).0@[k]);
                    }
                }
            }
        }
        Ok(())
    }

    /// Evaluates the record at `id` for closing at time `now`, given
    /// the number of eligible voters. A missing id is reported as
    /// `ProposeNotFound`; a record that is no longer open, or whose
    /// window has not yet elapsed, as `ProposeInProgress` — closing is
    /// evaluated at most once, and a second call mutates nothing.
    /// Elections of at most two candidates resolve by
    /// `small_election_outcome`; larger ones are accepted exactly when
    /// the leader's share reaches the threshold, and otherwise are
    /// marked unresolved while a two-candidate runoff between the two
    /// leading candidates is opened, whose id is handed back.
    pub fn close_proposal(&mut self, config: &Config, id: usize, users_count: usize, now: u64) -> (r:
        Result<Option<usize>, ContractError>)
        requires
            old(self).wf(),
            users_count > 0,
        ensures
            final(self).wf(),
            election_close_outcome(
                old(self).0@,
                final(self).0@,
                *config,
                id as int,
                users_count as int,
                now,
                r,
            ),
    {
        if id >= self.0.len() {
            return Err(ContractError::ProposeNotFound);
        }
        if !(self.0[id].state == VoteState::Open) {
            return Err(ContractError::ProposeInProgress);
        }
        if !window_elapsed(self.0[id].created_at, self.0[id].window, now) {
            return Err(ContractError::ProposeInProgress);
        }

        let ghost p = self.0@[id as int];
        let content_len = self.0[id].proposal_content.len();
        if content_len <= 2 {
            let outcome = if content_len == 1 {
                VoteState::Accepted
            } else if content_len == 2 && self.0[id].votes_yes[0] != self.0[id].votes_yes[1] {
                VoteState::Accepted
            } else {
                VoteState::Unresolved
            };
            proof {
                assert(outcome == p.small_election_outcome());
            }
            self.set_state(id, outcome);
            proof {
                lemma_wf_after_set_state(*old(self), *self, id as int, outcome);
            }
            return Ok(None);
        }

        let lead = leading_index(&self.0[id].votes_yes);
        let max_yes = self.0[id].votes_yes[lead];
        let threshold = config.presidential_elections_threshold;
        let accepted = (max_yes as u128) * 10000 / (users_count as u128) >= (threshold as u128);
        proof {
            if accepted {
                assert(election_accepted(p.votes_yes@, users_count as int, threshold));
            } else {
                assert forall|j: int| #[trigger]
                    is_leader(p.votes_yes@, j) implies !(p.votes_yes@[j] * 10000 / (
                users_count as int) >= threshold) by {
                    lemma_leader_unique(p.votes_yes@, lead as int, j);
                }
            }
        }

        if accepted {
            self.set_state(id, VoteState::Accepted);
            proof {
                lemma_wf_after_set_state(*old(self), *self, id as int, VoteState::Accepted);
            }
            return Ok(None);
        }

        let ru = runner_up_index(&self.0[id].votes_yes, lead);
        let mut two: Vec<String> = Vec::new();
        two.push(self.0[id].proposal_content[lead].clone());
        two.push(self.0[id].proposal_content[ru].clone());
        let creator = self.0[id].creator.duplicate();
        self.set_state(id, VoteState::Unresolved);
        proof {
            lemma_wf_after_set_state(*old(self), *self, id as int, VoteState::Unresolved);
        }
        let new_id = self.create_proposal(config, creator, &two, now);
        proof {
            assert(two.deep_view() =~= seq![
                p.proposal_content@[lead as int]@,
                p.proposal_content@[ru as int]@,
            ]);
            assert(is_leader(p.votes_yes@, lead as int) && is_runner_up(
                p.votes_yes@,
                lead as int,
                ru as int,
            ) && final(self).0@.last().proposal_content.deep_view() == seq![
                p.proposal_content@[lead as int]@,
                p.proposal_content@[ru as int]@,
            ]);
        }
        Ok(Some(new_id))
    }
}

/// No double voting: a well-formed election proposal records any
/// single identity at most once, and its tally total equals the
/// number of recorded voters, so one voter contributes at most one
/// vote across all candidates.
pub proof fn lemma_no_double_voting_election(p: PresidentialElectionsPropose, id: Seq<u8>)
    requires
        p.wf(),
    ensures
        crate::identity::identity_count(p.voters@, id) <= 1,
        tally_sum(p.votes_yes@) == p.voters@.len(),
{
    crate::identity::lemma_no_double_voting(p.voters@, id);
}

/// Closing monotonicity: a vote cast on a proposal that has left
/// `Open` is refused and mutates nothing.
pub proof fn lemma_vote_on_closed_is_no_op(
    pre: Seq<PresidentialElectionsPropose>,
    post: Seq<PresidentialElectionsPropose>,
    pid: int,
    ci: int,
    voter: Seq<u8>,
    r: Result<(), ContractError>,
)
    requires
        0 <= pid < pre.len(),
        pre[pid].state != VoteState::Open,
        election_vote_outcome(pre, post, pid, ci, voter, r),
    ensures
        r == Err::<(), ContractError>(ContractError::VoteNotOpen),
        post == pre,
{
}

/// Closing monotonicity: closing a proposal that has already left
/// `Open` is refused and mutates nothing.
pub proof fn lemma_close_on_closed_is_no_op(
    pre: Seq<PresidentialElectionsPropose>,
    post: Seq<PresidentialElectionsPropose>,
    config: Config,
    id: int,
    users_count: int,
    now: u64,
    r: Result<Option<usize>, ContractError>,
)
    requires
        0 <= id < pre.len(),
        pre[id].state != VoteState::Open,
        election_close_outcome(pre, post, config, id, users_count, now, r),
    ensures
        r == Err::<Option<usize>, ContractError>(ContractError::ProposeInProgress),
        post == pre,
{
}

/// Idempotent closing: once a close call has resolved a proposal, a
/// second close of the same id reports `ProposeInProgress` and
/// mutates nothing.
pub proof fn lemma_close_idempotent(
    pre: Seq<PresidentialElectionsPropose>,
    mid: Seq<PresidentialElectionsPropose>,
    post: Seq<PresidentialElectionsPropose>,
    config: Config,
    id: int,
    users_count: int,
    now1: u64,
    now2: u64,
    r1: Result<Option<usize>, ContractError>,
    r2: Result<Option<usize>, ContractError>,
)
    requires
        id >= 0,
        r1 is Ok,
        election_close_outcome(pre, mid, config, id, users_count, now1, r1),
        election_close_outcome(mid, post, config, id, users_count, now2, r2),
    ensures
        r2 == Err::<Option<usize>, ContractError>(ContractError::ProposeInProgress),
        post == mid,
{
    assert(0 <= id < pre.len());
    assert(pre[id].state == VoteState::Open && pre[id].closing_due(now1));
    assert(mid[id].state != VoteState::Open);
    lemma_close_on_closed_is_no_op(mid, post, config, id, users_count, now2, r2);
}

/// Changing only a record's state preserves the store's
/// well-formedness.
proof fn lemma_wf_after_set_state(
    pre: PresidentialElectionsProposals,
    post: PresidentialElectionsProposals,
    id: int,
    state: VoteState,
)
    requires
        pre.wf(),
        0 <= id < pre.0@.len(),
        post.0@ == pre.0@.update(id, pre.0@[id].with_state(state)),
    ensures
        post.wf(),
{
    assert forall|i: int| 0 <= i < post.0@.len() implies (#[trigger] post.0@[i]).id == i
        && post.0@[i].wf() by {
        if i != id {
            assert(post.0@[i] == pre.0@[i]);
        }
    }
}

} // verus!
