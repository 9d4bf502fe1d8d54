use vstd::prelude::*;

use crate::errors::ContractError;
use crate::identity::Identity;
use crate::types::Role;
use crate::types::User;

verus! {

/// `j` is the position of the first user activated with identity `id`.
pub open spec fn is_first_identity_match(users: Seq<User>, id: Seq<u8>, j: int) -> bool {
    &&& 0 <= j < users.len()
    &&& users[j].has_identity(id)
    &&& forall|k: int| 0 <= k < j ==> !(#[trigger] users[k]).has_identity(id)
}

/// Some user has activated with identity `id`.
pub open spec fn some_user_has_identity(users: Seq<User>, id: Seq<u8>) -> bool {
    exists|j: int| 0 <= j < users.len() && (#[trigger] users[j]).has_identity(id)
}

/// `j` is the position of the first user registered under entry identity `id`.
pub open spec fn is_first_entry_match(users: Seq<User>, id: Seq<u8>, j: int) -> bool {
    &&& 0 <= j < users.len()
    &&& users[j].entry_identity@ == id
    &&& forall|k: int| 0 <= k < j ==> (#[trigger] users[k]).entry_identity@ != id
}

/// Some user is registered under entry identity `id`.
pub open spec fn some_user_has_entry_identity(users: Seq<User>, id: Seq<u8>) -> bool {
    exists|j: int| 0 <= j < users.len() && (#[trigger] users[j]).entry_identity@ == id
}

/// The number of users holding the `Committee` role.
pub open spec fn count_committee(users: Seq<User>) -> nat
    decreases users.len(),
{
    if users.len() == 0 {
        0
    } else {
        count_committee(users.drop_last()) + if users.last().role == Role::Committee {
            1nat
        } else {
            0nat
        }
    }
}

/// Whether `user` has activated with the identity `id`.
fn identity_matches(user: &User, id: &Identity) -> (r: bool)
    ensures
        r == user.has_identity(id@),
{
    match &user.identity {
        Some(own) => own == id,
        None => false,
    }
}

/// Whether `user` is registered under the entry identity `id`.
fn entry_identity_matches(user: &User, id: &Identity) -> (r: bool)
    ensures
        r == (user.entry_identity@ == id@),
{
    user.entry_identity.eq(id)
}

/// A throwaway user value, used to swap a stored user out for mutation.
fn placeholder_user() -> User {
    User {
        entry_identity: Identity::new(Vec::new()),
        identity: None,
        identity_seed: None,
        role: Role::User,
    }
}

/// The membership store: every registered user, in registration order.
pub struct Users(pub Vec<User>);

impl Users {
    pub fn default() -> (r: Self)
        ensures
            r.0@.len() == 0,
    {
        Users(Vec::new())
    }

    pub fn len(&self) -> (r: usize)
        ensures
            r == self.0@.len(),
    {
        self.0.len()
    }

    pub fn push(&mut self, user: User)
        ensures
            final(self).0@ == old(self).0@.push(user),
    {
        self.0.push(user)
    }

    /// Whether the (activated) user with the given identity is in the
    /// committee; `UserNotFound` when no user has that identity.
    pub fn is_in_committee(&self, identity: &Identity) -> (r: Result<bool, ContractError>)
        ensures
            r is Ok <==> some_user_has_identity(self.0@, identity@),
            r is Ok ==> exists|j: int|
                #[trigger] is_first_identity_match(self.0@, identity@, j) && r->Ok_0 == (
                self.0@[j].role == Role::Committee),
            r is Err ==> r == Err::<bool, ContractError>(ContractError::UserNotFound),
    {
        let n = self.0.len();
        let mut i: usize = 0;
        while i < n
            invariant
                n == self.0@.len(),
                0 <= i <= n,
                forall|k: int| 0 <= k < i ==> !(#[trigger] self.0@[k]).has_identity(identity@),
            decreases n - i,
        {
            if identity_matches(&self.0[i], identity) {
                proof {
                    assert(is_first_identity_match(self.0@, identity@, i as int));
                }
                return Ok(self.0[i].is_in_committee());
            }
            i += 1;
        }
        Err(ContractError::UserNotFound)
    }

    /// The position of the first user activated with the given identity;
    /// callers use the position to address the user for mutation.
    pub fn get_mut_user_by_identity(&self, caller: &Identity) -> (r: Option<usize>)
        ensures
            r is Some <==> some_user_has_identity(self.0@, caller@),
            r is Some ==> is_first_identity_match(self.0@, caller@, r->0 as int),
    {
        let n = self.0.len();
        let mut i: usize = 0;
        while i < n
            invariant
                n == self.0@.len(),
                0 <= i <= n,
                forall|k: int| 0 <= k < i ==> !(#[trigger] self.0@[k]).has_identity(caller@),
            decreases n - i,
        {
            if identity_matches(&self.0[i], caller) {
                proof {
                    assert(is_first_identity_match(self.0@, caller@, i as int));
                }
                return Some(i);
            }
            i += 1;
        }
        None
    }

    /// Records the activation of the first user registered under the
    /// caller's entry identity; `UserNotFound` when there is none.
    pub fn activate_user(&mut self, caller: &Identity, identity: Identity, identity_seed: String) -> (r:
        Result<(), ContractError>)
        ensures
            r is Ok <==> some_user_has_entry_identity(old(self).0@, caller@),
            r is Ok ==> exists|j: int|
                #[trigger] is_first_entry_match(old(self).0@, caller@, j) && final(self).0@ == old(
                    self,
                ).0@.update(j, old(self).0@[j].activate_spec(identity, identity_seed)),
            r is Err ==> *final(self) == *old(self) && r == Err::<(), ContractError>(
                ContractError::UserNotFound,
            ),
    {
        let n = self.0.len();
        let mut i: usize = 0;
        while i < n
            invariant
                n == self.0@.len(),
                *self == *old(self),
                0 <= i <= n,
                forall|k: int| 0 <= k < i ==> (#[trigger] self.0@[k]).entry_identity@ != caller@,
            decreases n - i,
        {
            if entry_identity_matches(&self.0[i], caller) {
                proof {
                    assert(is_first_entry_match(old(self).0@, caller@, i as int));
                }
                let mut user = placeholder_user();
                self.0.set_and_swap(i, &mut user);
                user.activate(identity, identity_seed);
                self.0.set_and_swap(i, &mut user);
                proof {
                    assert(self.0@ =~= old(self).0@.update(
                        i as int,
                        old(self).0@[i as int].activate_spec(identity, identity_seed),
                    ));
                }
                return Ok(());
            }
            i += 1;
        }
        Err(ContractError::UserNotFound)
    }

    /// The seed of the first user registered under the given entry
    /// identity; `UserNotFound` when there is no such user or the user
    /// has not activated.
    pub fn get_seed_by_entry_identity(&self, identity: &Identity) -> (r: Result<
        String,
        ContractError,
    >)
        ensures
            r is Ok <==> exists|j: int|
                #[trigger] is_first_entry_match(self.0@, identity@, j)
                    && self.0@[j].identity_seed is Some,
            r is Ok ==> exists|j: int|
                #[trigger] is_first_entry_match(self.0@, identity@, j) && r->Ok_0@
                    == self.0@[j].identity_seed->0@,
            r is Err ==> r == Err::<String, ContractError>(ContractError::UserNotFound),
    {
        let n = self.0.len();
        let mut i: usize = 0;
        while i < n
            invariant
                n == self.0@.len(),
                0 <= i <= n,
                forall|k: int| 0 <= k < i ==> (#[trigger] self.0@[k]).entry_identity@ != identity@,
            decreases n - i,
        {
            if entry_identity_matches(&self.0[i], identity) {
                proof {
                    assert(is_first_entry_match(self.0@, identity@, i as int));
                    assert forall|j: int| #[trigger]
                        is_first_entry_match(self.0@, identity@, j) implies j == i as int by {
                        if j < i as int {
                            assert(self.0@[j].entry_identity@ != identity@);
                        } else if j > i as int {
                            assert(self.0@[i as int].entry_identity@ == identity@);
                        }
                    }
                }
                match self.0[i].get_user_seed() {
                    Some(seed) => {
                        return Ok(seed.clone());
                    },
                    None => {
                        return Err(ContractError::UserNotFound);
                    },
                }
            }
            i += 1;
        }
        Err(ContractError::UserNotFound)
    }

    /// The number of committee members.
    pub fn get_committee_size(&self) -> (r: usize)
        ensures
            r == count_committee(self.0@),
    {
        let n = self.0.len();
        let mut count: usize = 0;
        let mut i: usize = 0;
        while i < n
            invariant
                n == self.0@.len(),
                0 <= i <= n,
                count <= i,
                count == count_committee(self.0@.take(i as int)),
            decreases n - i,
        {
            proof {
                assert(self.0@.take(i + 1).drop_last() =~= self.0@.take(i as int));
                assert(self.0@.take(i + 1).last() == self.0@[i as int]);
            }
            if self.0[i].is_in_committee() {
                count += 1;
            }
            i += 1;
        }
        proof {
            assert(self.0@.take(n as int) =~= self.0@);
        }
        count
    }
}

/// `post` is `pre` with one user registered per entry identity in
/// `ids`, in order, as plain members awaiting activation.
pub open spec fn users_extended(pre: Seq<User>, post: Seq<User>, ids: Seq<Identity>) -> bool {
    &&& post.len() == pre.len() + ids.len()
    &&& forall|k: int| 0 <= k < pre.len() ==> post[k] == pre[k]
    &&& forall|k: int|
        0 <= k < ids.len() ==> (#[trigger] post[pre.len() + k]).entry_identity@ == ids[k]@
            && post[pre.len() + k].identity is None && post[pre.len() + k].identity_seed is None
            && post[pre.len() + k].role == Role::User
}

/// `post` is `pre` with the first user activated under identity `id`
/// moved to `role`, all else unchanged.
pub open spec fn user_role_set(pre: Seq<User>, post: Seq<User>, id: Seq<u8>, role: Role) -> bool {
    exists|j: int|
        #[trigger] is_first_identity_match(pre, id, j) && post == pre.update(
            j,
            (User { role, ..pre[j] }),
        )
}

/// Registers each entry identity as a fresh, non-committee member.
pub fn register_new_entry_identities(users: &mut Users, entry_identities: &Vec<Identity>)
    ensures
        users_extended(old(users).0@, final(users).0@, entry_identities@),
{
    let n = entry_identities.len();
    let mut i: usize = 0;
    while i < n
        invariant
            n == entry_identities@.len(),
            0 <= i <= n,
            users_extended(old(users).0@, users.0@, entry_identities@.take(i as int)),
        decreases n - i,
    {
        users.push(User::new(&entry_identities[i]));
        i += 1;
    }
    proof {
        assert(entry_identities@.take(n as int) =~= entry_identities@);
    }
}

/// Promotes the first user activated under the given identity to the
/// committee; `UserNotFound` when no user has that identity.
pub fn promote_user(users: &mut Users, user_identity: &Identity) -> (r: Result<(), ContractError>)
    ensures
        r is Ok <==> some_user_has_identity(old(users).0@, user_identity@),
        r is Ok ==> user_role_set(old(users).0@, final(users).0@, user_identity@, Role::Committee),
        r is Err ==> *final(users) == *old(users) && r == Err::<(), ContractError>(
            ContractError::UserNotFound,
        ),
{
    set_user_role(users, user_identity, Role::Committee)
}

/// Demotes the first user activated under the given identity to a
/// plain member; `UserNotFound` when no user has that identity.
pub fn demote_user(users: &mut Users, user_identity: &Identity) -> (r: Result<(), ContractError>)
    ensures
        r is Ok <==> some_user_has_identity(old(users).0@, user_identity@),
        r is Ok ==> user_role_set(old(users).0@, final(users).0@, user_identity@, Role::User),
        r is Err ==> *final(users) == *old(users) && r == Err::<(), ContractError>(
            ContractError::UserNotFound,
        ),
{
    set_user_role(users, user_identity, Role::User)
}

fn set_user_role(users: &mut Users, user_identity: &Identity, role: Role) -> (r: Result<
    (),
    ContractError,
>)
    ensures
        r is Ok <==> some_user_has_identity(old(users).0@, user_identity@),
        r is Ok ==> user_role_set(old(users).0@, final(users).0@, user_identity@, role),
        r is Err ==> *final(users) == *old(users) && r == Err::<(), ContractError>(
            ContractError::UserNotFound,
        ),
{
    match users.get_mut_user_by_identity(user_identity) {
        Some(i) => {
            let mut user = placeholder_user();
            users.0.set_and_swap(i, &mut user);
            user.role = role;
            users.0.set_and_swap(i, &mut user);
            proof {
                assert(users.0@ =~= old(users).0@.update(
                    i as int,
                    (User { role, ..old(users).0@[i as int] }),
                ));
            }
            Ok(())
        },
        None => Err(ContractError::UserNotFound),
    }
}

} // verus!
