use vstd::prelude::*;

use crate::errors::ContractError;

verus! {

/// An identity on the system: the byte representation of a principal.
/// Two identities are the same exactly when their bytes are the same.
#[derive(Clone, Debug)]
pub struct Identity {
    pub bytes: Vec<u8>,
}

impl View for Identity {
    type V = Seq<u8>;

    open spec fn view(&self) -> Seq<u8> {
        self.bytes@
    }
}

impl DeepView for Identity {
    type V = Seq<u8>;

    open spec fn deep_view(&self) -> Seq<u8> {
        self@
    }
}

/// Byte-wise equality of two vectors.
fn bytes_equal(a: &Vec<u8>, b: &Vec<u8>) -> (r: bool)
    ensures
        r == (a@ == b@),
{
    if a.len() != b.len() {
        assert(a@ != b@);
        return false;
    }
    let n = a.len();
    let mut i: usize = 0;
    while i < n
        invariant
            n == a@.len() == b@.len(),
            0 <= i <= n,
            forall|j: int| 0 <= j < i ==> a@[j] == b@[j],
        decreases n - i,
    {
        if a[i] != b[i] {
            return false;
        }
        i += 1;
    }
    proof {
        assert(a@ =~= b@);
    }
    true
}

impl PartialEq for Identity {
    fn eq(&self, other: &Identity) -> (r: bool) {
        bytes_equal(&self.bytes, &other.bytes)
    }
}

impl vstd::std_specs::cmp::PartialEqSpecImpl for Identity {
    open spec fn obeys_eq_spec() -> bool {
        true
    }

    open spec fn eq_spec(&self, other: &Identity) -> bool {
        self@ == other@
    }
}

/// The byte representation of the anonymous principal.
pub open spec fn anonymous_bytes() -> Seq<u8> {
    seq![4u8]
}

/// Relies on candid's Principal::anonymous (with Principal::as_slice): the
/// anonymous principal is represented by the single tag byte 0x04.
#[verifier::external_body]
fn anonymous_principal_bytes() -> (r: Vec<u8>)
    ensures
        r@ == anonymous_bytes(),
{
    candid::Principal::anonymous().as_slice().to_vec()
}

impl Identity {
    pub fn new(bytes: Vec<u8>) -> (r: Identity)
        ensures
            r@ == bytes@,
    {
        Identity { bytes }
    }

    /// An owned copy of this identity, byte for byte.
    pub fn duplicate(&self) -> (r: Identity)
        ensures
            r@ == self@,
    {
        let bytes = self.bytes.clone();
        proof {
            assert(bytes@ =~= self.bytes@);
        }
        Identity { bytes }
    }

    pub open spec fn is_anonymous_spec(&self) -> bool {
        self@ == anonymous_bytes()
    }

    /// Whether this identity is the anonymous principal.
    pub fn is_anonymous(&self) -> (r: bool)
        ensures
            r == self.is_anonymous_spec(),
    {
        let anon = anonymous_principal_bytes();
        bytes_equal(&self.bytes, &anon)
    }
}

/// Some element of `ids` has the byte representation `id`.
pub open spec fn seq_contains_identity(ids: Seq<Identity>, id: Seq<u8>) -> bool {
    exists|i: int| 0 <= i < ids.len() && (#[trigger] ids[i])@ == id
}

/// No identity occurs twice in `ids`.
pub open spec fn unique_identities(ids: Seq<Identity>) -> bool {
    forall|i: int, j: int| 0 <= i < j < ids.len() ==> (#[trigger] ids[i])@ != (#[trigger] ids[j])@
}

/// How often the identity `id` occurs in `ids`.
pub open spec fn identity_count(ids: Seq<Identity>, id: Seq<u8>) -> nat
    decreases ids.len(),
{
    if ids.len() == 0 {
        0
    } else {
        identity_count(ids.drop_last(), id) + if ids.last()@ == id {
            1nat
        } else {
            0nat
        }
    }
}

proof fn lemma_identity_count_zero(ids: Seq<Identity>, id: Seq<u8>)
    requires
        forall|i: int| 0 <= i < ids.len() ==> (#[trigger] ids[i])@ != id,
    ensures
        identity_count(ids, id) == 0,
    decreases ids.len(),
{
    if ids.len() > 0 {
        lemma_identity_count_zero(ids.drop_last(), id);
    }
}

/// No double voting: in a voter list without duplicate identities — the
/// invariant every proposal maintains — any single identity is recorded
/// at most once, so one voter contributes at most one vote to a tally.
pub proof fn lemma_no_double_voting(ids: Seq<Identity>, id: Seq<u8>)
    requires
        unique_identities(ids),
    ensures
        identity_count(ids, id) <= 1,
    decreases ids.len(),
{
    if ids.len() > 0 {
        lemma_no_double_voting(ids.drop_last(), id);
        if ids.last()@ == id {
            assert forall|i: int| 0 <= i < ids.len() - 1 implies (#[trigger] ids.drop_last()[i])@
                != id by {
                assert(ids[i]@ != ids[ids.len() - 1]@);
            }
            lemma_identity_count_zero(ids.drop_last(), id);
        }
    }
}

/// Whether `ids` holds an identity with the bytes of `id`.
pub fn contains_identity(ids: &Vec<Identity>, id: &Identity) -> (r: bool)
    ensures
        r == seq_contains_identity(ids@, id@),
{
    let n = ids.len();
    let mut i: usize = 0;
    while i < n
        invariant
            n == ids@.len(),
            0 <= i <= n,
            forall|k: int| 0 <= k < i ==> (#[trigger] ids@[k])@ != id@,
        decreases n - i,
    {
        if ids[i].eq(id) {
            return true;
        }
        i += 1;
    }
    false
}

/// An owned copy of a list of identities, byte for byte.
pub fn clone_identities(ids: &Vec<Identity>) -> (r: Vec<Identity>)
    ensures
        r@.len() == ids@.len(),
        r.deep_view() == ids.deep_view(),
{
    let n = ids.len();
    let mut r: Vec<Identity> = Vec::new();
    let mut i: usize = 0;
    while i < n
        invariant
            n == ids@.len(),
            0 <= i <= n,
            r@.len() == i,
            forall|k: int| 0 <= k < i ==> (#[trigger] r@[k])@ == ids@[k]@,
        decreases n - i,
    {
        r.push(ids[i].duplicate());
        i += 1;
    }
    proof {
        assert(r.deep_view() =~= ids.deep_view());
    }
    r
}

/// Every externally reachable operation refuses calls made by the
/// anonymous principal; this is the shared caller check.
pub fn validate_caller(caller: &Identity) -> (r: Result<(), ContractError>)
    ensures
        r is Ok <==> !caller.is_anonymous_spec(),
        r is Err ==> r == Err::<(), ContractError>(ContractError::AnonymousCaller),
{
    if caller.is_anonymous() {
        Err(ContractError::AnonymousCaller)
    } else {
        Ok(())
    }
}

} // verus!
