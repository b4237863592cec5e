use vstd::prelude::*;

use crate::error::ProposalError;

verus! {

/// Length in bytes of a proposal identifier.
pub const PROPOSAL_ID_LEN: usize = 32;

/// A 32-byte opaque proposal identifier.
#[derive(Clone, Copy, Debug, PartialEq, Eq, Hash)]
pub struct ProposalId(pub [u8; 32]);

impl View for ProposalId {
    type V = Seq<u8>;

    open spec fn view(&self) -> Seq<u8> {
        self.0@
    }
}

impl ProposalId {
    /// The identifier made of the 32 bytes of `b`.
    pub fn from_bytes(b: &[u8]) -> (r: ProposalId)
        requires
            b@.len() == PROPOSAL_ID_LEN,
        ensures
            r@ == b@,
    {
        let mut a: [u8; 32] = [0u8; 32];
        let mut i: usize = 0;
        while i < PROPOSAL_ID_LEN
            invariant
                i <= PROPOSAL_ID_LEN,
                b@.len() == PROPOSAL_ID_LEN,
                a@.len() == PROPOSAL_ID_LEN,
                forall|k: int| 0 <= k < i ==> a@[k] == b@[k],
            decreases PROPOSAL_ID_LEN - i,
        {
            a[i] = b[i];
            i = i + 1;
        }
        assert(a@ =~= b@);
        ProposalId(a)
    }

    /// Whether the two identifiers hold the same bytes.
    pub fn same_as(&self, other: &ProposalId) -> (r: bool)
        ensures
            r == (self@ == other@),
    {
        let mut i: usize = 0;
        while i < PROPOSAL_ID_LEN
            invariant
                i <= PROPOSAL_ID_LEN,
                self@.len() == PROPOSAL_ID_LEN,
                other@.len() == PROPOSAL_ID_LEN,
                forall|k: int| 0 <= k < i ==> self@[k] == other@[k],
            decreases PROPOSAL_ID_LEN - i,
        {
            if self.0[i] != other.0[i] {
                return false;
            }
            i = i + 1;
        }
        assert(self@ =~= other@);
        true
    }
}

/// What an identifier drawn from the random bytes `seed` is: its first 32 bytes,
/// or `InsufficientEntropy` where fewer are available.
pub open spec fn id_from_seed(seed: Seq<u8>) -> Result<Seq<u8>, ProposalError> {
    if seed.len() < PROPOSAL_ID_LEN {
        Err(ProposalError::InsufficientEntropy)
    } else {
        Ok(seed.subrange(0, PROPOSAL_ID_LEN as int))
    }
}

/// Takes a proposal identifier from the random bytes `seed`.
pub fn proposal_id_from_seed(seed: &[u8]) -> (r: Result<ProposalId, ProposalError>)
    ensures
        match (r, id_from_seed(seed@)) {
            (Ok(id), Ok(b)) => id@ == b,
            (Err(e), Err(f)) => e == f,
            _ => false,
        },
{
    if seed.len() < PROPOSAL_ID_LEN {
        return Err(ProposalError::InsufficientEntropy);
    }
    let mut a: [u8; 32] = [0u8; 32];
    let mut i: usize = 0;
    while i < PROPOSAL_ID_LEN
        invariant
            i <= PROPOSAL_ID_LEN <= seed@.len(),
            a@.len() == PROPOSAL_ID_LEN,
            forall|k: int| 0 <= k < i ==> a@[k] == seed@[k],
        decreases PROPOSAL_ID_LEN - i,
    {
        a[i] = seed[i];
        i = i + 1;
    }
    assert(a@ =~= seed@.subrange(0, PROPOSAL_ID_LEN as int));
    Ok(ProposalId(a))
}

/// Relies on <rand::rngs::OsRng as RngCore>::try_fill_bytes: 32 bytes from the
/// operating system's entropy source, or none where that source fails. Nothing
/// is known of the values.
#[verifier::external_body]
fn random_seed() -> (r: Vec<u8>)
    ensures
        r@.len() == PROPOSAL_ID_LEN || r@.len() == 0,
{
    let mut bytes = [0u8; 32];
    match rand::RngCore::try_fill_bytes(&mut rand::rngs::OsRng, &mut bytes) {
        Ok(()) => bytes.to_vec(),
        Err(_) => Vec::new(),
    }
}

/// Draws a fresh proposal identifier from a cryptographically strong random
/// source. It is never derived from caller-supplied data. Fails with
/// `InsufficientEntropy` where the source cannot supply 32 bytes.
pub fn generate_proposal_id() -> (r: Result<ProposalId, ProposalError>)
    ensures
        r is Ok || r == Err::<ProposalId, ProposalError>(ProposalError::InsufficientEntropy),
{
    let seed = random_seed();
    proposal_id_from_seed(seed.as_slice())
}

} // verus!
