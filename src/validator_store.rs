//! The signing identities that the duty services act for, and how they are selected.
use vstd::prelude::*;

use crate::constants::ProtocolConstants;

verus! {

/// What the store is built from. The two modes exclude each other.
pub enum KeyMaterial {
    /// The entries read from persisted storage, one per key: its stored bytes, or
    /// the reason it could not be read.
    Disk(Vec<Result<Vec<u8>, String>>),
    /// Insecure keypairs derived from each index in `start..end`. For testing only.
    TestingKeypairRange(u64, u64),
}

/// One managed signing identity.
#[derive(Debug)]
pub enum ValidatorIdentity {
    /// A key loaded from persisted storage, as its stored bytes.
    Persisted(Vec<u8>),
    /// The insecure deterministic keypair with this index.
    Insecure(u64),
}

/// The managed signing identities, with the protocol constants needed to sign.
#[derive(Debug)]
pub struct ValidatorStore {
    pub identities: Vec<ValidatorIdentity>,
    pub constants: ProtocolConstants,
}

/// Index of the first entry that could not be read, if any.
pub open spec fn first_failure(entries: Seq<Result<Vec<u8>, String>>) -> Option<int> {
    if exists|i: int| 0 <= i < entries.len() && entries[i] is Err {
        Some(choose|i: int| 0 <= i < entries.len() && entries[i] is Err
            && forall|j: int| 0 <= j < i ==> entries[j] is Ok)
    } else {
        None
    }
}

/// The identities of a persisted store: one for each entry, in order.
pub open spec fn persisted_identities(entries: Seq<Result<Vec<u8>, String>>) -> Seq<ValidatorIdentity> {
    entries.map_values(|e: Result<Vec<u8>, String>| ValidatorIdentity::Persisted(e->Ok_0))
}

/// The identities of an ephemeral store: one for each index of `start..end`, in order.
pub open spec fn insecure_identities(start: u64, end: u64) -> Seq<ValidatorIdentity> {
    Seq::new(
        if start < end { (end - start) as nat } else { 0 },
        |i: int| ValidatorIdentity::Insecure((start + i) as u64),
    )
}

proof fn lemma_first_failure(entries: Seq<Result<Vec<u8>, String>>, k: int)
    requires
        0 <= k < entries.len(),
        entries[k] is Err,
        forall|j: int| 0 <= j < k ==> entries[j] is Ok,
    ensures
        first_failure(entries) == Some(k),
{
    let c = choose|i: int| 0 <= i < entries.len() && entries[i] is Err
        && forall|j: int| 0 <= j < i ==> entries[j] is Ok;
    if c < k {
        assert(entries[c] is Ok);
    } else if c > k {
        assert(entries[k] is Ok);
    }
}

impl ValidatorStore {
    pub open spec fn view(&self) -> Seq<ValidatorIdentity> {
        self.identities@
    }

    /// Builds the store from the entries read from persisted storage, one per key.
    /// Any entry that could not be read fails the whole load with its cause.
    pub fn load_from_disk(entries: Vec<Result<Vec<u8>, String>>, constants: ProtocolConstants) -> (r:
        Result<Self, String>)
        ensures
            r is Ok <==> first_failure(entries@) is None,
            r matches Ok(s) ==> s@ == persisted_identities(entries@) && s.constants == constants,
            r matches Err(e) ==> first_failure(entries@) matches Some(k) && e == entries@[k]->Err_0,
    {
        let ghost all = entries@;
        let n: usize = entries.len();
        let mut rest = entries;
        let mut identities: Vec<ValidatorIdentity> = Vec::new();
        let mut i: usize = 0;
        while rest.len() > 0
            invariant
                i + rest@.len() == all.len(),
                all.len() == n,
                all == entries@,
                rest@ == all.subrange(i as int, all.len() as int),
                identities@ == persisted_identities(all.subrange(0, i as int)),
                forall|j: int| 0 <= j < i ==> all[j] is Ok,
            decreases rest@.len(),
        {
            let entry = rest.remove(0);
            assert(entry == all[i as int]);
            match entry {
                Ok(key) => {
                    identities.push(ValidatorIdentity::Persisted(key));
                    assert(all.subrange(0, i + 1) == all.subrange(0, i as int).push(all[i as int]));
                    i = i + 1;
                    assert(rest@ =~= all.subrange(i as int, all.len() as int));
                },
                Err(e) => {
                    proof {
                        lemma_first_failure(all, i as int);
                    }
                    return Err(e);
                },
            }
        }
        assert(all.subrange(0, i as int) =~= all);
        assert(first_failure(all) is None);
        Ok(ValidatorStore { identities, constants })
    }

    /// Builds a store of insecure keypairs, one for each index in `start..end`.
    pub fn insecure_ephemeral_validators(start: u64, end: u64, constants: ProtocolConstants) -> (r:
        Self)
        ensures
            r@ == insecure_identities(start, end),
            r.constants == constants,
    {
        let mut identities: Vec<ValidatorIdentity> = Vec::new();
        let mut i: u64 = start;
        while i < end
            invariant
                start <= i,
                start < end ==> i <= end,
                start >= end ==> i == start,
                identities@ =~= insecure_identities(start, i),
            decreases end - i,
        {
            identities.push(ValidatorIdentity::Insecure(i));
            i = i + 1;
            assert(identities@ =~= insecure_identities(start, i));
        }
        assert(identities@ =~= insecure_identities(start, end));
        ValidatorStore { identities, constants }
    }

    /// Number of managed signing identities.
    pub fn num_voting_validators(&self) -> (r: usize)
        ensures
            r == self@.len(),
    {
        self.identities.len()
    }
}

} // verus!
