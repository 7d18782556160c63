//! The claim registry: a store of claims keyed by their own byte content
//! (the proof), each holding an owner and the block height of its creation,
//! mutated only through validated transitions.

use vstd::prelude::*;

use crate::Error;

verus! {

/// One stored claim: the proof bytes that identify it, its current owner and
/// the block height at which it was created.
pub struct ClaimEntry {
    /// The proof bytes that identify the claim.
    pub proof_bytes: Vec<u8>,
    /// The current owner of the claim.
    pub owner: u64,
    /// The block height at creation; never changed afterwards.
    pub created_at: u64,
}

/// The claim registry storage: the stored claims and the configured maximum
/// proof length.
pub struct ClaimRegistry {
    /// The configured maximum length of a proof, enforced on creation.
    pub max_proof_len: usize,
    /// The stored claims, one per distinct proof.
    pub entries: Vec<ClaimEntry>,
}

/// The owner and creation height recorded for a proof, or `None` where no
/// entry carries it. Entries are scanned front to back; under the registry's
/// well-formedness the proofs are distinct, so at most one entry matches.
pub open spec fn spec_lookup(s: Seq<ClaimEntry>, p: Seq<u8>) -> Option<(u64, u64)>
    decreases s.len(),
{
    if s.len() == 0 {
        None
    } else if s[0].proof_bytes@ == p {
        Some((s[0].owner, s[0].created_at))
    } else {
        spec_lookup(s.drop_first(), p)
    }
}

/// Scanning past a prefix without a match does not change the lookup result.
proof fn lemma_lookup_skip(s: Seq<ClaimEntry>, p: Seq<u8>, i: int)
    requires
        0 <= i <= s.len(),
        forall|j: int| 0 <= j < i ==> s[j].proof_bytes@ != p,
    ensures
        spec_lookup(s, p) == spec_lookup(s.skip(i), p),
    decreases i,
{
    if i > 0 {
        lemma_lookup_skip(s, p, i - 1);
        assert(s.skip(i - 1)[0] == s[i - 1]);
        assert(s.skip(i - 1).drop_first() =~= s.skip(i));
    } else {
        assert(s.skip(0) =~= s);
    }
}

/// A lookup misses exactly when no entry carries the proof.
proof fn lemma_lookup_none(s: Seq<ClaimEntry>, p: Seq<u8>)
    ensures
        (spec_lookup(s, p) is None) <==> (forall|j: int|
            0 <= j < s.len() ==> s[j].proof_bytes@ != p),
    decreases s.len(),
{
    if s.len() > 0 {
        lemma_lookup_none(s.drop_first(), p);
        if s[0].proof_bytes@ != p {
            if spec_lookup(s.drop_first(), p) is None {
                assert forall|j: int| 0 <= j < s.len() implies s[j].proof_bytes@ != p by {
                    if j > 0 {
                        assert(s.drop_first()[j - 1] == s[j]);
                    }
                }
            } else {
                let j = choose|j: int|
                    0 <= j < s.drop_first().len() && s.drop_first()[j].proof_bytes@ == p;
                assert(s[j + 1] == s.drop_first()[j]);
            }
        }
    }
}

/// Appending an entry leaves every present proof's lookup unchanged and adds
/// the new entry's proof where it was absent.
proof fn lemma_lookup_push(s: Seq<ClaimEntry>, e: ClaimEntry, p: Seq<u8>)
    ensures
        spec_lookup(s, p) is Some ==> spec_lookup(s.push(e), p) == spec_lookup(s, p),
        spec_lookup(s, p) is None && e.proof_bytes@ == p ==> spec_lookup(s.push(e), p) == Some(
            (e.owner, e.created_at),
        ),
        spec_lookup(s, p) is None && e.proof_bytes@ != p ==> spec_lookup(s.push(e), p) is None,
    decreases s.len(),
{
    if s.len() == 0 {
        assert(s.push(e)[0] == e);
        if e.proof_bytes@ != p {
            assert(s.push(e).drop_first() =~= Seq::<ClaimEntry>::empty());
            assert(spec_lookup(Seq::<ClaimEntry>::empty(), p) is None);
            assert(spec_lookup(s.push(e), p) == spec_lookup(s.push(e).drop_first(), p));
        }
    } else {
        assert(s.push(e)[0] == s[0]);
        assert(s.push(e).drop_first() =~= s.drop_first().push(e));
        lemma_lookup_push(s.drop_first(), e, p);
        if s[0].proof_bytes@ != p {
            assert(spec_lookup(s.push(e), p) == spec_lookup(s.drop_first().push(e), p));
            assert(spec_lookup(s, p) == spec_lookup(s.drop_first(), p));
        }
    }
}

/// With pairwise distinct proofs, removing the entry at `i` drops exactly
/// that entry's proof from the lookup and leaves every other proof unchanged.
proof fn lemma_lookup_remove(s: Seq<ClaimEntry>, i: int, p: Seq<u8>)
    requires
        0 <= i < s.len(),
        forall|j: int, k: int|
            0 <= j < k < s.len() ==> s[j].proof_bytes@ != s[k].proof_bytes@,
    ensures
        spec_lookup(s.remove(i), p) == (if s[i].proof_bytes@ == p {
            None::<(u64, u64)>
        } else {
            spec_lookup(s, p)
        }),
    decreases i,
{
    if i == 0 {
        assert(s.remove(0) =~= s.drop_first());
        if s[0].proof_bytes@ == p {
            assert(forall|j: int|
                0 <= j < s.drop_first().len() ==> s.drop_first()[j] == s[j + 1]);
            lemma_lookup_none(s.drop_first(), p);
        }
    } else {
        assert(s.remove(i)[0] == s[0]);
        if s[0].proof_bytes@ != p {
            assert(s.remove(i).drop_first() =~= s.drop_first().remove(i - 1));
            assert(forall|j: int|
                0 <= j < s.drop_first().len() ==> s.drop_first()[j] == s[j + 1]);
            lemma_lookup_remove(s.drop_first(), i - 1, p);
            assert(s.drop_first()[i - 1] == s[i]);
        }
    }
}

/// Byte-for-byte equality of two proof values.
fn bytes_eq(a: &Vec<u8>, b: &Vec<u8>) -> (r: bool)
    ensures
        r == (a@ == b@),
{
    if a.len() != b.len() {
        return false;
    }
    let mut i: usize = 0;
    while i < a.len()
        invariant
            i <= a@.len(),
            a@.len() == b@.len(),
            forall|j: int| 0 <= j < i ==> a@[j] == b@[j],
        decreases a@.len() - i,
    {
        if a[i] != b[i] {
            return false;
        }
        i += 1;
    }
    proof {
        assert(a@ =~= b@);
    }
    true
}

impl ClaimRegistry {
    /// Well-formedness: stored proofs are pairwise distinct, and none exceeds
    /// the configured maximum length.
    pub open spec fn wf(&self) -> bool {
        &&& forall|i: int, j: int|
            0 <= i < j < self.entries@.len() ==> self.entries@[i].proof_bytes@
                != self.entries@[j].proof_bytes@
        &&& forall|i: int|
            0 <= i < self.entries@.len() ==> self.entries@[i].proof_bytes@.len()
                <= self.max_proof_len
    }

    /// Whether a claim with the given proof bytes exists.
    pub open spec fn spec_contains(&self, p: Seq<u8>) -> bool {
        spec_lookup(self.entries@, p) is Some
    }

    /// An empty registry with the given maximum proof length.
    pub fn new(max_proof_len: usize) -> (r: ClaimRegistry)
        ensures
            r.wf(),
            r.max_proof_len == max_proof_len,
            r.entries@.len() == 0,
    {
        ClaimRegistry { max_proof_len, entries: Vec::new() }
    }

    /// The number of stored claims.
    pub fn claim_count(&self) -> (r: usize)
        ensures
            r == self.entries@.len(),
    {
        self.entries.len()
    }

    /// The index of the entry carrying the given proof, if any.
    fn find_index(&self, p: &Vec<u8>) -> (r: Option<usize>)
        ensures
            match r {
                Some(i) => {
                    &&& i < self.entries@.len()
                    &&& self.entries@[i as int].proof_bytes@ == p@
                    &&& spec_lookup(self.entries@, p@) == Some(
                        (self.entries@[i as int].owner, self.entries@[i as int].created_at),
                    )
                },
                None => spec_lookup(self.entries@, p@) is None,
            },
    {
        let n = self.entries.len();
        let mut i: usize = 0;
        while i < n
            invariant
                n == self.entries@.len(),
                i <= n,
                forall|j: int| 0 <= j < i ==> self.entries@[j].proof_bytes@ != p@,
            decreases n - i,
        {
            if bytes_eq(&self.entries[i].proof_bytes, p) {
                proof {
                    lemma_lookup_skip(self.entries@, p@, i as int);
                    assert(self.entries@.skip(i as int)[0] == self.entries@[i as int]);
                }
                return Some(i);
            }
            i += 1;
        }
        proof {
            lemma_lookup_skip(self.entries@, p@, n as int);
            assert(self.entries@.skip(n as int) =~= Seq::<ClaimEntry>::empty());
        }
        None
    }

    /// The owner and creation height recorded for a proof, or `None` where no
    /// claim carries it.
    pub fn get_claim(&self, proof_bytes: &Vec<u8>) -> (r: Option<(u64, u64)>)
        ensures
            r == spec_lookup(self.entries@, proof_bytes@),
    {
        match self.find_index(proof_bytes) {
            Some(i) => Some((self.entries[i].owner, self.entries[i].created_at)),
            None => None,
        }
    }

    /// Records a claim for `caller` at block height `now`.
    ///
    /// Fails with `ProofTooLong` where the proof exceeds the configured
    /// maximum length, and with `ProofAlreadyExist` where a claim with the
    /// same proof is already stored; either failure leaves the registry
    /// unchanged. On success exactly the new proof is added, owned by
    /// `caller` with creation height `now`.
    pub fn create_claim(&mut self, caller: u64, proof_bytes: Vec<u8>, now: u64) -> (r: Result<
        (),
        Error,
    >)
        requires
            old(self).wf(),
        ensures
            final(self).wf(),
            final(self).max_proof_len == old(self).max_proof_len,
            proof_bytes@.len() > old(self).max_proof_len ==> r == Err::<(), Error>(
                Error::ProofTooLong,
            ) && *final(self) == *old(self),
            proof_bytes@.len() <= old(self).max_proof_len && old(self).spec_contains(proof_bytes@)
                ==> r == Err::<(), Error>(Error::ProofAlreadyExist) && *final(self) == *old(self),
            proof_bytes@.len() <= old(self).max_proof_len && !old(self).spec_contains(proof_bytes@)
                ==> {
                &&& r == Ok::<(), Error>(())
                &&& spec_lookup(final(self).entries@, proof_bytes@) == Some((caller, now))
                &&& forall|q: Seq<u8>|
                    q != proof_bytes@ ==> spec_lookup(final(self).entries@, q) == spec_lookup(
                        old(self).entries@,
                        q,
                    )
                &&& final(self).entries@.len() == old(self).entries@.len() + 1
            },
    {
        if proof_bytes.len() > self.max_proof_len {
            return Err(Error::ProofTooLong);
        }
        match self.find_index(&proof_bytes) {
            Some(_) => Err(Error::ProofAlreadyExist),
            None => {
                let ghost olds = self.entries@;
                let ghost p = proof_bytes@;
                let entry = ClaimEntry { proof_bytes, owner: caller, created_at: now };
                self.entries.push(entry);
                proof {
                    lemma_lookup_none(olds, p);
                    lemma_lookup_push(olds, entry, p);
                    assert forall|q: Seq<u8>| q != p implies spec_lookup(self.entries@, q)
                        == spec_lookup(olds, q) by {
                        lemma_lookup_push(olds, entry, q);
                    }
                    assert(self.wf());
                }
                Ok(())
            },
        }
    }

    /// Removes the claim carrying the given proof on behalf of its owner.
    ///
    /// Fails with `ClaimNotExist` where no claim carries the proof, and with
    /// `NotClaimOwner` where the caller is not the claim's current owner;
    /// either failure leaves the registry unchanged. On success exactly that
    /// proof's claim is removed.
    pub fn revoke_claim(&mut self, caller: u64, proof_bytes: &Vec<u8>) -> (r: Result<(), Error>)
        requires
            old(self).wf(),
        ensures
            final(self).wf(),
            final(self).max_proof_len == old(self).max_proof_len,
            ({
                let l = spec_lookup(old(self).entries@, proof_bytes@);
                &&& (l is None ==> r == Err::<(), Error>(Error::ClaimNotExist) && *final(self)
                    == *old(self))
                &&& ((l matches Some(v) && v.0 != caller) ==> r == Err::<(), Error>(
                    Error::NotClaimOwner,
                ) && *final(self) == *old(self))
                &&& ((l matches Some(v) && v.0 == caller) ==> {
                    &&& r == Ok::<(), Error>(())
                    &&& spec_lookup(final(self).entries@, proof_bytes@) is None
                    &&& forall|q: Seq<u8>|
                        q != proof_bytes@ ==> spec_lookup(final(self).entries@, q) == spec_lookup(
                            old(self).entries@,
                            q,
                        )
                    &&& final(self).entries@.len() == old(self).entries@.len() - 1
                })
            }),
    {
        let i = match self.find_index(proof_bytes) {
            None => {
                return Err(Error::ClaimNotExist);
            },
            Some(i) => i,
        };
        if self.entries[i].owner != caller {
            return Err(Error::NotClaimOwner);
        }
        let ghost olds = self.entries@;
        let _ = self.entries.remove(i);
        proof {
            lemma_lookup_remove(olds, i as int, proof_bytes@);
            assert forall|q: Seq<u8>| q != proof_bytes@ implies spec_lookup(self.entries@, q)
                == spec_lookup(olds, q) by {
                lemma_lookup_remove(olds, i as int, q);
            }
            assert forall|j: int, k: int|
                0 <= j < k < self.entries@.len() implies self.entries@[j].proof_bytes@
                != self.entries@[k].proof_bytes@ by {
                assert(self.entries@[j] == if j < i { olds[j] } else { olds[j + 1] });
                assert(self.entries@[k] == if k < i { olds[k] } else { olds[k + 1] });
            }
        }
        Ok(())
    }

    /// Reassigns the claim carrying the given proof to `new_owner` on behalf
    /// of its current owner; the recorded creation height is unchanged.
    ///
    /// Fails with `ClaimNotExist` where no claim carries the proof, and with
    /// `NotClaimOwner` where the caller is not the claim's current owner;
    /// either failure leaves the registry unchanged.
    pub fn transfer_claim(&mut self, caller: u64, new_owner: u64, proof_bytes: &Vec<u8>) -> (r:
        Result<(), Error>)
        requires
            old(self).wf(),
        ensures
            final(self).wf(),
            final(self).max_proof_len == old(self).max_proof_len,
            ({
                let l = spec_lookup(old(self).entries@, proof_bytes@);
                &&& (l is None ==> r == Err::<(), Error>(Error::ClaimNotExist) && *final(self)
                    == *old(self))
                &&& ((l matches Some(v) && v.0 != caller) ==> r == Err::<(), Error>(
                    Error::NotClaimOwner,
                ) && *final(self) == *old(self))
                &&& (l matches Some(v) ==> v.0 == caller ==> {
                    &&& r == Ok::<(), Error>(())
                    &&& spec_lookup(final(self).entries@, proof_bytes@) == Some((new_owner, v.1))
                    &&& forall|q: Seq<u8>|
                        q != proof_bytes@ ==> spec_lookup(final(self).entries@, q) == spec_lookup(
                            old(self).entries@,
                            q,
                        )
                    &&& final(self).entries@.len() == old(self).entries@.len()
                })
            }),
    {
        let i = match self.find_index(proof_bytes) {
            None => {
                return Err(Error::ClaimNotExist);
            },
            Some(i) => i,
        };
        if self.entries[i].owner != caller {
            return Err(Error::NotClaimOwner);
        }
        let ghost olds = self.entries@;
        let mut entry = self.entries.remove(i);
        entry.owner = new_owner;
        let ghost mids = self.entries@;
        self.entries.push(entry);
        proof {
            lemma_lookup_remove(olds, i as int, proof_bytes@);
            lemma_lookup_push(mids, entry, proof_bytes@);
            assert forall|q: Seq<u8>| q != proof_bytes@ implies spec_lookup(self.entries@, q)
                == spec_lookup(olds, q) by {
                lemma_lookup_remove(olds, i as int, q);
                lemma_lookup_push(mids, entry, q);
            }
            assert forall|j: int, k: int|
                0 <= j < k < mids.len() implies mids[j].proof_bytes@ != mids[k].proof_bytes@ by {
                assert(mids[j] == if j < i { olds[j] } else { olds[j + 1] });
                assert(mids[k] == if k < i { olds[k] } else { olds[k + 1] });
            }
            lemma_lookup_none(mids, proof_bytes@);
            assert forall|j: int, k: int|
                0 <= j < k < self.entries@.len() implies self.entries@[j].proof_bytes@
                != self.entries@[k].proof_bytes@ by {
                if k < self.entries@.len() - 1 {
                    assert(self.entries@[j] == mids[j]);
                    assert(self.entries@[k] == mids[k]);
                } else {
                    assert(self.entries@[j] == mids[j]);
                    assert(self.entries@[k] == entry);
                }
            }
            assert(self.wf());
        }
        Ok(())
    }
}

} // verus!
