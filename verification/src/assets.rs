//! The asset registry: a monotone store of immutable 16-byte payloads, each
//! with a single current owner, mutated only through validated transitions.
//!
//! Asset ids are assigned monotonically from zero, so the store is a pair of
//! parallel vectors indexed by asset id: the id of an asset is its position.
//! The counter of assets ever created is therefore the length of the store,
//! and an id exists exactly when it is below that length.

use vstd::prelude::*;

use crate::Error;

verus! {

/// An asset payload: a fixed 16-byte value ("DNA"), immutable once created.
#[derive(Clone, Copy, Debug, PartialEq, Eq)]
pub struct Kitty(pub [u8; 16]);

/// A notification emitted by a successful asset operation.
#[derive(Clone, Copy, Debug, PartialEq, Eq, Structural)]
pub enum Event {
    /// A new asset was created: owner, asset id.
    Created(u64, u32),
    /// An asset changed hands: previous owner, new owner, asset id.
    Transferred(u64, u64, u32),
}

/// The asset registry storage: payloads and owners indexed by asset id, and
/// the notifications emitted so far, in order.
pub struct AssetRegistry {
    /// The payload of each created asset; the asset id is the index.
    pub assets: Vec<Kitty>,
    /// The current owner of each created asset, under the same index.
    pub owners: Vec<u64>,
    /// Notifications emitted by successful operations, oldest first.
    pub events: Vec<Event>,
}

impl AssetRegistry {
    /// Well-formedness: every created asset has an owner, and the count of
    /// assets ever created fits the 32-bit id type.
    pub open spec fn wf(&self) -> bool {
        &&& self.owners@.len() == self.assets@.len()
        &&& self.assets@.len() <= u32::MAX
    }

    /// The asset counter: the number of assets ever created, which is also
    /// the next free id.
    pub open spec fn spec_count(&self) -> int {
        self.assets@.len() as int
    }

    /// Whether an asset id was ever created.
    pub open spec fn has_asset(&self, id: u32) -> bool {
        id < self.assets@.len()
    }

    /// The payload bytes of a created asset.
    pub open spec fn spec_dna(&self, id: u32) -> Seq<u8> {
        self.assets@[id as int].0@
    }

    /// The current owner of a created asset.
    pub open spec fn spec_owner(&self, id: u32) -> u64 {
        self.owners@[id as int]
    }

    /// An empty registry: no assets, no owners, no notifications.
    pub fn new() -> (r: AssetRegistry)
        ensures
            r.wf(),
            r.spec_count() == 0,
            r.events@.len() == 0,
    {
        AssetRegistry { assets: Vec::new(), owners: Vec::new(), events: Vec::new() }
    }

    /// The number of assets ever created.
    pub fn assets_count(&self) -> (r: u32)
        requires
            self.wf(),
        ensures
            r == self.spec_count(),
    {
        self.assets.len() as u32
    }

    /// The payload of an asset, or `None` where the id was never created.
    pub fn asset(&self, id: u32) -> (r: Option<Kitty>)
        requires
            self.wf(),
        ensures
            self.has_asset(id) ==> (r matches Some(k) && k == self.assets@[id as int]),
            !self.has_asset(id) ==> r is None,
    {
        if (id as usize) < self.assets.len() {
            Some(self.assets[id as usize])
        } else {
            None
        }
    }

    /// The current owner of an asset, or `None` where the id was never
    /// created.
    pub fn owner_of(&self, id: u32) -> (r: Option<u64>)
        requires
            self.wf(),
        ensures
            self.has_asset(id) ==> r == Some(self.spec_owner(id)),
            !self.has_asset(id) ==> r is None,
    {
        if (id as usize) < self.owners.len() {
            Some(self.owners[id as usize])
        } else {
            None
        }
    }

    /// Stores a freshly created asset: writes the payload, advances the
    /// counter, sets the initial owner and emits the creation notification.
    fn insert_asset(&mut self, owner: u64, kitty: Kitty)
        requires
            old(self).wf(),
            old(self).spec_count() < u32::MAX,
        ensures
            final(self).wf(),
            final(self).assets@ == old(self).assets@.push(kitty),
            final(self).owners@ == old(self).owners@.push(owner),
            final(self).events@ == old(self).events@.push(
                Event::Created(owner, old(self).assets@.len() as u32),
            ),
    {
        let id = self.assets.len() as u32;
        self.assets.push(kitty);
        self.owners.push(owner);
        self.events.push(Event::Created(owner, id));
    }

    /// Creates a new asset for `caller`, with a payload derived from the
    /// host-supplied seed, the caller and the extrinsic index.
    ///
    /// Succeeds exactly when the asset counter is below the type's maximum;
    /// the new id is the old counter value, so it was absent beforehand. On
    /// success the counter increases by exactly one, existing assets and
    /// owners are untouched, and a `Created` notification is emitted. On
    /// failure the registry is unchanged.
    pub fn create_asset(&mut self, caller: u64, seed: &Vec<u8>, extrinsic_index: u32) -> (r:
        Result<u32, Error>)
        requires
            old(self).wf(),
        ensures
            final(self).wf(),
            old(self).spec_count() == u32::MAX ==> r == Err::<u32, Error>(Error::CounterOverflow)
                && *final(self) == *old(self),
            old(self).spec_count() < u32::MAX ==> {
                let id = old(self).spec_count() as u32;
                &&& r == Ok::<u32, Error>(id)
                &&& !old(self).has_asset(id)
                &&& final(self).spec_count() == old(self).spec_count() + 1
                &&& final(self).has_asset(id)
                &&& final(self).spec_dna(id) == crate::dna::spec_payload(
                    seed@,
                    caller,
                    extrinsic_index,
                )
                &&& final(self).spec_owner(id) == caller
                &&& final(self).assets@.subrange(0, old(self).spec_count())
                    == old(self).assets@
                &&& final(self).owners@.subrange(0, old(self).spec_count())
                    == old(self).owners@
                &&& final(self).events@ == old(self).events@.push(Event::Created(caller, id))
            },
    {
        let count = self.assets.len() as u32;
        let id = match next_asset_id(count) {
            Ok(id) => id,
            Err(e) => {
                return Err(e);
            },
        };
        let payload = crate::dna::derive_payload(seed, caller, extrinsic_index);
        self.insert_asset(caller, Kitty(payload));
        proof {
            assert(self.assets@.subrange(0, old(self).spec_count()) =~= old(self).assets@);
            assert(self.owners@.subrange(0, old(self).spec_count()) =~= old(self).owners@);
        }
        Ok(id)
    }

    /// Reassigns the owner of `asset_id` from `caller` to `to`.
    ///
    /// Fails with `InvalidAssetId` where the asset was never created, and
    /// with `NotOwner` where the caller is not its current owner; either
    /// failure leaves the registry unchanged. On success only that asset's
    /// owner changes, and a `Transferred` notification is emitted.
    pub fn transfer_asset(&mut self, caller: u64, to: u64, asset_id: u32) -> (r: Result<
        (),
        Error,
    >)
        requires
            old(self).wf(),
        ensures
            final(self).wf(),
            !old(self).has_asset(asset_id) ==> r == Err::<(), Error>(Error::InvalidAssetId)
                && *final(self) == *old(self),
            old(self).has_asset(asset_id) && old(self).spec_owner(asset_id) != caller ==> r
                == Err::<(), Error>(Error::NotOwner) && *final(self) == *old(self),
            old(self).has_asset(asset_id) && old(self).spec_owner(asset_id) == caller ==> {
                &&& r == Ok::<(), Error>(())
                &&& final(self).assets@ == old(self).assets@
                &&& final(self).owners@ == old(self).owners@.update(asset_id as int, to)
                &&& final(self).events@ == old(self).events@.push(
                    Event::Transferred(caller, to, asset_id),
                )
            },
    {
        if (asset_id as usize) >= self.owners.len() {
            return Err(Error::InvalidAssetId);
        }
        if self.owners[asset_id as usize] != caller {
            return Err(Error::NotOwner);
        }
        self.owners[asset_id as usize] = to;
        self.events.push(Event::Transferred(caller, to, asset_id));
        Ok(())
    }

    /// Breeds a child asset for `caller` out of two existing, distinct
    /// parents.
    ///
    /// Fails with `InvalidAssetId` where either parent was never created,
    /// then with `RequireDifferentParent` where the parents are equal, then
    /// with `CounterOverflow` where the counter is at the type's maximum;
    /// any failure leaves the registry unchanged. On success the child's
    /// payload is the per-bit mux of the parents' payloads under a selector
    /// derived from the seed, the caller and the extrinsic index: each bit
    /// comes from parent 1 where the selector bit is 1 and from parent 2
    /// where it is 0.
    pub fn breed_asset(
        &mut self,
        caller: u64,
        parent_1: u32,
        parent_2: u32,
        seed: &Vec<u8>,
        extrinsic_index: u32,
    ) -> (r: Result<u32, Error>)
        requires
            old(self).wf(),
        ensures
            final(self).wf(),
            !old(self).has_asset(parent_1) || !old(self).has_asset(parent_2) ==> r == Err::<
                u32,
                Error,
            >(Error::InvalidAssetId) && *final(self) == *old(self),
            old(self).has_asset(parent_1) && old(self).has_asset(parent_2) && parent_1 == parent_2
                ==> r == Err::<u32, Error>(Error::RequireDifferentParent) && *final(self) == *old(
                self,
            ),
            old(self).has_asset(parent_1) && old(self).has_asset(parent_2) && parent_1 != parent_2
                && old(self).spec_count() == u32::MAX ==> r == Err::<u32, Error>(
                Error::CounterOverflow,
            ) && *final(self) == *old(self),
            old(self).has_asset(parent_1) && old(self).has_asset(parent_2) && parent_1 != parent_2
                && old(self).spec_count() < u32::MAX ==> {
                let id = old(self).spec_count() as u32;
                &&& r == Ok::<u32, Error>(id)
                &&& !old(self).has_asset(id)
                &&& final(self).spec_count() == old(self).spec_count() + 1
                &&& final(self).has_asset(id)
                &&& final(self).spec_dna(id) == crate::dna::spec_child_dna(
                    old(self).spec_dna(parent_1),
                    old(self).spec_dna(parent_2),
                    crate::dna::spec_payload(seed@, caller, extrinsic_index),
                )
                &&& final(self).spec_owner(id) == caller
                &&& final(self).assets@.subrange(0, old(self).spec_count())
                    == old(self).assets@
                &&& final(self).owners@.subrange(0, old(self).spec_count())
                    == old(self).owners@
                &&& final(self).events@ == old(self).events@.push(Event::Created(caller, id))
            },
    {
        let kitty1 = match self.asset(parent_1) {
            Some(k) => k,
            None => {
                return Err(Error::InvalidAssetId);
            },
        };
        let kitty2 = match self.asset(parent_2) {
            Some(k) => k,
            None => {
                return Err(Error::InvalidAssetId);
            },
        };
        if parent_1 == parent_2 {
            return Err(Error::RequireDifferentParent);
        }
        let count = self.assets.len() as u32;
        let id = match next_asset_id(count) {
            Ok(id) => id,
            Err(e) => {
                return Err(e);
            },
        };
        let selector = crate::dna::derive_payload(seed, caller, extrinsic_index);
        let dna1 = kitty1.0;
        let dna2 = kitty2.0;
        let mut child: [u8; 16] = [0u8; 16];
        let mut i: usize = 0;
        while i < 16
            invariant
                i <= 16,
                forall|j: int|
                    0 <= j < i ==> child@[j] == crate::dna::spec_combine(
                        dna1@[j],
                        dna2@[j],
                        selector@[j],
                    ),
            decreases 16 - i,
        {
            child[i] = crate::dna::combine_dna(dna1[i], dna2[i], selector[i]);
            i += 1;
        }
        proof {
            assert(child@ =~= crate::dna::spec_child_dna(dna1@, dna2@, selector@));
        }
        self.insert_asset(caller, Kitty(child));
        proof {
            assert(self.assets@.subrange(0, old(self).spec_count()) =~= old(self).assets@);
            assert(self.owners@.subrange(0, old(self).spec_count()) =~= old(self).owners@);
        }
        Ok(id)
    }

    /// The ids currently owned by `owner`, in increasing order: the reverse
    /// lookup over the ownership map. An id appears exactly when it was
    /// created and `owner` is its current owner.
    pub fn owned_assets(&self, owner: u64) -> (r: Vec<u32>)
        requires
            self.wf(),
        ensures
            forall|k: int|
                0 <= k < r@.len() ==> self.has_asset(#[trigger] r@[k]) && self.spec_owner(r@[k])
                    == owner,
            forall|id: u32|
                id < self.assets@.len() && self.spec_owner(id) == owner ==> r@.contains(id),
            forall|k1: int, k2: int| 0 <= k1 < k2 < r@.len() ==> r@[k1] < r@[k2],
    {
        let mut r: Vec<u32> = Vec::new();
        let mut i: usize = 0;
        while i < self.owners.len()
            invariant
                self.wf(),
                i <= self.owners@.len(),
                forall|k: int|
                    0 <= k < r@.len() ==> #[trigger] r@[k] < i && self.spec_owner(r@[k]) == owner,
                forall|id: u32|
                    id < i && self.spec_owner(id) == owner ==> r@.contains(id),
                forall|k1: int, k2: int| 0 <= k1 < k2 < r@.len() ==> r@[k1] < r@[k2],
            decreases self.owners@.len() - i,
        {
            if self.owners[i] == owner {
                let ghost prev = r@;
                r.push(i as u32);
                proof {
                    assert forall|id: u32| id < i + 1 && self.spec_owner(id) == owner implies r@
                        .contains(id) by {
                        if id < i {
                            let k = choose|k: int| 0 <= k < prev.len() && prev[k] == id;
                            assert(r@[k] == id);
                        } else {
                            assert(r@[prev.len() as int] == id);
                        }
                    }
                }
            } else {
                proof {
                    assert forall|id: u32| id < i + 1 && self.spec_owner(id) == owner implies r@
                        .contains(id) by {
                        assert(id < i);
                    }
                }
            }
            i += 1;
        }
        r
    }
}

/// The id a successful creation would assign given the current counter, or
/// `CounterOverflow` where the counter is already at the type's maximum.
pub fn next_asset_id(count: u32) -> (r: Result<u32, Error>)
    ensures
        count < u32::MAX ==> r == Ok::<u32, Error>(count),
        count == u32::MAX ==> r == Err::<u32, Error>(Error::CounterOverflow),
{
    if count == u32::MAX {
        Err(Error::CounterOverflow)
    } else {
        Ok(count)
    }
}

} // verus!
