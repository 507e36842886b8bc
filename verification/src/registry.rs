//! The room registry: a concurrent map from room id to the handle of the
//! pending handoff slot of the creator waiting on that id.
//!
//! An entry exists exactly while a room is WAITING; its presence is the sole
//! source of truth for "a creator is currently waiting on this id". The map
//! itself is dashmap's sharded concurrent map, used through trusted wrappers;
//! everything decided from what the map answers is verified here.

use vstd::prelude::*;
use dashmap::DashMap;
use dashmap::Entry;
use crate::PairError;

verus! {

#[verifier::external_type_specification]
#[verifier::external_body]
#[verifier::reject_recursive_types(K)]
#[verifier::reject_recursive_types(V)]
#[verifier::reject_recursive_types(S)]
pub struct ExDashMap<K, V, S>(DashMap<K, V, S>);

/// The concrete map type the registry runs on.
type RoomMap = DashMap<String, u64>;

/// The rooms the underlying concurrent map currently holds: each waiting
/// room id, mapped to the slot handle stored for it.
pub uninterp spec fn rooms_of(m: RoomMap) -> Map<Seq<char>, u64>;

/// Relies on dashmap::DashMap::entry: the entry is occupied exactly when the
/// key is present, and inserting through a vacant entry adds the pair; the
/// check and the insertion happen in one step under the shard's lock.
#[verifier::external_body]
fn dm_insert_if_absent(m: &mut RoomMap, key: &String, value: u64) -> (inserted: bool)
    ensures
        inserted == !rooms_of(*old(m)).dom().contains(key@),
        inserted ==> rooms_of(*final(m)) == rooms_of(*old(m)).insert(key@, value),
        !inserted ==> rooms_of(*final(m)) == rooms_of(*old(m)),
{
    match m.entry(key.clone()) {
        Entry::Occupied(_) => false,
        Entry::Vacant(vacant) => {
            vacant.insert(value);
            true
        },
    }
}

/// Relies on dashmap::DashMap::remove: removes and returns the value under
/// the key, or returns None and changes nothing when the key is absent.
#[verifier::external_body]
fn dm_remove(m: &mut RoomMap, key: &String) -> (r: Option<u64>)
    ensures
        rooms_of(*old(m)).dom().contains(key@) ==> r == Some(rooms_of(*old(m))[key@])
            && rooms_of(*final(m)) == rooms_of(*old(m)).remove(key@),
        !rooms_of(*old(m)).dom().contains(key@) ==> r == Option::<u64>::None
            && rooms_of(*final(m)) == rooms_of(*old(m)),
{
    m.remove(key).map(|pair| pair.1)
}

/// Decides whether a stored slot handle is the one the caller registered.
pub(crate) fn handles_match(stored: u64, supplied: u64) -> (r: bool)
    ensures
        r == (stored == supplied),
{
    stored == supplied
}

/// Relies on dashmap::DashMap::remove_if: removes the entry under the key
/// only when the supplied test accepts its value, testing and removing in one
/// step under the shard's lock; returns the removed entry or None.
#[verifier::external_body]
fn dm_remove_if_eq(m: &mut RoomMap, key: &String, value: u64) -> (removed: bool)
    ensures
        removed == (rooms_of(*old(m)).dom().contains(key@) && rooms_of(*old(m))[key@] == value),
        removed ==> rooms_of(*final(m)) == rooms_of(*old(m)).remove(key@),
        !removed ==> rooms_of(*final(m)) == rooms_of(*old(m)),
{
    m.remove_if(key, |_, stored| handles_match(*stored, value)).is_some()
}

/// Relies on dashmap::DashMap::contains_key: reports whether the key is present.
#[verifier::external_body]
fn dm_contains(m: &RoomMap, key: &String) -> (r: bool)
    ensures
        r == rooms_of(*m).dom().contains(key@),
{
    m.contains_key(key)
}

/// A successful registration: the id was free and is now bound to the slot.
pub open spec fn register_succeeds(
    pre: Map<Seq<char>, u64>,
    post: Map<Seq<char>, u64>,
    id: Seq<char>,
    slot: u64,
) -> bool {
    &&& !pre.dom().contains(id)
    &&& post == pre.insert(id, slot)
}

/// A rejected registration: the id was already bound and nothing changed.
pub open spec fn register_conflicts(
    pre: Map<Seq<char>, u64>,
    post: Map<Seq<char>, u64>,
    id: Seq<char>,
) -> bool {
    &&& pre.dom().contains(id)
    &&& post == pre
}

/// A successful claim: the id was bound to the returned slot and is now free.
pub open spec fn take_succeeds(
    pre: Map<Seq<char>, u64>,
    post: Map<Seq<char>, u64>,
    id: Seq<char>,
    slot: u64,
) -> bool {
    &&& pre.dom().contains(id)
    &&& slot == pre[id]
    &&& post == pre.remove(id)
}

/// A missed claim: the id was not bound and nothing changed.
pub open spec fn take_misses(
    pre: Map<Seq<char>, u64>,
    post: Map<Seq<char>, u64>,
    id: Seq<char>,
) -> bool {
    &&& !pre.dom().contains(id)
    &&& post == pre
}

/// A cancellation step: the entry goes away only if it is still the one the
/// cancelling creator registered (same id, same slot handle).
pub open spec fn cancel_steps(
    pre: Map<Seq<char>, u64>,
    post: Map<Seq<char>, u64>,
    id: Seq<char>,
    slot: u64,
) -> bool {
    if pre.dom().contains(id) && pre[id] == slot {
        post == pre.remove(id)
    } else {
        post == pre
    }
}

/// The room registry. Each entry binds a WAITING room id to the slot handle
/// under which the creator's handoff slot is reachable.
pub struct Registry {
    rooms: RoomMap,
}

impl View for Registry {
    type V = Map<Seq<char>, u64>;

    closed spec fn view(&self) -> Map<Seq<char>, u64> {
        rooms_of(self.rooms)
    }
}

impl Registry {
    /// Builds an empty registry: no room is WAITING.
    /// Relies on dashmap::DashMap::new: a freshly built map holds no entries.
    #[verifier::external_body]
    pub fn new() -> (r: Registry)
        ensures
            r@ =~= Map::empty(),
    {
        Registry { rooms: DashMap::new() }
    }

    /// A create request consults the registry: the room id is bound to the
    /// creator's slot handle only if no creator is waiting on it, else the
    /// request is answered with Conflict and nothing changes.
    pub fn try_register(&mut self, id: &String, slot: u64) -> (r: Result<(), PairError>)
        ensures
            match r {
                Ok(()) => register_succeeds(old(self)@, final(self)@, id@, slot),
                Err(e) => e == PairError::Conflict
                    && register_conflicts(old(self)@, final(self)@, id@),
            },
            (r is Ok) <==> !old(self)@.dom().contains(id@),
    {
        if dm_insert_if_absent(&mut self.rooms, id, slot) {
            Ok(())
        } else {
            Err(PairError::Conflict)
        }
    }

    /// A join request claims the waiting creator's slot: it removes and
    /// returns the entry exactly when the room is WAITING, else it is
    /// answered with NotFound and nothing changes.
    pub fn take_registration(&mut self, id: &String) -> (r: Result<u64, PairError>)
        ensures
            match r {
                Ok(slot) => take_succeeds(old(self)@, final(self)@, id@, slot),
                Err(e) => e == PairError::NotFound && take_misses(old(self)@, final(self)@, id@),
            },
            (r is Ok) <==> old(self)@.dom().contains(id@),
    {
        match dm_remove(&mut self.rooms, id) {
            Some(slot) => Ok(slot),
            None => Err(PairError::NotFound),
        }
    }

    /// A creator that stops waiting cancels its own registration and only its
    /// own: the entry is removed exactly when it still carries the handle the
    /// creator registered, so a claim that already went through, or a newer
    /// registration under the same id, is left alone.
    pub fn remove_if_present(&mut self, id: &String, slot: u64) -> (removed: bool)
        ensures
            cancel_steps(old(self)@, final(self)@, id@, slot),
            removed == (old(self)@.dom().contains(id@) && old(self)@[id@] == slot),
    {
        dm_remove_if_eq(&mut self.rooms, id, slot)
    }

    /// Reports whether a creator is currently waiting on the room id.
    pub fn is_waiting(&self, id: &String) -> (r: bool)
        ensures
            r == self@.dom().contains(id@),
    {
        dm_contains(&self.rooms, id)
    }
}

/// Law: of any number of create attempts on one room id, only one can
/// succeed. Once a registration has gone through, every further attempt on
/// the same id observes the occupied entry, is answered with Conflict, and
/// changes nothing — until the entry is claimed or cancelled.
pub proof fn lemma_create_excludes_create(
    pre: Map<Seq<char>, u64>,
    post: Map<Seq<char>, u64>,
    id: Seq<char>,
    slot: u64,
)
    requires
        register_succeeds(pre, post, id, slot),
    ensures
        register_conflicts(post, post, id),
        forall|later: Map<Seq<char>, u64>, slot2: u64| !register_succeeds(post, later, id, slot2),
{
}

/// Law: cancelling a waiting creator frees the room. After the cancellation
/// no entry for the id remains, and a later create on the same id succeeds
/// exactly as if the id had never been used.
pub proof fn lemma_cancel_frees_room(
    pre: Map<Seq<char>, u64>,
    post: Map<Seq<char>, u64>,
    id: Seq<char>,
    slot: u64,
    slot2: u64,
)
    requires
        pre.dom().contains(id),
        pre[id] == slot,
        cancel_steps(pre, post, id, slot),
    ensures
        !post.dom().contains(id),
        register_succeeds(post, post.insert(id, slot2), id, slot2),
{
}

/// Law: cancellation is keyed by the slot handle. A stale cancellation,
/// arriving after its entry was claimed and the id re-registered under a
/// different handle, removes nothing.
pub proof fn lemma_stale_cancel_is_noop(
    pre: Map<Seq<char>, u64>,
    post: Map<Seq<char>, u64>,
    id: Seq<char>,
    slot: u64,
)
    requires
        pre.dom().contains(id) ==> pre[id] != slot,
        cancel_steps(pre, post, id, slot),
    ensures
        post == pre,
{
}

/// Law: pairing consumes the registry entry. After a join's successful claim
/// no entry for the room remains; a PAIRED room leaves nothing behind in the
/// registry.
pub proof fn lemma_pairing_clears_entry(
    pre: Map<Seq<char>, u64>,
    post: Map<Seq<char>, u64>,
    id: Seq<char>,
    slot: u64,
)
    requires
        take_succeeds(pre, post, id, slot),
    ensures
        !post.dom().contains(id),
{
}

} // verus!
