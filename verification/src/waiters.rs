//! The registry of senders that wait for an acknowledgement.
//!
//! A sender registers the identifier of its attempt with a handle by which
//! the caller can wake it. The entry leaves the registry when the matching
//! acknowledgement arrives or when the sender gives the attempt up,
//! whichever comes first. The registry is bounded: the bound is the number
//! of commands that can be in flight at once.

use vstd::prelude::*;

verus! {

/// The number of waiters that the registry holds at most.
pub const WAITER_CAPACITY: usize = 128;

/// The table behind the registry: a `heapless::FnvIndexMap` from the
/// identifier of a command to the handle of its sender, for at most 128
/// entries.
#[verifier::external_body]
pub struct Slots {
    table: heapless::FnvIndexMap<u8, u32, 128>,
}

/// The entries of a table: the handle kept under each identifier.
pub uninterp spec fn entries(slots: Slots) -> Map<u8, u32>;

/// `heapless::FnvIndexMap::new`: a table without entries.
#[verifier::external_body]
fn slots_new() -> (slots: Slots)
    ensures
        entries(slots) =~= Map::empty(),
{
    Slots { table: heapless::FnvIndexMap::new() }
}

/// `heapless::IndexMap::len`: the number of entries.
#[verifier::external_body]
fn slots_len(slots: &Slots) -> (n: usize)
    ensures
        n == entries(*slots).len(),
{
    slots.table.len()
}

/// `heapless::IndexMap::contains_key`: whether an entry is kept under
/// `key`.
#[verifier::external_body]
fn slots_contains(slots: &Slots, key: u8) -> (found: bool)
    ensures
        found == entries(*slots).contains_key(key),
{
    slots.table.contains_key(&key)
}

/// `heapless::IndexMap::insert`.
///
/// Where an entry is kept under `key`, its value is replaced and the old
/// value returned. Where none is kept and the table has room, the entry is
/// added. Where none is kept and the table is full, nothing changes and the
/// pair comes back as the error.
#[verifier::external_body]
fn slots_insert(slots: &mut Slots, key: u8, value: u32) -> (r: Result<Option<u32>, (u8, u32)>)
    ensures
        entries(*old(slots)).contains_key(key) ==> (r matches Ok(Some(prev))
            && prev == entries(*old(slots))[key]),
        !entries(*old(slots)).contains_key(key) && entries(*old(slots)).len() < 128
            ==> (r matches Ok(None)),
        !entries(*old(slots)).contains_key(key) && entries(*old(slots)).len() >= 128
            ==> (r matches Err(pair) && pair == (key, value)),
        entries(*final(slots)) == (if r is Ok {
            entries(*old(slots)).insert(key, value)
        } else {
            entries(*old(slots))
        }),
    no_unwind
{
    slots.table.insert(key, value)
}

/// `heapless::IndexMap::remove`: takes the entry under `key` out and
/// returns its value, or returns `None` and changes nothing where no entry
/// is kept under `key`.
#[verifier::external_body]
fn slots_remove(slots: &mut Slots, key: u8) -> (r: Option<u32>)
    ensures
        r == (if entries(*old(slots)).contains_key(key) {
            Some(entries(*old(slots))[key])
        } else {
            None
        }),
        entries(*final(slots)) == entries(*old(slots)).remove(key),
    no_unwind
{
    slots.table.remove(&key)
}

/// Why a waiter could not be registered.
#[derive(Debug, Clone, Copy, PartialEq, Eq)]
pub enum RegisterError {
    /// A waiter is registered under the identifier already.
    Duplicate,
    /// The registry holds `WAITER_CAPACITY` waiters.
    Full,
}

/// The senders that wait for an acknowledgement, by the identifier of the
/// command that each has in flight.
pub struct WaiterRegistry {
    slots: Slots,
}

impl View for WaiterRegistry {
    type V = Map<u8, u32>;

    /// The handle of the waiting sender under each identifier in flight.
    closed spec fn view(&self) -> Map<u8, u32> {
        entries(self.slots)
    }
}

/// A waiter can be registered under `uuid`: none is registered under it,
/// and the registry has room.
pub open spec fn can_register(waiters: Map<u8, u32>, uuid: u8) -> bool {
    !waiters.contains_key(uuid) && waiters.len() < WAITER_CAPACITY
}

/// What the arrival of an acknowledgement for `uuid` wakes: the handle
/// registered under it, if there is one.
pub open spec fn waiter_of(waiters: Map<u8, u32>, uuid: u8) -> Option<u32> {
    if waiters.contains_key(uuid) {
        Some(waiters[uuid])
    } else {
        None
    }
}

impl WaiterRegistry {
    #[verifier::type_invariant]
    spec fn inv(&self) -> bool {
        entries(self.slots).dom().finite() && entries(self.slots).len() <= WAITER_CAPACITY
    }

    /// A registry without waiters.
    pub fn new() -> (waiters: Self)
        ensures
            waiters@ == Map::<u8, u32>::empty(),
    {
        WaiterRegistry { slots: slots_new() }
    }

    /// The number of waiters, at most `WAITER_CAPACITY`.
    pub fn len(&self) -> (n: usize)
        ensures
            n == self@.len(),
            n <= WAITER_CAPACITY,
            self@.dom().finite(),
    {
        proof {
            use_type_invariant(self);
        }
        slots_len(&self.slots)
    }

    /// Whether the registry holds `WAITER_CAPACITY` waiters.
    pub fn is_full(&self) -> (full: bool)
        ensures
            full == (self@.len() >= WAITER_CAPACITY),
    {
        self.len() >= WAITER_CAPACITY
    }

    /// Whether a waiter is registered under `uuid`.
    pub fn contains(&self, uuid: u8) -> (found: bool)
        ensures
            found == self@.contains_key(uuid),
    {
        slots_contains(&self.slots, uuid)
    }

    /// Registers the sender with this handle as waiting for the
    /// acknowledgement of `uuid`.
    ///
    /// Identifiers are fresh for every attempt and the registry bounds the
    /// attempts in flight, so a second waiter under one identifier, or one
    /// more than the registry holds, is an error of the caller.
    pub fn register(&mut self, uuid: u8, handle: u32)
        requires
            can_register(old(self)@, uuid),
        ensures
            final(self)@ == old(self)@.insert(uuid, handle),
    {
        proof {
            use_type_invariant(&*self);
        }
        let _ = slots_insert(&mut self.slots, uuid, handle);
    }

    /// Registers a waiter where `register` could: it tests first.
    pub fn try_register(&mut self, uuid: u8, handle: u32) -> (r: Result<(), RegisterError>)
        ensures
            r is Ok <==> can_register(old(self)@, uuid),
            r is Ok ==> final(self)@ == old(self)@.insert(uuid, handle),
            r is Err ==> final(self)@ == old(self)@,
            r == Err::<(), RegisterError>(RegisterError::Duplicate) <==> old(self)@.contains_key(
                uuid,
            ),
    {
        if self.contains(uuid) {
            Err(RegisterError::Duplicate)
        } else if self.is_full() {
            Err(RegisterError::Full)
        } else {
            self.register(uuid, handle);
            Ok(())
        }
    }

    /// Takes the waiter under `uuid` out, if there is one: the sender gave
    /// the attempt up.
    pub fn deregister(&mut self, uuid: u8)
        ensures
            final(self)@ == old(self)@.remove(uuid),
    {
        proof {
            use_type_invariant(&*self);
        }
        let _ = slots_remove(&mut self.slots, uuid);
        proof {
            lemma_remove_shrinks(old(self)@, uuid);
        }
    }

    /// Takes the waiter under `uuid` out and returns its handle, for the
    /// caller to wake it. Where no waiter is registered under `uuid` nothing
    /// changes and nothing is returned: the acknowledgement came twice or
    /// late.
    pub fn resolve(&mut self, uuid: u8) -> (woken: Option<u32>)
        ensures
            woken == waiter_of(old(self)@, uuid),
            final(self)@ == old(self)@.remove(uuid),
    {
        proof {
            use_type_invariant(&*self);
        }
        let woken = slots_remove(&mut self.slots, uuid);
        proof {
            lemma_remove_shrinks(old(self)@, uuid);
        }
        woken
    }
}

proof fn lemma_remove_shrinks(waiters: Map<u8, u32>, uuid: u8)
    requires
        waiters.dom().finite(),
    ensures
        waiters.remove(uuid).dom().finite(),
        waiters.remove(uuid).len() <= waiters.len(),
{
    assert(waiters.remove(uuid).dom() == waiters.dom().remove(uuid));
}

} // verus!
