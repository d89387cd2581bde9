//! A slot that holds the one engine-wide instance of a service (the entity
//! world, the renderer). It starts empty, `set_instance` installs a value, and
//! `get_instance` hands out the installed value; asking an empty slot is a
//! programming error, so `get_instance` demands that the slot was set.

use vstd::prelude::*;

verus! {

/// What a slot holds after `set_instance(value)`, whatever it held before.
pub open spec fn after_set<T>(held: Option<T>, value: T) -> Option<T> {
    Some(value)
}

/// What `get_instance` hands out of a slot that holds something.
pub open spec fn instance_of<T>(held: Option<T>) -> T
    recommends
        held is Some,
{
    held->0
}

/// The one engine-wide instance of a service, or nothing before it was set.
pub struct Instance<T> {
    slot: Option<T>,
}

impl<T> View for Instance<T> {
    type V = Option<T>;

    closed spec fn view(&self) -> Option<T> {
        self.slot
    }
}

impl<T> Instance<T> {
    /// An empty slot: nothing is installed yet.
    pub fn new() -> (s: Self)
        ensures
            s@ is None,
    {
        Instance { slot: None }
    }

    /// Installs `instance`, replacing whatever the slot held.
    pub fn set_instance(&mut self, instance: T)
        ensures
            final(self)@ == after_set(old(self)@, instance),
    {
        self.slot = Some(instance);
    }

    /// Whether an instance was installed.
    pub fn is_initialized(&self) -> (b: bool)
        ensures
            b == (self@ is Some),
    {
        self.slot.is_some()
    }

    /// The installed instance, to read or change in place.
    pub fn get_instance(&mut self) -> (r: &mut T)
        requires
            old(self)@ is Some,
        ensures
            *r == instance_of(old(self)@),
            final(self)@ == Some(*final(r)),
    {
        self.slot.as_mut().unwrap()
    }
}

/// Reading a slot gives back what the last `set_instance` wrote, whatever the
/// slot held before.
pub proof fn lemma_get_returns_last_set<T>(held: Option<T>, value: T)
    ensures
        after_set(held, value) is Some,
        instance_of(after_set(held, value)) == value,
{
}

/// Of two `set_instance` calls in a row only the second one counts.
pub proof fn lemma_last_set_wins<T>(held: Option<T>, first: T, second: T)
    ensures
        after_set(after_set(held, first), second) == after_set(held, second),
{
}

} // verus!
