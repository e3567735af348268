//! Temporarily deinitialising a storage slot, safely.
//!
//! A slot (`Box<Option<T>>`) that currently holds a value can be wrapped in an
//! [`Initialised`] handle. The handle's `take` operation moves the value out
//! and leaves an [`Uninitialised`] handle on the same slot; `init` moves a
//! value back in and yields a fresh `Initialised` handle. Ownership transfer
//! guarantees that exactly one handle exists for the slot at any time, and the
//! handles' contracts guarantee that an empty slot is never read.

use vstd::prelude::*;

verus! {

/// The state of the storage slot, as the handles see it: either it holds a
/// fully constructed value, or it is logically vacant.
pub enum SlotState<T> {
    Valid(T),
    Empty,
}

/// The transition that moves the value out of a valid slot, leaving it empty.
pub open spec fn extract_transition<T>(s: SlotState<T>) -> (T, SlotState<T>)
    recommends
        s is Valid,
{
    (s->Valid_0, SlotState::Empty)
}

/// The transition that moves a value into an empty slot, making it valid.
pub open spec fn restore_transition<T>(s: SlotState<T>, value: T) -> SlotState<T> {
    SlotState::Valid(value)
}

/// A handle on a slot that currently holds a valid value.
///
/// The handle reads and writes the value, and offers the only operation
/// (`take`) that may remove it.
pub struct Initialised<T> {
    slot: Box<Option<T>>,
}

/// A handle on a slot that currently holds no valid value.
///
/// The handle exposes no access to the slot's content, and offers the only
/// operation (`init`) that may put a value back.
pub struct Uninitialised<T> {
    slot: Box<Option<T>>,
}

impl<T> View for Initialised<T> {
    type V = T;

    closed spec fn view(&self) -> T {
        (*self.slot)->0
    }
}

impl<T> Initialised<T> {
    #[verifier::type_invariant]
    closed spec fn wf(self) -> bool {
        (*self.slot) is Some
    }

    /// The slot state that this handle stands for.
    pub open spec fn state(self) -> SlotState<T> {
        SlotState::Valid(self@)
    }

    /// Wraps a slot that holds a valid value.
    pub fn new(slot: Box<Option<T>>) -> (r: Self)
        requires
            (*slot) is Some,
        ensures
            r@ == (*slot)->0,
    {
        Initialised { slot }
    }

    /// Returns the slot, with its value untouched.
    pub fn into_inner(self) -> (r: Box<Option<T>>)
        ensures
            (*r) == Some(self@),
    {
        proof {
            use_type_invariant(&self);
        }
        self.slot
    }

    /// Moves the value out of the slot and leaves the slot uninitialised.
    pub fn take(self) -> (r: (T, Uninitialised<T>))
        ensures
            r.0 == self@,
            (r.0, r.1.state()) == extract_transition(self.state()),
    {
        proof {
            use_type_invariant(&self);
        }
        let Initialised { mut slot } = self;
        let v = slot.take();
        (v.unwrap(), Uninitialised { slot })
    }

    /// Reads the value in the slot.
    pub fn get(&self) -> (r: &T)
        ensures
            *r == self@,
    {
        proof {
            use_type_invariant(self);
        }
        (*self.slot).as_ref().unwrap()
    }

    /// Writes a new value into the slot, dropping the old one.
    pub fn set(&mut self, value: T)
        ensures
            final(self)@ == value,
    {
        proof {
            use_type_invariant(&*self);
        }
        let mut content: Option<T> = Some(value);
        core::mem::swap(&mut *self.slot, &mut content);
    }

    /// Runs `f` on the value moved out of the slot and restores `f`'s result,
    /// so the slot is valid again by the time this returns: a scoped form of
    /// the extract/restore round trip that can never leave the slot empty.
    pub fn replace_with<F: FnOnce(T) -> T>(self, f: F) -> (r: Initialised<T>)
        requires
            call_requires(f, (self@,)),
        ensures
            call_ensures(f, (self@,), r@),
    {
        let (v, uninit) = self.take();
        let v = f(v);
        uninit.init(v)
    }
}

impl<T> From<T> for Initialised<T> {
    /// Wraps a plain value in a fresh slot, for ergonomic construction.
    fn from(value: T) -> (r: Initialised<T>)
        ensures
            r@ == value,
    {
        Initialised { slot: Box::new(Some(value)) }
    }
}

impl<T> vstd::std_specs::convert::FromSpecImpl<T> for Initialised<T> {
    closed spec fn obeys_from_spec() -> bool {
        false
    }

    closed spec fn from_spec(v: T) -> Initialised<T> {
        arbitrary()
    }
}

impl<T> Uninitialised<T> {
    #[verifier::type_invariant]
    closed spec fn wf(self) -> bool {
        (*self.slot) is None
    }

    /// The slot state that this handle stands for.
    pub open spec fn state(self) -> SlotState<T> {
        SlotState::Empty
    }

    /// Reinitialises the slot with `value`.
    pub fn init(self, value: T) -> (r: Initialised<T>)
        ensures
            r@ == value,
            r.state() == restore_transition(self.state(), value),
    {
        let Uninitialised { mut slot } = self;
        let _ = slot.insert(value);
        Initialised { slot }
    }
}

/// Extracting the value of a valid slot and restoring that same value brings
/// the slot back to exactly the state it started in.
pub proof fn lemma_extract_restore_round_trip<T>(s: SlotState<T>)
    requires
        s is Valid,
    ensures
        restore_transition(extract_transition(s).1, extract_transition(s).0) == s,
{
}

} // verus!
