//! A slot that is filled at most once.

use vstd::prelude::*;

verus! {

/// A place for one value that, once filled, keeps its value. It is passed
/// to whoever installs or reads the value; there is no hidden global.
pub struct OnceSlot<T> {
    value: Option<T>,
}

impl<T> View for OnceSlot<T> {
    type V = Option<T>;

    closed spec fn view(&self) -> Option<T> {
        self.value
    }
}

impl<T> OnceSlot<T> {
    /// An empty slot.
    pub fn new() -> (slot: Self)
        ensures
            slot@ is None,
    {
        OnceSlot { value: None }
    }

    /// Whether the slot is filled.
    pub fn is_set(&self) -> (r: bool)
        ensures
            r == (self@ is Some),
    {
        self.value.is_some()
    }

    /// The value, if the slot is filled.
    pub fn get(&self) -> (r: Option<&T>)
        ensures
            r is Some <==> self@ is Some,
            r matches Some(v) ==> self@ == Some(*v),
    {
        self.value.as_ref()
    }

    /// Fills an empty slot with `value`. A filled slot keeps what it holds
    /// and hands `value` back.
    pub fn set(&mut self, value: T) -> (r: Result<(), T>)
        ensures
            old(self)@ is None ==> r is Ok && final(self)@ == Some(value),
            old(self)@ is Some ==> r == Err::<(), T>(value) && final(self)@ == old(self)@,
    {
        if self.value.is_some() {
            Err(value)
        } else {
            self.value = Some(value);
            Ok(())
        }
    }
}

} // verus!
