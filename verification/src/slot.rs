use vstd::prelude::*;

verus! {

/// A place that holds at most one registered value, such as a callback or an
/// input handler; a new registration replaces the one before it.
pub struct Slot<T> {
    value: Option<T>,
}

/// What a slot holds once `value` is registered in it, whatever it held.
pub open spec fn spec_registered<T>(held: Option<T>, value: T) -> Option<T> {
    Some(value)
}

/// What taking from a slot that holds `held` hands back, and what the slot
/// holds after.
pub open spec fn spec_taken<T>(held: Option<T>) -> (Option<T>, Option<T>) {
    (held, None)
}

impl<T> View for Slot<T> {
    type V = Option<T>;

    closed spec fn view(&self) -> Option<T> {
        self.value
    }
}

impl<T> Slot<T> {
    /// An empty slot.
    pub fn new() -> (s: Self)
        ensures
            s@ is None,
    {
        Slot { value: None }
    }

    /// Stores `value`, dropping whatever was registered before.
    pub fn register(&mut self, value: T)
        ensures
            final(self)@ == spec_registered(old(self)@, value),
    {
        self.value = Some(value);
    }

    /// Removes and returns the registered value, leaving the slot empty.
    pub fn take(&mut self) -> (r: Option<T>)
        ensures
            (r, final(self)@) == spec_taken(old(self)@),
    {
        self.value.take()
    }

    /// Whether a value is registered.
    pub fn is_registered(&self) -> (r: bool)
        ensures
            r == self@ is Some,
    {
        self.value.is_some()
    }

    /// The registered value, to be used in place.
    pub fn as_mut(&mut self) -> (r: Option<&mut T>)
        ensures
            r is Some <==> old(self)@ is Some,
            r matches Some(v) ==> old(self)@ == Some(*v) && final(self)@ == Some(*final(v)),
            r is None ==> final(self)@ is None,
    {
        self.value.as_mut()
    }
}

/// Taking from a slot hands back the value registered last, and the slot is
/// empty after.
pub proof fn lemma_take_returns_registered<T>(held: Option<T>, value: T)
    ensures
        spec_taken(spec_registered(held, value)) == (Some(value), None::<T>),
{
}

/// Of two registrations, the later one is what the slot holds.
pub proof fn lemma_last_registration_wins<T>(held: Option<T>, first: T, second: T)
    ensures
        spec_registered(spec_registered(held, first), second) == Some(second),
{
}

/// A value is handed back at most once: a second take finds the slot empty.
pub proof fn lemma_taken_once<T>(held: Option<T>)
    ensures
        spec_taken(spec_taken(held).1).0 is None,
{
}

} // verus!
