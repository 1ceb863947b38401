use vstd::prelude::*;
use crate::error::RelayError;

verus! {

/// Single-slot holder of the handle of the connection that commands go to.
/// The slot starts empty; each `set` replaces what it held (last writer wins)
/// and nothing ever clears it.
pub struct Registry<H> {
    slot: Option<H>,
}

/// The slot after `handle` registers: it holds `handle`, whatever it held.
pub open spec fn registered<H>(slot: Option<H>, handle: H) -> Option<H> {
    Some(handle)
}

/// What a lookup of the slot gives.
pub open spec fn lookup<H>(slot: Option<H>) -> Result<H, RelayError> {
    match slot {
        Some(h) => Ok(h),
        None => Err(RelayError::NoActiveConnection),
    }
}

impl<H> View for Registry<H> {
    type V = Option<H>;

    closed spec fn view(&self) -> Option<H> {
        self.slot
    }
}

impl<H> Registry<H> {
    pub fn new() -> (r: Self)
        ensures
            r@ is None,
    {
        Registry { slot: None }
    }

    /// Makes `handle` the current connection, superseding any earlier one.
    pub fn set(&mut self, handle: H)
        ensures
            final(self)@ == registered(old(self)@, handle),
    {
        self.slot = Some(handle);
    }

    /// The current connection's handle.
    pub fn get(&self) -> (r: Result<&H, RelayError>)
        ensures
            match (r, lookup(self@)) {
                (Ok(x), Ok(h)) => *x == h,
                (Err(e), Err(f)) => e == f,
                _ => false,
            },
    {
        match &self.slot {
            Some(h) => Ok(h),
            None => Err(RelayError::NoActiveConnection),
        }
    }

    /// Whether some connection has registered itself.
    pub fn is_connected(&self) -> (r: bool)
        ensures
            r == self@ is Some,
    {
        self.slot.is_some()
    }
}

/// Last writer wins: after two registrations a lookup gives the second
/// handle, whatever the slot held before, and the first is unreachable.
pub proof fn lemma_last_writer_wins<H>(slot: Option<H>, h1: H, h2: H)
    ensures
        lookup(registered(registered(slot, h1), h2)) == Ok::<H, RelayError>(h2),
{
}

} // verus!
