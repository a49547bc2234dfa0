use vstd::prelude::*;
use crate::error::Error;
use core::marker::PhantomData;

verus! {

/// The module's event.
#[derive(Clone, Copy, Debug)]
pub struct Event1 {}

/// What a user of the module chooses: the type of the values it stores.
pub trait Config: Send + Sync {
    type Ty: core::fmt::Debug + Clone + Send + Sync + 'static;
}

/// A sample module: an in-memory counter, and the type of its stored values
/// chosen by `C`.
pub struct UTXOModule<C: Config> {
    pub inner: u32,
    pub marker: PhantomData<C>,
}

impl<C: Config> UTXOModule<C> {
    /// A module whose in-memory value is `inner`.
    pub fn new(inner: u32) -> (m: Self)
        ensures
            m.inner == inner,
    {
        UTXOModule { inner, marker: PhantomData }
    }

    /// Checks a transaction: the module emits its event, and accepts the
    /// transaction with the default response; the module itself is left as
    /// it was.
    pub fn check_tx(&mut self, events: &mut Vec<Event1>) -> (r: Result<(), Error>)
        ensures
            final(events)@ == old(events)@.push(Event1 {  }),
            r is Ok,
            *final(self) == *old(self),
    {
        let e = Event1 {  };
        events.push(e);
        Ok(())
    }

    /// Begins a block: nothing changes.
    pub fn begin_block(&mut self)
        ensures
            *final(self) == *old(self),
    {
    }

    /// Delivers a transaction: accepted with the default response, nothing
    /// changes.
    pub fn deliver_tx(&mut self) -> (r: Result<(), Error>)
        ensures
            r is Ok,
            *final(self) == *old(self),
    {
        Ok(())
    }

    /// Ends a block with the default response: nothing changes.
    pub fn end_block(&mut self)
        ensures
            *final(self) == *old(self),
    {
    }
}

} // verus!
