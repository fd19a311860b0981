//! The file-storage pallet, which for now only records who called it.
use vstd::prelude::*;

use crate::common::AccountId;

verus! {

/// What the file-storage pallet records.
#[derive(Clone, Copy, Debug, PartialEq, Eq, Structural)]
pub enum Event {
    /// Someone called the pallet.
    SomethingExecuted { who: AccountId },
}

/// What went wrong in the file-storage pallet.
#[derive(Clone, Copy, Debug, PartialEq, Eq, Structural)]
pub enum Error {
    Unknown,
}

/// The file-storage pallet: its event log.
pub struct Pallet {
    events: Vec<Event>,
}

impl View for Pallet {
    type V = Seq<Event>;

    closed spec fn view(&self) -> Seq<Event> {
        self.events@
    }
}

impl Pallet {
    /// A pallet with no events.
    pub fn new() -> (r: Pallet)
        ensures
            r@ == Seq::<Event>::empty(),
    {
        Pallet { events: Vec::new() }
    }

    /// The events recorded so far, oldest first.
    pub fn events(&self) -> (r: &Vec<Event>)
        ensures
            r@ == self@,
    {
        &self.events
    }

    /// Stores a file for `who`; records the call.
    pub fn store_file(&mut self, who: AccountId) -> (r: Result<(), Error>)
        ensures
            r is Ok,
            final(self)@ == old(self)@.push(Event::SomethingExecuted { who }),
    {
        self.events.push(Event::SomethingExecuted { who });
        Ok(())
    }

    /// Retrieves a file for `who`; records the call.
    pub fn retrieve_file(&mut self, who: AccountId) -> (r: Result<(), Error>)
        ensures
            r is Ok,
            final(self)@ == old(self)@.push(Event::SomethingExecuted { who }),
    {
        self.events.push(Event::SomethingExecuted { who });
        Ok(())
    }
}

} // verus!
