//! Decisions of the queue handlers that the event loop drives.
//!
//! A handler registers its queue ioeventfds, and possibly one backend
//! descriptor, each under a datum of its own; for every readiness report the
//! loop hands it, it decides what to do. A report it did not ask for means
//! the handler is broken, and it then removes all its interests so that it
//! cannot keep the loop busy.

use vstd::prelude::*;

verus! {

/// What a queue handler does with one readiness report.
#[derive(Clone, Copy, Debug, PartialEq, Eq, Structural)]
pub enum EventAction {
    /// Read the ioeventfd of this queue and drain the queue.
    DrainQueue(u32),
    /// Process the backend descriptor.
    ProcessBackend,
    /// Remove every interest of the handler.
    RemoveAll,
}

/// The data under which a handler registered its descriptors: its queues'
/// ioeventfds under `first_queue_data`, `first_queue_data + 1`, ..., and its
/// backend descriptor, if any, under `backend_data`.
#[derive(Clone, Copy, Debug, PartialEq, Eq, Structural)]
pub struct HandlerSources {
    pub first_queue_data: u32,
    pub num_queues: u32,
    pub backend_data: Option<u32>,
}

impl HandlerSources {
    /// The action for a report of datum `data` whose event set is exactly
    /// "readable" (`readable`) or anything else.
    pub open spec fn spec_action(self, readable: bool, data: u32) -> EventAction {
        if !readable {
            EventAction::RemoveAll
        } else if self.backend_data == Some(data) {
            EventAction::ProcessBackend
        } else if self.first_queue_data <= data && data - self.first_queue_data < self.num_queues {
            EventAction::DrainQueue((data - self.first_queue_data) as u32)
        } else {
            EventAction::RemoveAll
        }
    }

    /// Decides what to do with one readiness report.
    pub fn action(&self, readable: bool, data: u32) -> (r: EventAction)
        ensures
            r == self.spec_action(readable, data),
    {
        if !readable {
            EventAction::RemoveAll
        } else if self.backend_data == Some(data) {
            EventAction::ProcessBackend
        } else if self.first_queue_data <= data && data - self.first_queue_data < self.num_queues {
            EventAction::DrainQueue(data - self.first_queue_data)
        } else {
            EventAction::RemoveAll
        }
    }

    /// The action after the handler did the work a report asked for: on
    /// failure it removes every interest, otherwise it keeps waiting.
    pub fn after_work(ok: bool) -> (r: Option<EventAction>)
        ensures
            ok ==> r is None,
            !ok ==> r == Some(EventAction::RemoveAll),
    {
        if ok {
            None
        } else {
            Some(EventAction::RemoveAll)
        }
    }
}

} // verus!
