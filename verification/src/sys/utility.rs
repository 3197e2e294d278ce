//! The guard over a destination file that is being filled.

use vstd::prelude::*;
use crate::sys::{answers, Action, Error, Event};

verus! {

/// Stands for a destination that was created exclusively and is not yet
/// complete. While the guard is armed the destination must not outlive it:
/// whoever lets go of an armed guard has the path removed. A guard that was
/// persisted leaves the file alone.
#[derive(Clone, Copy, Debug, PartialEq, Eq)]
pub struct AutoRemovedFile {
    pub armed: bool,
}

impl AutoRemovedFile {
    /// The guard that comes of one attempt to create the destination.
    pub open spec fn spec_create_new(created: Event) -> Result<AutoRemovedFile, Error> {
        match created {
            Event::Failed(e) => Err(e),
            _ => Ok(AutoRemovedFile { armed: true }),
        }
    }

    /// Takes charge of the destination once [`Action::CreateDestination`] was
    /// carried out: an armed guard if the file was created, else the error of
    /// the attempt, with nothing to guard.
    pub fn create_new(created: Event) -> (guard: Result<AutoRemovedFile, Error>)
        requires
            answers(Action::CreateDestination, created),
        ensures
            guard == Self::spec_create_new(created),
            guard is Ok <==> created is Done,
    {
        match created {
            Event::Failed(e) => Err(e),
            _ => Ok(AutoRemovedFile { armed: true }),
        }
    }

    /// Keeps the destination: the guard is disarmed and will ask for nothing.
    pub fn persist(&mut self)
        ensures
            !final(self).armed,
    {
        self.armed = false;
    }

    /// What letting go of the guard asks for.
    pub open spec fn spec_release(self) -> Option<Action> {
        if self.armed {
            Some(Action::RemoveDestination)
        } else {
            None
        }
    }

    /// Lets go of the guard. An armed guard asks for the destination to be
    /// removed; a persisted one asks for nothing.
    pub fn release(self) -> (cleanup: Option<Action>)
        ensures
            cleanup == self.spec_release(),
    {
        if self.armed {
            Some(Action::RemoveDestination)
        } else {
            None
        }
    }
}

} // verus!
