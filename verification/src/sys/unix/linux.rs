//! The backend that clones all extents of the source with one control call.

use vstd::prelude::*;
use crate::sys::utility::AutoRemovedFile;
use crate::sys::{answers, is_answer, Action, Error, Event, Step};

verus! {

/// How far a clone has come.
#[derive(Clone, Copy, Debug, PartialEq, Eq)]
pub enum State {
    /// Nothing was asked for yet.
    Start,
    /// The source is being opened.
    OpeningSource,
    /// The destination is being created.
    CreatingDestination,
    /// The control call is under way; `dest` guards the destination.
    Cloning { dest: AutoRemovedFile },
    /// The destination is being removed; `result` is returned afterwards.
    Removing { result: Result<(), Error> },
    /// The clone has ended with `result`.
    Finished { result: Result<(), Error> },
}

impl State {
    /// The action whose report the machine waits for, if any.
    pub open spec fn spec_pending(&self) -> Option<Action> {
        match *self {
            State::Start => None,
            State::OpeningSource => Some(Action::OpenSource),
            State::CreatingDestination => Some(Action::CreateDestination),
            State::Cloning { .. } => Some(Action::CloneExtents),
            State::Removing { .. } => Some(Action::RemoveDestination),
            State::Finished { .. } => None,
        }
    }

    /// The action whose report the machine waits for, if any.
    #[verifier::when_used_as_spec(spec_pending)]
    pub fn pending(&self) -> (action: Option<Action>)
        ensures
            action == self.spec_pending(),
    {
        match self {
            State::Start => None,
            State::OpeningSource => Some(Action::OpenSource),
            State::CreatingDestination => Some(Action::CreateDestination),
            State::Cloning { .. } => Some(Action::CloneExtents),
            State::Removing { .. } => Some(Action::RemoveDestination),
            State::Finished { .. } => None,
        }
    }
}

/// Where the machine goes when it is done with the destination that `dest`
/// guards and has `result` to return: an armed guard has the destination
/// removed first.
pub open spec fn spec_finish(dest: AutoRemovedFile, result: Result<(), Error>) -> (State, Step<()>) {
    match dest.spec_release() {
        Some(action) => (State::Removing { result }, Step::Perform(action)),
        None => (State::Finished { result }, Step::Return(result)),
    }
}

/// The state that follows `state` on `event`, and what the machine wants then.
///
/// Any event starts a machine that has not started, and a machine that has
/// finished returns its result again. In between, an event that is no report
/// on the pending action changes nothing: the action is asked for again.
pub open spec fn transition(state: State, event: Event) -> (State, Step<()>) {
    match state {
        State::Start => (State::OpeningSource, Step::Perform(Action::OpenSource)),
        State::OpeningSource => match event {
            Event::Failed(e) => (State::Finished { result: Err(e) }, Step::Return(Err(e))),
            Event::Done => (State::CreatingDestination, Step::Perform(Action::CreateDestination)),
            _ => (state, Step::Perform(Action::OpenSource)),
        },
        State::CreatingDestination => if answers(Action::CreateDestination, event) {
            match AutoRemovedFile::spec_create_new(event) {
                Ok(dest) => (State::Cloning { dest }, Step::Perform(Action::CloneExtents)),
                Err(e) => (State::Finished { result: Err(e) }, Step::Return(Err(e))),
            }
        } else {
            (state, Step::Perform(Action::CreateDestination))
        },
        State::Cloning { dest } => match event {
            Event::Failed(e) => spec_finish(dest, Err(e)),
            Event::Done => spec_finish(AutoRemovedFile { armed: false }, Ok(())),
            _ => (state, Step::Perform(Action::CloneExtents)),
        },
        State::Removing { result } => if answers(Action::RemoveDestination, event) {
            (State::Finished { result }, Step::Return(result))
        } else {
            (state, Step::Perform(Action::RemoveDestination))
        },
        State::Finished { result } => (state, Step::Return(result)),
    }
}

/// Lets go of the guard and ends with `result`, after the removal that an
/// armed guard asks for.
fn finish(dest: AutoRemovedFile, result: Result<(), Error>) -> (next: (State, Step<()>))
    ensures
        next == spec_finish(dest, result),
{
    match dest.release() {
        Some(action) => (State::Removing { result }, Step::Perform(action)),
        None => (State::Finished { result }, Step::Return(result)),
    }
}

/// Advances the clone by one event.
///
/// The source is opened, the destination is created exclusively, and one
/// control call clones the extents. The first failure ends the clone with its
/// error; if the destination was created by then, it is removed before the
/// error is returned. On success the destination is kept.
pub fn reflink(state: State, event: Event) -> (next: (State, Step<()>))
    ensures
        next == transition(state, event),
        match next.1 {
            Step::Perform(action) => next.0.pending() == Some(action),
            Step::Return(result) => next.0 == (State::Finished { result }),
        },
{
    match state {
        State::Start => (State::OpeningSource, Step::Perform(Action::OpenSource)),
        State::Finished { result } => (state, Step::Return(result)),
        State::OpeningSource => match event {
            Event::Failed(e) => (State::Finished { result: Err(e) }, Step::Return(Err(e))),
            Event::Done => (State::CreatingDestination, Step::Perform(Action::CreateDestination)),
            _ => (state, Step::Perform(Action::OpenSource)),
        },
        State::CreatingDestination => if is_answer(&Action::CreateDestination, &event) {
            match AutoRemovedFile::create_new(event) {
                Ok(dest) => (State::Cloning { dest }, Step::Perform(Action::CloneExtents)),
                Err(e) => (State::Finished { result: Err(e) }, Step::Return(Err(e))),
            }
        } else {
            (state, Step::Perform(Action::CreateDestination))
        },
        State::Cloning { dest } => match event {
            Event::Failed(e) => finish(dest, Err(e)),
            Event::Done => {
                let mut dest = dest;
                dest.persist();
                finish(dest, Ok(()))
            },
            _ => (state, Step::Perform(Action::CloneExtents)),
        },
        State::Removing { result } => if is_answer(&Action::RemoveDestination, &event) {
            (State::Finished { result }, Step::Return(result))
        } else {
            (state, Step::Perform(Action::RemoveDestination))
        },
    }
}

} // verus!
