//! Some file systems can copy a file without copying its data: the new file
//! shares the extents of the old one until either of them is written to.
//!
//! This library holds the decisions of such a clone, and of the plain copy
//! that may stand in for it. It never touches the file system. A clone is a
//! state machine: [`reflink`] takes the state and a report on what was asked
//! for last, and gives the next state and what it asks for now. The caller
//! carries out each [`sys::Action`] on its own handles and reports back with
//! a [`sys::Event`], until the machine returns a result.
//!
//! The destination is always created exclusively: a clone never replaces a
//! file. A clone that fails after its destination was created asks for the
//! destination to be removed before it returns the error.

use vstd::prelude::*;
use crate::sys::{Action, Error, Event, Platform, Step};

pub mod disk;
pub mod sys;

verus! {

/// One clone of a file, in the state it has reached.
#[derive(Clone, Copy, Debug, PartialEq, Eq)]
pub enum Reflink {
    /// Nothing was asked for yet.
    Start { backend: sys::State },
    /// The source path is being looked at.
    Probing { backend: sys::State },
    /// The backend is at work.
    Running { backend: sys::State },
    /// The clone has ended with `result`.
    Finished { result: Result<(), Error> },
}

impl Reflink {
    /// The clone on `platform` from the path `from` to the path `to`, before
    /// its first step.
    pub open spec fn spec_new(platform: Platform, from: Seq<u8>, to: Seq<u8>) -> Reflink {
        Reflink::Start { backend: sys::State::spec_new(platform, from, to) }
    }

    /// Prepares a clone on `platform` from the path `from` to the path `to`,
    /// both given as the bytes of the path.
    pub fn new(platform: Platform, from: &[u8], to: &[u8]) -> (op: Reflink)
        ensures
            op == Self::spec_new(platform, from@, to@),
            op.wf(),
    {
        Reflink::Start { backend: sys::State::new(platform, from, to) }
    }

    /// The action whose report the clone waits for, if any.
    pub open spec fn spec_pending(&self) -> Option<Action> {
        match *self {
            Reflink::Probing { .. } => Some(Action::ProbeSource),
            Reflink::Running { backend } => backend.pending(),
            _ => None,
        }
    }

    /// The action whose report the clone waits for, if any.
    #[verifier::when_used_as_spec(spec_pending)]
    pub fn pending(&self) -> (action: Option<Action>)
        requires
            self.wf(),
        ensures
            action == self.spec_pending(),
    {
        match self {
            Reflink::Probing { .. } => Some(Action::ProbeSource),
            Reflink::Running { backend } => backend.pending(),
            _ => None,
        }
    }

    /// Whether the numbers in the state are those of a state that the clone
    /// reaches.
    pub open spec fn wf(&self) -> bool {
        match *self {
            Reflink::Start { backend } => backend.wf(),
            Reflink::Probing { backend } => backend.wf(),
            Reflink::Running { backend } => backend.wf(),
            Reflink::Finished { .. } => true,
        }
    }

    /// Whether the clone can take `event` now: the state is well formed, and
    /// a size that the event reports lies within the limits of the backend.
    pub open spec fn accepts(&self, event: Event) -> bool {
        match *self {
            Reflink::Start { backend } => backend.wf(),
            Reflink::Probing { backend } => backend.accepts(Event::Begin),
            Reflink::Running { backend } => backend.accepts(event),
            Reflink::Finished { .. } => true,
        }
    }

    /// Tests [`Reflink::accepts`].
    pub fn can_accept(&self, event: &Event) -> (yes: bool)
        ensures
            yes == self.accepts(*event),
    {
        match self {
            Reflink::Start { backend } => backend.can_accept(&Event::Begin),
            Reflink::Probing { backend } => backend.can_accept(&Event::Begin),
            Reflink::Running { backend } => backend.can_accept(event),
            Reflink::Finished { .. } => true,
        }
    }
}

/// The state of a clone whose backend has taken a step.
pub open spec fn spec_advanced(taken: (sys::State, Step<()>)) -> (Reflink, Step<()>) {
    match taken.1 {
        Step::Perform(action) => (Reflink::Running { backend: taken.0 }, Step::Perform(action)),
        Step::Return(result) => (Reflink::Finished { result }, Step::Return(result)),
    }
}

/// The state that follows `op` on `event`, and what the clone wants then.
///
/// Any event starts a clone that has not started, and a clone that has
/// finished returns its result again. In between, an event that is no report
/// on the pending action changes nothing: the action is asked for again.
pub open spec fn transition(op: Reflink, event: Event) -> (Reflink, Step<()>) {
    match op {
        Reflink::Start { backend } => (
            Reflink::Probing { backend },
            Step::Perform(Action::ProbeSource),
        ),
        Reflink::Probing { backend } => match event {
            Event::Probed { is_file } => if is_file {
                spec_advanced(sys::transition(backend, Event::Begin))
            } else {
                (
                    Reflink::Finished { result: Err(Error::InvalidInput) },
                    Step::Return(Err(Error::InvalidInput)),
                )
            },
            _ => (op, Step::Perform(Action::ProbeSource)),
        },
        Reflink::Running { backend } => spec_advanced(sys::transition(backend, event)),
        Reflink::Finished { result } => (op, Step::Return(result)),
    }
}

/// Wraps a step of the backend into a step of the clone.
fn advanced(taken: (sys::State, Step<()>)) -> (next: (Reflink, Step<()>))
    ensures
        next == spec_advanced(taken),
{
    match taken.1 {
        Step::Perform(action) => (Reflink::Running { backend: taken.0 }, Step::Perform(action)),
        Step::Return(result) => (Reflink::Finished { result }, Step::Return(result)),
    }
}

/// Advances a clone by one event.
///
/// The first thing asked for is a look at the source path. A source that is
/// not an existing regular file ends the clone with
/// [`Error::InvalidInput`], and nothing else is asked of the file system.
/// Otherwise the backend of the platform takes over, and its result is the
/// result of the clone.
pub fn reflink(op: Reflink, event: Event) -> (next: (Reflink, Step<()>))
    requires
        op.accepts(event),
    ensures
        next == transition(op, event),
        next.0.wf(),
        match next.1 {
            Step::Perform(action) => next.0.pending() == Some(action),
            Step::Return(result) => next.0 == (Reflink::Finished { result }),
        },
{
    match op {
        Reflink::Start { backend } => (
            Reflink::Probing { backend },
            Step::Perform(Action::ProbeSource),
        ),
        Reflink::Probing { backend } => match event {
            Event::Probed { is_file } => if is_file {
                advanced(sys::reflink(backend, Event::Begin))
            } else {
                (
                    Reflink::Finished { result: Err(Error::InvalidInput) },
                    Step::Return(Err(Error::InvalidInput)),
                )
            },
            _ => (op, Step::Perform(Action::ProbeSource)),
        },
        Reflink::Running { backend } => advanced(sys::reflink(backend, event)),
        Reflink::Finished { result } => (op, Step::Return(result)),
    }
}

/// One clone of a file with a plain copy to fall back on, in the state it has
/// reached.
#[derive(Clone, Copy, Debug, PartialEq, Eq)]
pub enum ReflinkOrCopy {
    /// The clone is being attempted.
    Cloning { op: Reflink },
    /// The clone has failed and the file is being copied.
    Copying,
    /// The operation has ended with `result`.
    Finished { result: Result<Option<u64>, Error> },
}

impl ReflinkOrCopy {
    /// The operation on `platform` from the path `from` to the path `to`,
    /// before its first step.
    pub open spec fn spec_new(platform: Platform, from: Seq<u8>, to: Seq<u8>) -> ReflinkOrCopy {
        ReflinkOrCopy::Cloning { op: Reflink::spec_new(platform, from, to) }
    }

    /// Prepares a clone with a fallback on `platform` from the path `from` to
    /// the path `to`, both given as the bytes of the path.
    pub fn new(platform: Platform, from: &[u8], to: &[u8]) -> (op: ReflinkOrCopy)
        ensures
            op == Self::spec_new(platform, from@, to@),
            op.wf(),
    {
        ReflinkOrCopy::Cloning { op: Reflink::new(platform, from, to) }
    }

    /// The action whose report the operation waits for, if any.
    pub open spec fn spec_pending(&self) -> Option<Action> {
        match *self {
            ReflinkOrCopy::Cloning { op } => op.pending(),
            ReflinkOrCopy::Copying => Some(Action::Copy),
            ReflinkOrCopy::Finished { .. } => None,
        }
    }

    /// The action whose report the operation waits for, if any.
    #[verifier::when_used_as_spec(spec_pending)]
    pub fn pending(&self) -> (action: Option<Action>)
        requires
            self.wf(),
        ensures
            action == self.spec_pending(),
    {
        match self {
            ReflinkOrCopy::Cloning { op } => op.pending(),
            ReflinkOrCopy::Copying => Some(Action::Copy),
            ReflinkOrCopy::Finished { .. } => None,
        }
    }

    /// Whether the numbers in the state are those of a state that the
    /// operation reaches.
    pub open spec fn wf(&self) -> bool {
        match *self {
            ReflinkOrCopy::Cloning { op } => op.wf(),
            _ => true,
        }
    }

    /// Whether the operation can take `event` now.
    pub open spec fn accepts(&self, event: Event) -> bool {
        match *self {
            ReflinkOrCopy::Cloning { op } => op.accepts(event),
            _ => true,
        }
    }

    /// Tests [`ReflinkOrCopy::accepts`].
    pub fn can_accept(&self, event: &Event) -> (yes: bool)
        ensures
            yes == self.accepts(*event),
    {
        match self {
            ReflinkOrCopy::Cloning { op } => op.can_accept(event),
            _ => true,
        }
    }
}

/// The state of the operation whose clone has taken a step: a clone that
/// succeeds ends the operation with `None`, and one that fails, for whatever
/// reason, has the file copied.
pub open spec fn spec_cloned(taken: (Reflink, Step<()>)) -> (ReflinkOrCopy, Step<Option<u64>>) {
    match taken.1 {
        Step::Perform(action) => (ReflinkOrCopy::Cloning { op: taken.0 }, Step::Perform(action)),
        Step::Return(Ok(())) => (
            ReflinkOrCopy::Finished { result: Ok(None) },
            Step::Return(Ok(None)),
        ),
        Step::Return(Err(_)) => (ReflinkOrCopy::Copying, Step::Perform(Action::Copy)),
    }
}

/// The state that follows `op` on `event`, and what the operation wants then.
pub open spec fn transition_or_copy(op: ReflinkOrCopy, event: Event) -> (
    ReflinkOrCopy,
    Step<Option<u64>>,
) {
    match op {
        ReflinkOrCopy::Cloning { op } => spec_cloned(transition(op, event)),
        ReflinkOrCopy::Copying => match event {
            Event::Copied(written) => (
                ReflinkOrCopy::Finished { result: Ok(Some(written)) },
                Step::Return(Ok(Some(written))),
            ),
            Event::Failed(e) => (ReflinkOrCopy::Finished { result: Err(e) }, Step::Return(Err(e))),
            _ => (op, Step::Perform(Action::Copy)),
        },
        ReflinkOrCopy::Finished { result } => (op, Step::Return(result)),
    }
}

/// Turns a step of the clone into a step of the clone with a fallback.
fn cloned(taken: (Reflink, Step<()>)) -> (next: (ReflinkOrCopy, Step<Option<u64>>))
    ensures
        next == spec_cloned(taken),
{
    match taken.1 {
        Step::Perform(action) => (ReflinkOrCopy::Cloning { op: taken.0 }, Step::Perform(action)),
        Step::Return(Ok(())) => (
            ReflinkOrCopy::Finished { result: Ok(None) },
            Step::Return(Ok(None)),
        ),
        Step::Return(Err(_)) => (ReflinkOrCopy::Copying, Step::Perform(Action::Copy)),
    }
}

/// Advances a clone with a fallback by one event.
///
/// The clone is attempted as [`reflink`] does it. If it succeeds the result
/// is `Ok(None)`. If it fails, whatever the error, a plain copy of the source
/// to the destination is asked for: the result is `Ok(Some(written))` with
/// the number of bytes that the copy reports, or the error of the copy.
pub fn reflink_or_copy(op: ReflinkOrCopy, event: Event) -> (next: (
    ReflinkOrCopy,
    Step<Option<u64>>,
))
    requires
        op.accepts(event),
    ensures
        next == transition_or_copy(op, event),
        next.0.wf(),
        match next.1 {
            Step::Perform(action) => next.0.pending() == Some(action),
            Step::Return(result) => next.0 == (ReflinkOrCopy::Finished { result }),
        },
{
    match op {
        ReflinkOrCopy::Cloning { op } => cloned(reflink(op, event)),
        ReflinkOrCopy::Copying => match event {
            Event::Copied(written) => (
                ReflinkOrCopy::Finished { result: Ok(Some(written)) },
                Step::Return(Ok(Some(written))),
            ),
            Event::Failed(e) => (ReflinkOrCopy::Finished { result: Err(e) }, Step::Return(Err(e))),
            _ => (op, Step::Perform(Action::Copy)),
        },
        ReflinkOrCopy::Finished { result } => (op, Step::Return(result)),
    }
}

} // verus!
