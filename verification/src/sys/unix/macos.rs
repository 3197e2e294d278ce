//! The backend that clones a file by path with one library call.
//!
//! The call creates the destination itself and fails if the path exists, so
//! this backend keeps no guard: it relies on the call to leave nothing behind
//! when it fails.

use vstd::prelude::*;
use crate::sys::{Action, Error, Event, Step};

verus! {

/// The flag that keeps the clone from taking over the owner of the source.
pub const CLONE_NOOWNERCOPY: u32 = 0x0002;

/// Whether the byte `0` occurs in `path`.
pub open spec fn has_nul(path: Seq<u8>) -> bool {
    exists|i: int| 0 <= i < path.len() && path[i] == 0
}

/// The bytes of `path` followed by the terminating `0`, as the operating
/// system takes a path. A path that holds a `0` of its own cannot be passed
/// on and gives [`Error::InvalidInput`].
pub fn cstr(path: &[u8]) -> (encoded: Result<Vec<u8>, Error>)
    ensures
        match encoded {
            Ok(bytes) => !has_nul(path@) && bytes@ == path@.push(0),
            Err(e) => has_nul(path@) && e == Error::InvalidInput,
        },
{
    let mut bytes: Vec<u8> = Vec::new();
    let mut i: usize = 0;
    while i < path.len()
        invariant
            i <= path.len(),
            bytes@ == path@.take(i as int),
            forall|j: int| 0 <= j < i ==> path[j] != 0,
        decreases path.len() - i,
    {
        if path[i] == 0 {
            return Err(Error::InvalidInput);
        }
        bytes.push(path[i]);
        proof {
            assert(path@.take(i + 1) == path@.take(i as int).push(path[i as int]));
        }
        i += 1;
    }
    proof {
        assert(path@.take(i as int) == path@);
    }
    bytes.push(0);
    Ok(bytes)
}

/// How far a clone has come.
#[derive(Clone, Copy, Debug, PartialEq, Eq)]
pub enum State {
    /// Nothing was asked for yet; `encodable` says whether both paths can be
    /// handed to the operating system.
    Start { encodable: bool },
    /// The library call is under way.
    Cloning,
    /// The clone has ended with `result`.
    Finished { result: Result<(), Error> },
}

impl State {
    /// The machine for one clone from the path `from` to the path `to`, both
    /// given as the bytes of the path.
    pub fn new(from: &[u8], to: &[u8]) -> (state: State)
        ensures
            state == (State::Start { encodable: !has_nul(from@) && !has_nul(to@) }),
    {
        let encodable = cstr(from).is_ok() && cstr(to).is_ok();
        State::Start { encodable }
    }

    /// The action whose report the machine waits for, if any.
    pub open spec fn spec_pending(&self) -> Option<Action> {
        match *self {
            State::Cloning => Some(Action::CloneFile { flags: CLONE_NOOWNERCOPY }),
            _ => None,
        }
    }

    /// The action whose report the machine waits for, if any.
    #[verifier::when_used_as_spec(spec_pending)]
    pub fn pending(&self) -> (action: Option<Action>)
        ensures
            action == self.spec_pending(),
    {
        match self {
            State::Cloning => Some(Action::CloneFile { flags: CLONE_NOOWNERCOPY }),
            _ => None,
        }
    }
}

/// The state that follows `state` on `event`, and what the machine wants then.
///
/// Any event starts a machine that has not started, and a machine that has
/// finished returns its result again. In between, an event that is no report
/// on the pending action changes nothing: the action is asked for again.
pub open spec fn transition(state: State, event: Event) -> (State, Step<()>) {
    match state {
        State::Start { encodable } => if encodable {
            (State::Cloning, Step::Perform(Action::CloneFile { flags: CLONE_NOOWNERCOPY }))
        } else {
            (
                State::Finished { result: Err(Error::InvalidInput) },
                Step::Return(Err(Error::InvalidInput)),
            )
        },
        State::Cloning => match event {
            Event::Failed(e) => (State::Finished { result: Err(e) }, Step::Return(Err(e))),
            Event::Done => (State::Finished { result: Ok(()) }, Step::Return(Ok(()))),
            _ => (state, Step::Perform(Action::CloneFile { flags: CLONE_NOOWNERCOPY })),
        },
        State::Finished { result } => (state, Step::Return(result)),
    }
}

/// Advances the clone by one event.
///
/// A path that cannot be handed to the operating system ends the clone with
/// [`Error::InvalidInput`] before anything is asked for. Otherwise one call
/// clones the source to the destination path without taking over its owner,
/// and its outcome is the result.
pub fn reflink(state: State, event: Event) -> (next: (State, Step<()>))
    ensures
        next == transition(state, event),
        match next.1 {
            Step::Perform(action) => next.0.pending() == Some(action),
            Step::Return(result) => next.0 == (State::Finished { result }),
        },
{
    match state {
        State::Start { encodable } => if encodable {
            (State::Cloning, Step::Perform(Action::CloneFile { flags: CLONE_NOOWNERCOPY }))
        } else {
            (
                State::Finished { result: Err(Error::InvalidInput) },
                Step::Return(Err(Error::InvalidInput)),
            )
        },
        State::Cloning => match event {
            Event::Failed(e) => (State::Finished { result: Err(e) }, Step::Return(Err(e))),
            Event::Done => (State::Finished { result: Ok(()) }, Step::Return(Ok(()))),
            _ => (state, Step::Perform(Action::CloneFile { flags: CLONE_NOOWNERCOPY })),
        },
        State::Finished { result } => (state, Step::Return(result)),
    }
}

} // verus!
