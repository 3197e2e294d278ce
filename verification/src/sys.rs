//! The vocabulary shared by every backend, and the choice of a backend.
//!
//! A backend never touches the file system itself. It is a state machine: it
//! names the next [`Action`] to carry out, is told by an [`Event`] how that
//! went, and decides what follows. The caller owns the handles and performs
//! the actions, in the order in which they are asked for.

use vstd::prelude::*;
use crate::sys::unix::{linux, macos};
use crate::sys::windows_impl::{
    DUPLICATE_EXTENTS_DATA, FSCTL_GET_INTEGRITY_INFORMATION_BUFFER,
    FSCTL_SET_INTEGRITY_INFORMATION_BUFFER,
};

pub mod others;
pub mod unix;
pub mod utility;
pub mod windows_impl;

verus! {

/// Why a clone was not made.
#[derive(Clone, Copy, Debug, PartialEq, Eq)]
pub enum Error {
    /// The source is not an existing regular file, or a path cannot be handed
    /// to the operating system.
    InvalidInput,
    /// Something already exists at the destination path.
    AlreadyExists,
    /// No backend exists for the running operating system.
    Unsupported,
    /// The volume reports a cluster size, given here, that is neither 4 KiB
    /// nor 64 KiB.
    ClusterSize(u32),
    /// Any other failure that the operating system reported, by its code.
    Os(i32),
}

/// The operating system family the caller runs on.
#[derive(Clone, Copy, Debug, PartialEq, Eq)]
pub enum Platform {
    Linux,
    Android,
    MacOs,
    Ios,
    Windows,
    Other,
}

/// One operation on the file system that a backend asks its caller to perform.
#[derive(Clone, Copy, Debug, PartialEq, Eq)]
pub enum Action {
    /// Find out whether the source path names an existing regular file.
    ProbeSource,
    /// Open the source read-only.
    OpenSource,
    /// Read the size of the open source and its file attributes.
    ReadMetadata,
    /// Query the integrity information of the open source.
    ReadIntegrity,
    /// Create the destination for writing; fail if the path exists.
    CreateDestination,
    /// Clone all extents of the source into the destination in one call.
    CloneExtents,
    /// Clone the source path to the destination path, which must not exist,
    /// with the given flags.
    CloneFile { flags: u32 },
    /// Mark the destination as sparse.
    SetSparse,
    /// Set the integrity information of the destination.
    SetIntegrity(FSCTL_SET_INTEGRITY_INFORMATION_BUFFER),
    /// Set the logical length of the destination, in bytes.
    SetLength(u64),
    /// Duplicate one run of extents from the source into the destination.
    DuplicateExtents(DUPLICATE_EXTENTS_DATA),
    /// Remove the destination path.
    RemoveDestination,
    /// Copy the content and permissions of the source to the destination
    /// path, replacing what is there.
    Copy,
}

/// What the caller reports back to a state machine.
#[derive(Clone, Copy, Debug, PartialEq, Eq)]
pub enum Event {
    /// Nothing was asked for yet: start.
    Begin,
    /// The answer to [`Action::ProbeSource`].
    Probed { is_file: bool },
    /// The action succeeded and has nothing to report.
    Done,
    /// The action failed.
    Failed(Error),
    /// The answer to [`Action::ReadMetadata`]: the size of the source in
    /// bytes and its file attributes.
    Metadata { size: u64, attributes: u32 },
    /// The answer to [`Action::ReadIntegrity`].
    Integrity(FSCTL_GET_INTEGRITY_INFORMATION_BUFFER),
    /// The answer to [`Action::Copy`]: the number of bytes copied.
    Copied(u64),
}

/// What a state machine wants next: an action performed, or to end with a
/// result.
#[derive(Debug, PartialEq, Eq)]
pub enum Step<T> {
    Perform(Action),
    Return(Result<T, Error>),
}

/// Whether `event` is a report on `action`.
pub open spec fn answers(action: Action, event: Event) -> bool {
    match action {
        Action::ProbeSource => event is Probed,
        Action::ReadMetadata => event is Failed || event is Metadata,
        Action::ReadIntegrity => event is Failed || event is Integrity,
        Action::Copy => event is Failed || event is Copied,
        _ => event is Failed || event is Done,
    }
}

/// The result of a clone where no backend can make one.
pub fn reflink_not_supported() -> (result: Result<(), Error>)
    ensures
        result == Err::<(), Error>(Error::Unsupported),
{
    Err(Error::Unsupported)
}

/// Whether `event` is a report on `action`.
pub fn is_answer(action: &Action, event: &Event) -> (yes: bool)
    ensures
        yes == answers(*action, *event),
{
    match action {
        Action::ProbeSource => matches!(event, Event::Probed { .. }),
        Action::ReadMetadata => matches!(event, Event::Failed(_) | Event::Metadata { .. }),
        Action::ReadIntegrity => matches!(event, Event::Failed(_) | Event::Integrity(_)),
        Action::Copy => matches!(event, Event::Failed(_) | Event::Copied(_)),
        _ => matches!(event, Event::Failed(_) | Event::Done),
    }
}

/// The backend of one clone, in the state it has reached.
#[derive(Clone, Copy, Debug, PartialEq, Eq)]
pub enum State {
    /// One control call clones all extents.
    Linux(linux::State),
    /// One library call clones the file by path.
    MacOs(macos::State),
    /// Extents are duplicated run by run.
    Windows(windows_impl::State),
    /// No clone can be made on this platform.
    Unsupported,
}

impl State {
    /// The backend for a clone on `platform` from the path `from` to the path
    /// `to`, before its first step.
    pub open spec fn spec_new(platform: Platform, from: Seq<u8>, to: Seq<u8>) -> State {
        match platform {
            Platform::Linux => State::Linux(linux::State::Start),
            Platform::Android => State::Linux(linux::State::Start),
            Platform::MacOs => State::MacOs(
                macos::State::Start { encodable: !macos::has_nul(from) && !macos::has_nul(to) },
            ),
            Platform::Ios => State::MacOs(
                macos::State::Start { encodable: !macos::has_nul(from) && !macos::has_nul(to) },
            ),
            Platform::Windows => State::Windows(windows_impl::State::Start),
            Platform::Other => State::Unsupported,
        }
    }

    /// Selects the backend for a clone on `platform` from the path `from` to
    /// the path `to`, both given as the bytes of the path: exactly one for
    /// each platform on which files can be cloned.
    pub fn new(platform: Platform, from: &[u8], to: &[u8]) -> (state: State)
        ensures
            state == Self::spec_new(platform, from@, to@),
            state.wf(),
    {
        match platform {
            Platform::Linux | Platform::Android => State::Linux(linux::State::Start),
            Platform::MacOs | Platform::Ios => State::MacOs(macos::State::new(from, to)),
            Platform::Windows => State::Windows(windows_impl::State::Start),
            Platform::Other => State::Unsupported,
        }
    }

    /// The action whose report the backend waits for, if any.
    pub open spec fn spec_pending(&self) -> Option<Action> {
        match *self {
            State::Linux(state) => state.pending(),
            State::MacOs(state) => state.pending(),
            State::Windows(state) => state.pending(),
            State::Unsupported => None,
        }
    }

    /// The action whose report the backend waits for, if any.
    #[verifier::when_used_as_spec(spec_pending)]
    pub fn pending(&self) -> (action: Option<Action>)
        requires
            self.wf(),
        ensures
            action == self.spec_pending(),
    {
        match self {
            State::Linux(state) => state.pending(),
            State::MacOs(state) => state.pending(),
            State::Windows(state) => state.pending(),
            State::Unsupported => None,
        }
    }

    /// The result with which the backend has ended, if it has.
    pub open spec fn finished(&self) -> Option<Result<(), Error>> {
        match *self {
            State::Linux(linux::State::Finished { result }) => Some(result),
            State::MacOs(macos::State::Finished { result }) => Some(result),
            State::Windows(windows_impl::State::Finished { result }) => Some(result),
            State::Unsupported => Some(Err(Error::Unsupported)),
            _ => None,
        }
    }

    /// Whether the numbers in the state are those of a state that the backend
    /// reaches.
    pub open spec fn wf(&self) -> bool {
        match *self {
            State::Windows(state) => state.wf(),
            _ => true,
        }
    }

    /// Whether the backend can take `event` now.
    pub open spec fn accepts(&self, event: Event) -> bool {
        match *self {
            State::Windows(state) => state.accepts(event),
            _ => true,
        }
    }

    /// Tests [`State::accepts`].
    pub fn can_accept(&self, event: &Event) -> (yes: bool)
        ensures
            yes == self.accepts(*event),
    {
        match self {
            State::Windows(state) => state.can_accept(event),
            _ => true,
        }
    }
}

/// The state that follows `state` on `event`, and what the backend wants
/// then: the transition of the backend that was selected.
pub open spec fn transition(state: State, event: Event) -> (State, Step<()>) {
    match state {
        State::Linux(inner) => {
            let (next, step) = linux::transition(inner, event);
            (State::Linux(next), step)
        },
        State::MacOs(inner) => {
            let (next, step) = macos::transition(inner, event);
            (State::MacOs(next), step)
        },
        State::Windows(inner) => {
            let (next, step) = windows_impl::transition(inner, event);
            (State::Windows(next), step)
        },
        State::Unsupported => (State::Unsupported, Step::Return(Err(Error::Unsupported))),
    }
}

/// Advances the clone by one event, in the backend that was selected for the
/// platform. Where there is none, the clone ends with
/// [`Error::Unsupported`] and nothing is ever asked of the file system.
pub fn reflink(state: State, event: Event) -> (next: (State, Step<()>))
    requires
        state.accepts(event),
    ensures
        next == transition(state, event),
        next.0.wf(),
        match next.1 {
            Step::Perform(action) => next.0.pending() == Some(action),
            Step::Return(result) => next.0.finished() == Some(result),
        },
{
    match state {
        State::Linux(inner) => {
            let (next, step) = linux::reflink(inner, event);
            (State::Linux(next), step)
        },
        State::MacOs(inner) => {
            let (next, step) = macos::reflink(inner, event);
            (State::MacOs(next), step)
        },
        State::Windows(inner) => {
            let (next, step) = windows_impl::reflink(inner, event);
            (State::Windows(next), step)
        },
        State::Unsupported => (State::Unsupported, others::reflink(event)),
    }
}

} // verus!
