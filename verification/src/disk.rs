//! What a clone does to the disk, as far as the two paths go.
//!
//! The state machines of this library only ask for actions. This module says
//! what each action does to a model of the disk when it is carried out, and
//! which reports a file system can give on it. Over that model it states,
//! and proves, what every run of a clone leaves behind.
//!
//! The model takes the source to stay as it is while the clone runs. An
//! action that fails changes nothing, but for a write to the destination: a
//! write that fails may leave any bytes behind, and a copy that fails may
//! leave nothing or any bytes at the destination path.

use vstd::prelude::*;
use crate::sys::unix::{linux, macos};
use crate::sys::windows_impl;
use crate::sys::windows_impl::{lemma_round_up_bounds, DUPLICATE_EXTENTS_DATA};
use crate::sys::{answers, Action, Error, Event, Platform};
use crate::{sys, transition, transition_or_copy, Reflink, ReflinkOrCopy};

verus! {

/// The two paths of a clone on disk.
pub struct Disk {
    /// The content of the regular file at the source path; `None` where the
    /// path names no file or something else than a regular file.
    pub source: Option<Seq<u8>>,
    /// The content of what exists at the destination path; `None` where
    /// nothing does.
    pub dest: Option<Seq<u8>>,
    /// Whether the source can be opened and reports its size and attributes.
    /// Nothing is said of its integrity information.
    pub source_readable: bool,
    /// Whether the destination can be removed.
    pub removable: bool,
    /// What a write to the destination leaves there when it fails.
    pub debris: Seq<u8>,
    /// What is at the destination path after a copy has failed: nothing, or
    /// any bytes.
    pub wreck: Option<Seq<u8>>,
}

impl Disk {
    /// This disk with `content` at the destination path.
    pub open spec fn with_dest(self, content: Option<Seq<u8>>) -> Disk {
        Disk { dest: content, ..self }
    }

    /// This disk after a write to the destination has failed: a destination
    /// that exists holds the debris.
    pub open spec fn spoiled(self) -> Disk {
        if self.dest is Some {
            self.with_dest(Some(self.debris))
        } else {
            self
        }
    }
}

/// `content` cut or filled up with zeros to `len` bytes.
pub open spec fn resized(content: Seq<u8>, len: int) -> Seq<u8> {
    Seq::new(
        len as nat,
        |i: int|
            if i < content.len() {
                content[i]
            } else {
                0u8
            },
    )
}

/// `dest` after the extents of `source` that `extent` names were duplicated
/// into it: the bytes of the run that lie within both files are those of the
/// source, and the length of `dest` is what it was.
pub open spec fn duplicated(source: Seq<u8>, dest: Seq<u8>, extent: DUPLICATE_EXTENTS_DATA) -> Seq<
    u8,
> {
    Seq::new(
        dest.len(),
        |i: int|
            {
                let j = i - extent.TargetFileOffset + extent.SourceFileOffset;
                if extent.TargetFileOffset <= i < extent.TargetFileOffset + extent.ByteCount && 0
                    <= j < source.len() {
                    source[j]
                } else {
                    dest[i]
                }
            },
    )
}

/// The disk after `action` was carried out on `disk` and `event` reports on
/// it.
pub open spec fn effect(disk: Disk, action: Action, event: Event) -> Disk {
    match (action, event) {
        (Action::CreateDestination, Event::Done) => disk.with_dest(Some(Seq::empty())),
        (Action::CloneExtents, Event::Done) => disk.with_dest(disk.source),
        (Action::CloneFile { .. }, Event::Done) => disk.with_dest(disk.source),
        (Action::SetLength(len), Event::Done) => disk.with_dest(
            Some(resized(disk.dest.unwrap(), len as int)),
        ),
        (Action::DuplicateExtents(extent), Event::Done) => disk.with_dest(
            Some(duplicated(disk.source.unwrap(), disk.dest.unwrap(), extent)),
        ),
        (Action::RemoveDestination, Event::Done) => disk.with_dest(None),
        (Action::Copy, Event::Copied(_)) => disk.with_dest(disk.source),
        (Action::Copy, Event::Failed(_)) => disk.with_dest(disk.wreck),
        (Action::CloneExtents, Event::Failed(_)) => disk.spoiled(),
        (Action::SetLength(_), Event::Failed(_)) => disk.spoiled(),
        (Action::DuplicateExtents(_), Event::Failed(_)) => disk.spoiled(),
        _ => disk,
    }
}

/// Whether a file system in the state `disk` can give `event` as its report
/// on `action`.
///
/// A source that is no regular file cannot be opened, read or copied, and a
/// regular one reports its true length. The query for the integrity
/// information may fail on any source. Nothing is created over an existing
/// destination: the attempt fails with [`Error::AlreadyExists`]. Only a
/// destination that exists can be written to.
pub open spec fn honest(disk: Disk, action: Action, event: Event) -> bool {
    &&& answers(action, event)
    &&& match action {
        Action::ProbeSource => event == (Event::Probed { is_file: disk.source is Some }),
        Action::OpenSource => {
            &&& event is Done ==> disk.source is Some
            &&& disk.source is Some && disk.source_readable ==> event is Done
        },
        Action::ReadMetadata => {
            &&& event is Metadata ==> disk.source is Some && event->size
                == disk.source.unwrap().len()
            &&& disk.source_readable ==> event is Metadata
        },
        Action::CreateDestination => disk.dest is Some ==> event == Event::Failed(
            Error::AlreadyExists,
        ),
        Action::CloneFile { .. } => {
            &&& disk.dest is Some ==> event == Event::Failed(Error::AlreadyExists)
            &&& event is Done ==> disk.source is Some
        },
        Action::RemoveDestination => disk.removable ==> event is Done,
        Action::Copy => event is Copied ==> disk.source is Some && event->Copied_0
            == disk.source.unwrap().len(),
        _ => event is Done ==> disk.source is Some && disk.dest is Some,
    }
}

/// The disk after `event` reached a machine that waited for `pending`.
pub open spec fn after(pending: Option<Action>, disk: Disk, event: Event) -> Disk {
    match pending {
        Some(action) => effect(disk, action, event),
        None => disk,
    }
}

/// Whether `event` can reach a machine that waits for `pending`.
pub open spec fn honest_reply(pending: Option<Action>, disk: Disk, event: Event) -> bool {
    match pending {
        Some(action) => honest(disk, action, event),
        None => true,
    }
}

/// The clone and the disk after the clone `op` has taken `events` one by one
/// and each action it asked for was carried out on `disk`.
pub open spec fn run(op: Reflink, disk: Disk, events: Seq<Event>) -> (Reflink, Disk)
    decreases events.len(),
{
    if events.len() == 0 {
        (op, disk)
    } else {
        let (before, on_disk) = run(op, disk, events.drop_last());
        (transition(before, events.last()).0, after(before.pending(), on_disk, events.last()))
    }
}

/// Whether each of `events` is one that the clone can take and that a file
/// system can give at that point of the run.
pub open spec fn honest_run(op: Reflink, disk: Disk, events: Seq<Event>) -> bool
    decreases events.len(),
{
    events.len() == 0 || {
        let (before, on_disk) = run(op, disk, events.drop_last());
        &&& honest_run(op, disk, events.drop_last())
        &&& before.accepts(events.last())
        &&& honest_reply(before.pending(), on_disk, events.last())
    }
}

/// Whether `disk` differs from `start` at most in what is at the destination
/// path.
spec fn same_but_dest(disk: Disk, start: Disk) -> bool {
    &&& disk.debris == start.debris
    &&& disk.wreck == start.wreck
    &&& disk.source == start.source
    &&& disk.source_readable == start.source_readable
    &&& disk.removable == start.removable
}

/// Whether `backend` has not taken its first step.
spec fn at_start(backend: sys::State) -> bool {
    match backend {
        sys::State::Linux(state) => state is Start,
        sys::State::MacOs(state) => state is Start,
        sys::State::Windows(state) => state is Start,
        sys::State::Unsupported => true,
    }
}

/// Whether the source on `disk` is a regular file of `size` bytes.
spec fn sized(disk: Disk, size: i64) -> bool {
    disk.source is Some && disk.source.unwrap().len() == size
}

/// What holds between a backend at work and the disk when the destination
/// did not exist at first: until the destination is created nothing is
/// there, and from then on it is there under an armed guard, or on its way
/// out with an error to return.
spec fn backend_fresh(backend: sys::State, disk: Disk) -> bool {
    match backend {
        sys::State::Linux(state) => match state {
            linux::State::Start => disk.dest is None,
            linux::State::OpeningSource => disk.dest is None,
            linux::State::CreatingDestination => disk.dest is None,
            linux::State::Cloning { dest } => dest.armed && disk.dest is Some,
            linux::State::Removing { result } => result is Err,
            linux::State::Finished { .. } => false,
        },
        sys::State::MacOs(state) => match state {
            macos::State::Start { .. } => disk.dest is None,
            macos::State::Cloning => disk.dest is None,
            macos::State::Finished { .. } => false,
        },
        sys::State::Windows(state) => match state {
            windows_impl::State::Start => disk.dest is None,
            windows_impl::State::OpeningSource => disk.dest is None,
            windows_impl::State::ReadingMetadata => disk.dest is None,
            windows_impl::State::CreatingDestination { size, .. } => disk.dest is None && sized(
                disk,
                size,
            ),
            windows_impl::State::ReadingIntegrity { dest, size, .. } => dest.armed
                && disk.dest is Some && sized(disk, size),
            windows_impl::State::SettingSparse { dest, size, .. } => dest.armed && disk.dest is Some
                && sized(disk, size),
            windows_impl::State::SettingIntegrity { dest, size, .. } => dest.armed
                && disk.dest is Some && sized(disk, size),
            windows_impl::State::SettingLength { dest, size, .. } => dest.armed && disk.dest is Some
                && sized(disk, size),
            windows_impl::State::Duplicating { dest, total, copied, .. } => {
                &&& dest.armed
                &&& disk.source is Some
                &&& disk.dest is Some
                &&& disk.dest.unwrap().len() == disk.source.unwrap().len()
                &&& disk.source.unwrap().len() <= total
                &&& forall|i: int|
                    0 <= i < copied && i < disk.source.unwrap().len() ==> disk.dest.unwrap()[i]
                        == disk.source.unwrap()[i]
            },
            windows_impl::State::Removing { result } => result is Err,
            windows_impl::State::Finished { .. } => false,
        },
        sys::State::Unsupported => disk.dest is None,
    }
}

/// What holds between a clone and the disk at every point of a run that
/// began on `start`, where the destination did not exist.
spec fn fresh(op: Reflink, disk: Disk, start: Disk) -> bool {
    &&& same_but_dest(disk, start)
    &&& match op {
        Reflink::Start { backend } => at_start(backend) && disk.dest is None,
        Reflink::Probing { backend } => at_start(backend) && disk.dest is None,
        Reflink::Running { backend } => backend_fresh(backend, disk),
        Reflink::Finished { result } => match result {
            Ok(()) => disk.source is Some && disk.dest == disk.source,
            Err(_) => start.removable ==> disk.dest is None,
        },
    }
}

/// One honest event keeps [`fresh`].
proof fn lemma_fresh_step(op: Reflink, disk: Disk, start: Disk, event: Event)
    requires
        fresh(op, disk, start),
        op.accepts(event),
        honest_reply(op.pending(), disk, event),
    ensures
        fresh(transition(op, event).0, after(op.pending(), disk, event), start),
{
    let next = transition(op, event).0;
    let left = after(op.pending(), disk, event);
    match op {
        Reflink::Running { backend: sys::State::Windows(state) } => {
            match state {
                windows_impl::State::SettingLength { dest, size, cluster } => {
                    if cluster != 0 {
                        lemma_round_up_bounds(size as int, cluster as int);
                    }
                    if event is Done {
                        assert(left.dest.unwrap().len() == size);
                        if next is Finished {
                            assert(left.dest.unwrap() =~= left.source.unwrap());
                        }
                    }
                },
                windows_impl::State::Duplicating { dest, total, max, copied } => {
                    if event is Done && next is Finished {
                        assert(left.dest.unwrap() =~= left.source.unwrap());
                    }
                },
                _ => {},
            }
        },
        _ => {},
    }
}

/// Every honest run keeps [`fresh`].
proof fn lemma_fresh_run(op: Reflink, disk: Disk, events: Seq<Event>)
    requires
        fresh(op, disk, disk),
        honest_run(op, disk, events),
    ensures
        fresh(run(op, disk, events).0, run(op, disk, events).1, disk),
    decreases events.len(),
{
    if events.len() > 0 {
        lemma_fresh_run(op, disk, events.drop_last());
        let (before, on_disk) = run(op, disk, events.drop_last());
        lemma_fresh_step(before, on_disk, disk, events.last());
    }
}

/// A clone to a path where nothing exists makes a true copy or leaves
/// nothing.
///
/// Take a disk on which nothing exists at the destination path, and any run
/// of a clone on it that a file system can produce. If the clone has ended
/// with success, the destination holds, byte for byte, what the source
/// holds. If it has ended with an error, nothing exists at the destination
/// path, as long as the destination can be removed from the disk: a removal
/// that is refused is not reported. The source is what it was either way.
pub proof fn lemma_clone_or_nothing(
    platform: Platform,
    from: Seq<u8>,
    to: Seq<u8>,
    disk: Disk,
    events: Seq<Event>,
)
    requires
        disk.dest is None,
        honest_run(Reflink::spec_new(platform, from, to), disk, events),
    ensures
        ({
            let (op, left) = run(Reflink::spec_new(platform, from, to), disk, events);
            &&& left.source == disk.source
            &&& op matches Reflink::Finished { result } ==> match result {
                Ok(()) => left.source is Some && left.dest == left.source,
                Err(_) => disk.removable ==> left.dest is None,
            }
        }),
{
    lemma_fresh_run(Reflink::spec_new(platform, from, to), disk, events);
}

/// Whether `backend` is one that makes clones and can pass on both paths.
spec fn able(backend: sys::State) -> bool {
    match backend {
        sys::State::MacOs(macos::State::Start { encodable }) => encodable,
        sys::State::Unsupported => false,
        _ => true,
    }
}

/// Whether `backend` is at work and has not yet asked for the destination to
/// be made.
spec fn before_creation(backend: sys::State) -> bool {
    match backend {
        sys::State::Linux(state) => state is OpeningSource || state is CreatingDestination,
        sys::State::MacOs(state) => state is Cloning,
        sys::State::Windows(state) => state is OpeningSource || state is ReadingMetadata
            || state is CreatingDestination,
        sys::State::Unsupported => false,
    }
}

/// What holds between a clone and the disk at every point of a run that
/// began on `start`, where the destination existed: the disk is as it was,
/// and the clone can only end with an error. `good` says that nothing but
/// the destination stands in the way of the clone.
spec fn occupied(op: Reflink, disk: Disk, start: Disk, good: bool) -> bool {
    &&& disk == start
    &&& disk.dest is Some
    &&& good ==> disk.source is Some && disk.source_readable
    &&& match op {
        Reflink::Start { backend } => at_start(backend) && (good ==> able(backend)),
        Reflink::Probing { backend } => at_start(backend) && (good ==> able(backend)),
        Reflink::Running { backend } => before_creation(backend),
        Reflink::Finished { result } => result is Err && (good ==> result == Err::<(), Error>(
            Error::AlreadyExists,
        )),
    }
}

/// Every honest run keeps [`occupied`].
proof fn lemma_occupied_run(op: Reflink, disk: Disk, events: Seq<Event>, good: bool)
    requires
        occupied(op, disk, disk, good),
        honest_run(op, disk, events),
    ensures
        occupied(run(op, disk, events).0, run(op, disk, events).1, disk, good),
    decreases events.len(),
{
    if events.len() > 0 {
        lemma_occupied_run(op, disk, events.drop_last(), good);
    }
}

/// A clone never replaces what exists at the destination path.
///
/// Take a disk on which something exists at the destination path, and any
/// run of a clone on it that a file system can produce. The disk is left as
/// it was, and the clone can only end with an error. Where the clone gets as
/// far as the destination, the error is [`Error::AlreadyExists`]: that is
/// where the source is a regular file that can be opened and reports its
/// size and attributes, the platform has a backend, and a backend that
/// clones by path finds no `0` in either path. What the query for the
/// integrity information would answer does not matter.
pub proof fn lemma_existing_destination_is_kept(
    platform: Platform,
    from: Seq<u8>,
    to: Seq<u8>,
    disk: Disk,
    events: Seq<Event>,
)
    requires
        disk.dest is Some,
        honest_run(Reflink::spec_new(platform, from, to), disk, events),
    ensures
        ({
            let (op, left) = run(Reflink::spec_new(platform, from, to), disk, events);
            &&& left == disk
            &&& op matches Reflink::Finished { result } ==> {
                &&& result is Err
                &&& ({
                    &&& disk.source is Some
                    &&& disk.source_readable
                    &&& platform != Platform::Other
                    &&& platform == Platform::MacOs || platform == Platform::Ios ==> !macos::has_nul(
                        from,
                    ) && !macos::has_nul(to)
                }) ==> result == Err::<(), Error>(Error::AlreadyExists)
            }
        }),
{
    let good = {
        &&& disk.source is Some
        &&& disk.source_readable
        &&& platform != Platform::Other
        &&& platform == Platform::MacOs || platform == Platform::Ios ==> !macos::has_nul(from)
            && !macos::has_nul(to)
    };
    lemma_occupied_run(Reflink::spec_new(platform, from, to), disk, events, good);
}

/// What holds between a clone and the disk at every point of a run on a disk
/// without a regular file at the source path: the disk is as it was, and the
/// backend never gets to work.
spec fn rejected(op: Reflink, disk: Disk, start: Disk) -> bool {
    &&& disk == start
    &&& disk.source is None
    &&& match op {
        Reflink::Start { .. } => true,
        Reflink::Probing { .. } => true,
        Reflink::Running { .. } => false,
        Reflink::Finished { result } => result == Err::<(), Error>(Error::InvalidInput),
    }
}

/// Every honest run keeps [`rejected`].
proof fn lemma_rejected_run(op: Reflink, disk: Disk, events: Seq<Event>)
    requires
        rejected(op, disk, disk),
        honest_run(op, disk, events),
    ensures
        rejected(run(op, disk, events).0, run(op, disk, events).1, disk),
    decreases events.len(),
{
    if events.len() > 0 {
        lemma_rejected_run(op, disk, events.drop_last());
    }
}

/// A source that is no regular file is turned down before anything happens.
///
/// Take a disk on which the source path names no regular file: nothing, or a
/// directory. In any run of a clone on it that a file system can produce,
/// the clone asks for nothing but the look at the source, the disk is left
/// as it was, and the clone can only end with [`Error::InvalidInput`].
pub proof fn lemma_missing_source_is_rejected(
    platform: Platform,
    from: Seq<u8>,
    to: Seq<u8>,
    disk: Disk,
    events: Seq<Event>,
)
    requires
        disk.source is None,
        honest_run(Reflink::spec_new(platform, from, to), disk, events),
    ensures
        ({
            let (op, left) = run(Reflink::spec_new(platform, from, to), disk, events);
            &&& left == disk
            &&& op.pending() is None || op.pending() == Some(Action::ProbeSource)
            &&& op matches Reflink::Finished { result } ==> result == Err::<(), Error>(
                Error::InvalidInput,
            )
        }),
{
    lemma_rejected_run(Reflink::spec_new(platform, from, to), disk, events);
}

/// What holds between a clone and the disk at every point of a run on a
/// platform without a backend: the disk is as it was, and the backend never
/// gets to work.
spec fn idle(op: Reflink, disk: Disk, start: Disk) -> bool {
    &&& disk == start
    &&& match op {
        Reflink::Start { backend } => backend is Unsupported,
        Reflink::Probing { backend } => backend is Unsupported,
        Reflink::Running { .. } => false,
        Reflink::Finished { result } => result == Err::<(), Error>(
            if disk.source is Some {
                Error::Unsupported
            } else {
                Error::InvalidInput
            },
        ),
    }
}

/// Every honest run keeps [`idle`].
proof fn lemma_idle_run(op: Reflink, disk: Disk, events: Seq<Event>)
    requires
        idle(op, disk, disk),
        honest_run(op, disk, events),
    ensures
        idle(run(op, disk, events).0, run(op, disk, events).1, disk),
    decreases events.len(),
{
    if events.len() > 0 {
        lemma_idle_run(op, disk, events.drop_last());
    }
}

/// A platform without a backend leaves the disk alone.
///
/// On a platform where files cannot be cloned, in any run of a clone that a
/// file system can produce, the clone asks for nothing but the look at the
/// source, and the disk is left as it was. With a regular file at the source
/// path the clone can only end with [`Error::Unsupported`].
pub proof fn lemma_unsupported_platform_changes_nothing(
    from: Seq<u8>,
    to: Seq<u8>,
    disk: Disk,
    events: Seq<Event>,
)
    requires
        honest_run(Reflink::spec_new(Platform::Other, from, to), disk, events),
    ensures
        ({
            let (op, left) = run(Reflink::spec_new(Platform::Other, from, to), disk, events);
            &&& left == disk
            &&& op.pending() is None || op.pending() == Some(Action::ProbeSource)
            &&& op matches Reflink::Finished { result } ==> (disk.source is Some ==> result
                == Err::<(), Error>(Error::Unsupported))
        }),
{
    lemma_idle_run(Reflink::spec_new(Platform::Other, from, to), disk, events);
}

/// The disk after one clone after another was run on it, each from its
/// start, with the events of `calls`.
pub open spec fn repeated(
    platform: Platform,
    from: Seq<u8>,
    to: Seq<u8>,
    disk: Disk,
    calls: Seq<Seq<Event>>,
) -> Disk
    decreases calls.len(),
{
    if calls.len() == 0 {
        disk
    } else {
        run(
            Reflink::spec_new(platform, from, to),
            repeated(platform, from, to, disk, calls.drop_last()),
            calls.last(),
        ).1
    }
}

/// Whether each of `calls` is a run that a file system can produce on the
/// disk that the calls before it have left, and ends with an error.
pub open spec fn all_fail(
    platform: Platform,
    from: Seq<u8>,
    to: Seq<u8>,
    disk: Disk,
    calls: Seq<Seq<Event>>,
) -> bool
    decreases calls.len(),
{
    calls.len() == 0 || {
        let before = repeated(platform, from, to, disk, calls.drop_last());
        let op = Reflink::spec_new(platform, from, to);
        &&& all_fail(platform, from, to, disk, calls.drop_last())
        &&& honest_run(op, before, calls.last())
        &&& run(op, before, calls.last()).0 matches Reflink::Finished { result } && result is Err
    }
}

/// The first `n` of calls that all fail all fail, and leave the disk that the
/// whole run passes through after them.
proof fn lemma_all_fail_so_far(
    platform: Platform,
    from: Seq<u8>,
    to: Seq<u8>,
    disk: Disk,
    calls: Seq<Seq<Event>>,
    n: int,
)
    requires
        all_fail(platform, from, to, disk, calls),
        0 <= n <= calls.len(),
    ensures
        all_fail(platform, from, to, disk, calls.take(n)),
    decreases calls.len(),
{
    if n == calls.len() {
        assert(calls.take(n) == calls);
    } else {
        lemma_all_fail_so_far(platform, from, to, disk, calls.drop_last(), n);
        assert(calls.drop_last().take(n) == calls.take(n));
    }
}

/// Calls that all fail leave nothing behind at their end.
proof fn lemma_failures_leave_nothing_at_last(
    platform: Platform,
    from: Seq<u8>,
    to: Seq<u8>,
    disk: Disk,
    calls: Seq<Seq<Event>>,
)
    requires
        disk.dest is None,
        disk.removable,
        all_fail(platform, from, to, disk, calls),
    ensures
        repeated(platform, from, to, disk, calls).dest is None,
        repeated(platform, from, to, disk, calls).removable,
        repeated(platform, from, to, disk, calls).source == disk.source,
    decreases calls.len(),
{
    if calls.len() > 0 {
        let before = repeated(platform, from, to, disk, calls.drop_last());
        lemma_failures_leave_nothing_at_last(platform, from, to, disk, calls.drop_last());
        lemma_fresh_run(Reflink::spec_new(platform, from, to), before, calls.last());
    }
}

/// Clones that fail leave nothing behind, however often they are repeated.
///
/// Take a disk on which nothing exists at the destination path and from
/// which the destination can be removed again, and any number of clones that
/// are run on it one after the other and each end with an error. After each
/// of them nothing exists at the destination path, and the source is what it
/// was.
pub proof fn lemma_failures_leave_nothing(
    platform: Platform,
    from: Seq<u8>,
    to: Seq<u8>,
    disk: Disk,
    calls: Seq<Seq<Event>>,
)
    requires
        disk.dest is None,
        disk.removable,
        all_fail(platform, from, to, disk, calls),
    ensures
        forall|n: int|
            0 <= n <= calls.len() ==> {
                let left = #[trigger] repeated(platform, from, to, disk, calls.take(n));
                left.dest is None && left.source == disk.source
            },
{
    assert forall|n: int| 0 <= n <= calls.len() implies {
        let left = #[trigger] repeated(platform, from, to, disk, calls.take(n));
        left.dest is None && left.source == disk.source
    } by {
        lemma_all_fail_so_far(platform, from, to, disk, calls, n);
        lemma_failures_leave_nothing_at_last(platform, from, to, disk, calls.take(n));
    }
}

/// The operation and the disk after the clone with a fallback `op` has taken
/// `events` one by one and each action it asked for was carried out on
/// `disk`.
pub open spec fn run_or_copy(op: ReflinkOrCopy, disk: Disk, events: Seq<Event>) -> (
    ReflinkOrCopy,
    Disk,
)
    decreases events.len(),
{
    if events.len() == 0 {
        (op, disk)
    } else {
        let (before, on_disk) = run_or_copy(op, disk, events.drop_last());
        (
            transition_or_copy(before, events.last()).0,
            after(before.pending(), on_disk, events.last()),
        )
    }
}

/// Where a clone with a fallback stands when its clone stands at `op`.
pub open spec fn or_copy(op: Reflink) -> ReflinkOrCopy {
    match op {
        Reflink::Finished { result: Ok(()) } => ReflinkOrCopy::Finished { result: Ok(None) },
        Reflink::Finished { result: Err(_) } => ReflinkOrCopy::Copying,
        _ => ReflinkOrCopy::Cloning { op },
    }
}

/// Until the clone has ended, a clone with a fallback does what the clone
/// alone does.
///
/// Give the same events to a clone and to a clone with a fallback, on the
/// same disk, where the clone has not ended before the last of them. Both
/// leave the same disk. Where the clone has ended with success, the other
/// has ended with `Ok(None)`; where it has ended with an error, the other
/// has asked for the copy; else both wait for the same action.
pub proof fn lemma_or_copy_follows_clone(op: Reflink, disk: Disk, events: Seq<Event>)
    requires
        !(op is Finished),
        events.len() > 0 ==> !(run(op, disk, events.drop_last()).0 is Finished),
    ensures
        run_or_copy(ReflinkOrCopy::Cloning { op }, disk, events) == (
            or_copy(run(op, disk, events).0),
            run(op, disk, events).1,
        ),
    decreases events.len(),
{
    if events.len() > 0 {
        let earlier = events.drop_last();
        if earlier.len() > 0 {
            let (first, _on_disk) = run(op, disk, earlier.drop_last());
            assert(transition(first, earlier.last()).0 == run(op, disk, earlier).0);
        }
        lemma_or_copy_follows_clone(op, disk, earlier);
    }
}

/// Where the clone succeeds, the clone with a fallback does, with the same
/// outcome.
///
/// Take a run of a clone that has ended with success at its last event, and
/// the same events given to a clone with a fallback on the same disk: it has
/// ended with `Ok(None)` and has left the same disk.
pub proof fn lemma_or_copy_keeps_a_clone(
    platform: Platform,
    from: Seq<u8>,
    to: Seq<u8>,
    disk: Disk,
    events: Seq<Event>,
)
    requires
        events.len() > 0,
        !(run(Reflink::spec_new(platform, from, to), disk, events.drop_last()).0 is Finished),
        run(Reflink::spec_new(platform, from, to), disk, events).0 == (Reflink::Finished {
            result: Ok(()),
        }),
    ensures
        run_or_copy(ReflinkOrCopy::spec_new(platform, from, to), disk, events) == (
            ReflinkOrCopy::Finished { result: Ok(None) },
            run(Reflink::spec_new(platform, from, to), disk, events).1,
        ),
{
    lemma_or_copy_follows_clone(Reflink::spec_new(platform, from, to), disk, events);
}

/// Where the clone fails, the clone with a fallback succeeds if the copy
/// does.
///
/// Take a run of a clone that has ended with an error at its last event, and
/// the same events given to a clone with a fallback on the same disk: it has
/// asked for the copy. On any report `reply` that a file system can give on
/// the copy it ends. Where the copy has succeeded, the result is
/// `Ok(Some(n))` with `n` the length of the source, and the destination
/// holds, byte for byte, what the source holds. Where the copy has failed,
/// the result is the error of the copy, and at the destination path is
/// whatever the failed copy has left.
pub proof fn lemma_or_copy_makes_up_for_a_failure(
    platform: Platform,
    from: Seq<u8>,
    to: Seq<u8>,
    disk: Disk,
    events: Seq<Event>,
    reply: Event,
)
    requires
        events.len() > 0,
        !(run(Reflink::spec_new(platform, from, to), disk, events.drop_last()).0 is Finished),
        run(Reflink::spec_new(platform, from, to), disk, events).0 matches Reflink::Finished {
            result,
        } && result is Err,
        honest(run(Reflink::spec_new(platform, from, to), disk, events).1, Action::Copy, reply),
    ensures
        ({
            let left = run(Reflink::spec_new(platform, from, to), disk, events).1;
            let both = ReflinkOrCopy::spec_new(platform, from, to);
            &&& run_or_copy(both, disk, events) == (ReflinkOrCopy::Copying, left)
            &&& match reply {
                Event::Copied(written) => {
                    &&& left.source is Some
                    &&& written == left.source.unwrap().len()
                    &&& run_or_copy(both, disk, events.push(reply)) == (
                        ReflinkOrCopy::Finished { result: Ok(Some(written)) },
                        left.with_dest(left.source),
                    )
                },
                Event::Failed(e) => run_or_copy(both, disk, events.push(reply)) == (
                    ReflinkOrCopy::Finished { result: Err(e) },
                    left.with_dest(left.wreck),
                ),
                _ => false,
            }
        }),
{
    lemma_or_copy_follows_clone(Reflink::spec_new(platform, from, to), disk, events);
    assert(events.push(reply).drop_last() == events);
}

} // verus!
