//! The backend that duplicates extents run by run.
//!
//! One request moves at most one run of extents, shorter than 4 GiB, and a
//! run must begin and end on a cluster boundary of the volume. So the clone
//! is a sequence of requests that covers the length of the source rounded up
//! to a whole cluster. The destination is given the exact length of the
//! source first, so that what a request covers beyond it does not show.
//!
//! A volume reports its cluster size with the integrity information. The
//! size must be 4 KiB or 64 KiB. A volume that reports `0` is taken to have
//! no clusters to keep to: its files are cloned in one run of their exact
//! length.

use vstd::prelude::*;
use vstd::arithmetic::div_mod::{lemma_fundamental_div_mod, lemma_mod_multiples_basic};
use vstd::arithmetic::mul::lemma_mul_is_commutative;
use vstd::arithmetic::power::pow;
use vstd::arithmetic::power2::{
    is_pow2, is_pow2_equiv, lemma2_to64_rest, lemma_pow2_adds, lemma_pow2_strictly_increases,
    pow2,
};
use vstd::bits::{lemma_u64_low_bits_mask_is_mod, low_bits_mask};
use crate::sys::utility::AutoRemovedFile;
use crate::sys::{answers, is_answer, Action, Error, Event, Step};

verus! {

/// The integrity information of a file, as the volume reports it.
#[allow(non_camel_case_types)]
#[allow(non_snake_case)]
#[derive(Clone, Copy, Debug, PartialEq, Eq)]
pub struct FSCTL_GET_INTEGRITY_INFORMATION_BUFFER {
    pub ChecksumAlgorithm: u16,
    pub Reserved: u16,
    pub Flags: u32,
    pub ChecksumChunkSizeInBytes: u32,
    pub ClusterSizeInBytes: u32,
}

/// The integrity information to set on a file.
#[allow(non_camel_case_types)]
#[allow(non_snake_case)]
#[derive(Clone, Copy, Debug, PartialEq, Eq)]
pub struct FSCTL_SET_INTEGRITY_INFORMATION_BUFFER {
    pub ChecksumAlgorithm: u16,
    pub Reserved: u16,
    pub Flags: u32,
}

/// One request to duplicate a run of extents of the source into the
/// destination. The handle of the source is the caller's.
#[allow(non_camel_case_types)]
#[allow(non_snake_case)]
#[derive(Clone, Copy, Debug, PartialEq, Eq)]
pub struct DUPLICATE_EXTENTS_DATA {
    pub SourceFileOffset: i64,
    pub TargetFileOffset: i64,
    pub ByteCount: i64,
}

/// No request may reach this many bytes.
pub const FOUR_GIB: i64 = 0x1_0000_0000;

/// The smaller of the two cluster sizes that a volume may report.
pub const CLUSTER_4K: i64 = 4096;

/// The larger of the two cluster sizes that a volume may report.
pub const CLUSTER_64K: i64 = 65536;

/// The file attribute of a sparse file.
pub const FILE_ATTRIBUTE_SPARSE_FILE: u32 = 0x200;

/// The flag of a volume whose clusters can be shared between files.
pub const FILE_SUPPORTS_BLOCK_REFCOUNTING: u32 = 0x0800_0000;

/// Whether `attributes` are those of a sparse file.
pub open spec fn spec_is_sparse(attributes: u32) -> bool {
    attributes & FILE_ATTRIBUTE_SPARSE_FILE != 0
}

/// Whether the file attributes `attributes` are those of a sparse file.
#[verifier::when_used_as_spec(spec_is_sparse)]
pub fn is_sparse(attributes: u32) -> (sparse: bool)
    ensures
        sparse == spec_is_sparse(attributes),
{
    attributes & FILE_ATTRIBUTE_SPARSE_FILE != 0
}

/// Whether a volume with the file system flags `flags` can share clusters
/// between files.
pub open spec fn spec_is_block_cloning_supported(flags: u32) -> bool {
    flags & FILE_SUPPORTS_BLOCK_REFCOUNTING != 0
}

/// Whether a volume with the file system flags `flags` can share clusters
/// between files, which the duplication of extents needs.
#[verifier::when_used_as_spec(spec_is_block_cloning_supported)]
pub fn is_block_cloning_supported(flags: u32) -> (supported: bool)
    ensures
        supported == spec_is_block_cloning_supported(flags),
{
    flags & FILE_SUPPORTS_BLOCK_REFCOUNTING != 0
}

/// The least multiple of `multiple` that is not below `n`.
pub open spec fn spec_round_up(n: int, multiple: int) -> int {
    if n % multiple == 0 {
        n
    } else {
        n - n % multiple + multiple
    }
}

/// The number of bytes that the requests cover: the size of the source,
/// rounded up to a whole cluster where the cluster size is known.
pub open spec fn spec_total_copy_len(size: int, cluster: int) -> int {
    if cluster == 0 {
        size
    } else {
        spec_round_up(size, cluster)
    }
}

/// The most bytes that one request may ask for: everything where the cluster
/// size is unknown, else the largest multiple of the cluster size that leaves
/// at least one cluster up to 4 GiB.
pub open spec fn spec_max_copy_len(total: int, cluster: int) -> int {
    if cluster == 0 {
        total
    } else {
        (FOUR_GIB - cluster) - (FOUR_GIB - cluster) % cluster
    }
}

/// The number of bytes that the next request asks for once `copied` bytes of
/// `total` are covered: what is left, but no more than `max`.
pub open spec fn spec_bytes_to_copy(copied: int, total: int, max: int) -> int {
    if total - copied <= max {
        total - copied
    } else {
        max
    }
}

/// The request that follows once `copied` bytes of `total` are covered. It
/// starts where the last one ended, at the same offset in both files.
pub open spec fn spec_next_extent(copied: int, total: int, max: int) -> DUPLICATE_EXTENTS_DATA {
    DUPLICATE_EXTENTS_DATA {
        SourceFileOffset: copied as i64,
        TargetFileOffset: copied as i64,
        ByteCount: spec_bytes_to_copy(copied, total, max) as i64,
    }
}

/// The requests that are still to be made once `copied` bytes of `total` are
/// covered, in their order.
pub open spec fn spec_extents(copied: int, total: int, max: int) -> Seq<DUPLICATE_EXTENTS_DATA>
    decreases total - copied,
{
    if copied < total && 0 < max {
        seq![spec_next_extent(copied, total, max)] + spec_extents(
            copied + spec_bytes_to_copy(copied, total, max),
            total,
            max,
        )
    } else {
        Seq::empty()
    }
}

/// The exponent of a power of two that fits 64 bits.
proof fn lemma_exponent(m: u64) -> (n: nat)
    requires
        is_pow2(m as int),
    ensures
        pow2(n) == m,
        n < 64,
        m > 0,
{
    assert(m > 0) by {
        reveal(is_pow2);
    }
    is_pow2_equiv(m as int);
    let n = choose|i: nat| pow(2, i) == m as int;
    assert(pow2(n) == m);
    if n >= 64 {
        lemma2_to64_rest();
        if n > 64 {
            lemma_pow2_strictly_increases(64, n);
        }
    }
    n
}

/// Masking with a power of two less one keeps the remainder of the division
/// by that power.
proof fn lemma_mask_is_remainder(x: u64, m: u64)
    requires
        is_pow2(m as int),
    ensures
        x & (m - 1) as u64 == x % m,
{
    let n = lemma_exponent(m);
    assert(low_bits_mask(n) == m - 1);
    lemma_u64_low_bits_mask_is_mod(x, n);
}

/// What the mask `-multiple` does to a number, bit by bit.
proof fn lemma_negated_mask(bumped: i64, multiple: i64)
    by (bit_vector)
    requires
        multiple > 0,
    ensures
        (bumped & (-multiple) as i64) <= bumped,
        bumped - (bumped & (-multiple) as i64) == (bumped as u64) & (multiple - 1) as u64,
        ((bumped & (-multiple) as i64) as u64) & (multiple - 1) as u64 == 0,
        ((bumped as u64) & (multiple - 1) as u64) < multiple,
{
}

/// The bits of a signed number, read as an unsigned one.
proof fn lemma_reinterpret(x: i64)
    by (bit_vector)
    ensures
        x < 0 ==> (x as u64) == x + 0x1_0000_0000_0000_0000,
        x >= 0 ==> (x as u64) == x,
{
}

/// A power of two that fits 64 bits divides `2^64`.
proof fn lemma_divides_two_to_64(m: u64)
    requires
        is_pow2(m as int),
    ensures
        0x1_0000_0000_0000_0000int % (m as int) == 0,
{
    let n = lemma_exponent(m);
    lemma2_to64_rest();
    lemma_pow2_adds(n, (64 - n) as nat);
    lemma_mul_is_commutative(pow2(n) as int, pow2((64 - n) as nat) as int);
    lemma_mod_multiples_basic(pow2((64 - n) as nat) as int, m as int);
}

/// A number is its quotient times the divisor, and its remainder on top.
proof fn lemma_quotient(n: int, multiple: int)
    requires
        multiple > 0,
    ensures
        n == (n / multiple) * multiple + n % multiple,
        0 <= n % multiple < multiple,
{
    lemma_fundamental_div_mod(n, multiple);
    lemma_mul_is_commutative(multiple, n / multiple);
}

/// A window of `multiple` numbers that starts at `n` holds one multiple of
/// `multiple`, and that is `n` rounded up.
pub proof fn lemma_round_up_unique(n: int, multiple: int, r: int)
    requires
        multiple > 0,
        r % multiple == 0,
        n <= r < n + multiple,
    ensures
        r == spec_round_up(n, multiple),
{
    let q = n / multiple;
    let k = r / multiple;
    lemma_quotient(n, multiple);
    lemma_quotient(r, multiple);
    if k <= q - 1 {
        assert(k * multiple <= q * multiple - multiple) by (nonlinear_arith)
            requires
                k <= q - 1,
                multiple > 0,
        ;
    }
    if k >= q + 2 {
        assert(k * multiple >= q * multiple + 2 * multiple) by (nonlinear_arith)
            requires
                k >= q + 2,
                multiple > 0,
        ;
    }
    assert((q + 1) * multiple == q * multiple + multiple) by (nonlinear_arith);
}

/// Rounding up gives a multiple, moves up, and by less than one `multiple`.
pub proof fn lemma_round_up_bounds(n: int, multiple: int)
    requires
        multiple > 0,
    ensures
        spec_round_up(n, multiple) % multiple == 0,
        n <= spec_round_up(n, multiple) < n + multiple,
{
    let q = n / multiple;
    lemma_quotient(n, multiple);
    if n % multiple != 0 {
        assert((q + 1) * multiple == q * multiple + multiple) by (nonlinear_arith);
        lemma_mod_multiples_basic(q + 1, multiple);
    }
}

/// Rounds `num_to_round` up to the next multiple of `multiple`, which is a
/// power of two.
pub fn round_up(num_to_round: i64, multiple: i64) -> (rounded: i64)
    requires
        is_pow2(multiple as int),
        num_to_round + multiple - 1 <= i64::MAX,
    ensures
        rounded == spec_round_up(num_to_round as int, multiple as int),
        rounded % multiple == 0,
        num_to_round <= rounded < num_to_round + multiple,
{
    assert(multiple > 0) by {
        reveal(is_pow2);
    }
    let bumped: i64 = num_to_round + (multiple - 1);
    let rounded: i64 = bumped & -multiple;
    proof {
        lemma_negated_mask(bumped, multiple);
        lemma_mask_is_remainder(rounded as u64, multiple as u64);
        lemma_divides_two_to_64(multiple as u64);
        lemma_reinterpret(rounded);
        if rounded < 0 {
            lemma_multiples(
                (rounded as u64) as int,
                0x1_0000_0000_0000_0000int,
                multiple as int,
            );
        }
        lemma_round_up_unique(num_to_round as int, multiple as int, rounded as int);
    }
    rounded
}

/// Taking the remainder off a number leaves a multiple.
proof fn lemma_round_down(n: int, multiple: int)
    requires
        multiple > 0,
    ensures
        (n - n % multiple) % multiple == 0,
        0 <= n % multiple < multiple,
{
    lemma_quotient(n, multiple);
    lemma_mod_multiples_basic(n / multiple, multiple);
}

/// The two cluster sizes are powers of two.
pub proof fn lemma_cluster_sizes_are_powers_of_two()
    ensures
        is_pow2(CLUSTER_4K as int),
        is_pow2(CLUSTER_64K as int),
{
    reveal_with_fuel(is_pow2, 18);
}

/// The number of bytes that the requests must cover for a source of
/// `src_file_size` bytes on a volume with clusters of `cluster_size` bytes,
/// where `0` stands for an unknown cluster size.
pub fn total_copy_len(src_file_size: i64, cluster_size: i64) -> (total: i64)
    requires
        0 <= src_file_size,
        cluster_size == 0 || is_pow2(cluster_size as int),
        src_file_size + cluster_size - 1 <= i64::MAX,
    ensures
        total == spec_total_copy_len(src_file_size as int, cluster_size as int),
        src_file_size <= total,
        cluster_size != 0 ==> total % cluster_size == 0 && total < src_file_size + cluster_size,
{
    if cluster_size == 0 {
        src_file_size
    } else {
        round_up(src_file_size, cluster_size)
    }
}

/// The most bytes that one request may ask for when `total_copy_len` bytes
/// are to be covered on a volume with clusters of `cluster_size` bytes.
pub fn max_copy_len(total_copy_len: i64, cluster_size: i64) -> (max: i64)
    requires
        0 <= cluster_size < FOUR_GIB,
    ensures
        max == spec_max_copy_len(total_copy_len as int, cluster_size as int),
        cluster_size != 0 ==> max % cluster_size == 0 && FOUR_GIB - 2 * cluster_size < max
            <= FOUR_GIB - cluster_size,
{
    if cluster_size == 0 {
        total_copy_len
    } else {
        let room: i64 = FOUR_GIB - cluster_size;
        proof {
            lemma_round_down(room as int, cluster_size as int);
        }
        room - room % cluster_size
    }
}

/// The request that follows once `bytes_copied` of `total_copy_len` bytes are
/// covered: it starts where the last one ended, at the same offset in both
/// files, and asks for what is left, but for no more than `max_copy_len`.
pub fn next_extent(bytes_copied: i64, total_copy_len: i64, max_copy_len: i64) -> (extent:
    DUPLICATE_EXTENTS_DATA)
    requires
        0 <= bytes_copied <= total_copy_len,
    ensures
        extent == spec_next_extent(
            bytes_copied as int,
            total_copy_len as int,
            max_copy_len as int,
        ),
{
    let left: i64 = total_copy_len - bytes_copied;
    let bytes_to_copy: i64 = if left <= max_copy_len {
        left
    } else {
        max_copy_len
    };
    DUPLICATE_EXTENTS_DATA {
        SourceFileOffset: bytes_copied,
        TargetFileOffset: bytes_copied,
        ByteCount: bytes_to_copy,
    }
}

/// Whether a volume may report `cluster` as its cluster size.
pub open spec fn valid_cluster_size(cluster: int) -> bool {
    cluster == CLUSTER_4K || cluster == CLUSTER_64K
}

/// Whether a source of `size` bytes can be rounded up to whole clusters of
/// `cluster` bytes within the signed 64-bit offsets of a request.
pub open spec fn fits(size: int, cluster: int) -> bool {
    valid_cluster_size(cluster) ==> size + cluster - 1 <= i64::MAX
}

/// The integrity information that the destination is given: that of the
/// source.
pub open spec fn spec_integrity_to_set(
    info: FSCTL_GET_INTEGRITY_INFORMATION_BUFFER,
) -> FSCTL_SET_INTEGRITY_INFORMATION_BUFFER {
    FSCTL_SET_INTEGRITY_INFORMATION_BUFFER {
        ChecksumAlgorithm: info.ChecksumAlgorithm,
        Reserved: info.Reserved,
        Flags: info.Flags,
    }
}

/// The integrity information that the destination is given: that of the
/// source.
pub fn integrity_to_set(info: &FSCTL_GET_INTEGRITY_INFORMATION_BUFFER) -> (buffer:
    FSCTL_SET_INTEGRITY_INFORMATION_BUFFER)
    ensures
        buffer == spec_integrity_to_set(*info),
{
    FSCTL_SET_INTEGRITY_INFORMATION_BUFFER {
        ChecksumAlgorithm: info.ChecksumAlgorithm,
        Reserved: info.Reserved,
        Flags: info.Flags,
    }
}

/// How far a clone has come.
#[derive(Clone, Copy, Debug, PartialEq, Eq)]
pub enum State {
    /// Nothing was asked for yet.
    Start,
    /// The source is being opened.
    OpeningSource,
    /// The size of the source and its attributes are being read.
    ReadingMetadata,
    /// The destination is being created.
    CreatingDestination { size: i64, sparse: bool },
    /// The integrity information of the source is being read; `dest` guards
    /// the destination from here on.
    ReadingIntegrity { dest: AutoRemovedFile, size: i64, sparse: bool },
    /// The destination is being marked sparse.
    SettingSparse { dest: AutoRemovedFile, size: i64, info: FSCTL_GET_INTEGRITY_INFORMATION_BUFFER },
    /// The integrity information is being handed on to the destination.
    SettingIntegrity {
        dest: AutoRemovedFile,
        size: i64,
        info: FSCTL_GET_INTEGRITY_INFORMATION_BUFFER,
    },
    /// The destination is being given the length of the source.
    SettingLength { dest: AutoRemovedFile, size: i64, cluster: i64 },
    /// A request to duplicate extents is under way; `copied` bytes of `total`
    /// were covered before it, and no request asks for more than `max`.
    Duplicating { dest: AutoRemovedFile, total: i64, max: i64, copied: i64 },
    /// The destination is being removed; `result` is returned afterwards.
    Removing { result: Result<(), Error> },
    /// The clone has ended with `result`.
    Finished { result: Result<(), Error> },
}

impl State {
    /// The action whose report the machine waits for, if any.
    pub open spec fn spec_pending(&self) -> Option<Action> {
        match *self {
            State::Start => None,
            State::OpeningSource => Some(Action::OpenSource),
            State::ReadingMetadata => Some(Action::ReadMetadata),
            State::CreatingDestination { .. } => Some(Action::CreateDestination),
            State::ReadingIntegrity { .. } => Some(Action::ReadIntegrity),
            State::SettingSparse { .. } => Some(Action::SetSparse),
            State::SettingIntegrity { info, .. } => Some(
                Action::SetIntegrity(spec_integrity_to_set(info)),
            ),
            State::SettingLength { size, .. } => Some(Action::SetLength(size as u64)),
            State::Duplicating { total, max, copied, .. } => Some(
                Action::DuplicateExtents(spec_next_extent(copied as int, total as int, max as int)),
            ),
            State::Removing { .. } => Some(Action::RemoveDestination),
            State::Finished { .. } => None,
        }
    }

    /// What holds of the numbers in every state that the machine reaches: a
    /// size is not negative and can be rounded up to whole clusters, a
    /// cluster size that was checked is unknown or valid, and a request under
    /// way has bytes to cover.
    pub open spec fn wf(&self) -> bool {
        match *self {
            State::CreatingDestination { size, .. } => 0 <= size,
            State::ReadingIntegrity { size, .. } => 0 <= size,
            State::SettingSparse { size, info, .. } => 0 <= size && fits(
                size as int,
                info.ClusterSizeInBytes as int,
            ),
            State::SettingIntegrity { size, info, .. } => 0 <= size && fits(
                size as int,
                info.ClusterSizeInBytes as int,
            ),
            State::SettingLength { size, cluster, .. } => {
                &&& 0 <= size
                &&& cluster == 0 || valid_cluster_size(cluster as int)
                &&& fits(size as int, cluster as int)
            },
            State::Duplicating { total, max, copied, .. } => 0 <= copied < total && 0 < max,
            _ => true,
        }
    }

    /// Whether the machine can take `event` now: the state is well formed,
    /// and a size that the event reports, or completes, lies within the
    /// signed 64-bit offsets of a request, also when rounded up to whole
    /// clusters.
    pub open spec fn accepts(&self, event: Event) -> bool {
        &&& self.wf()
        &&& match (*self, event) {
            (State::ReadingMetadata, Event::Metadata { size, .. }) => size <= i64::MAX,
            (State::ReadingIntegrity { size, .. }, Event::Integrity(info)) => fits(
                size as int,
                info.ClusterSizeInBytes as int,
            ),
            _ => true,
        }
    }

    /// The action whose report the machine waits for, if any.
    #[verifier::when_used_as_spec(spec_pending)]
    pub fn pending(&self) -> (action: Option<Action>)
        requires
            self.wf(),
        ensures
            action == self.spec_pending(),
    {
        match self {
            State::Start => None,
            State::OpeningSource => Some(Action::OpenSource),
            State::ReadingMetadata => Some(Action::ReadMetadata),
            State::CreatingDestination { .. } => Some(Action::CreateDestination),
            State::ReadingIntegrity { .. } => Some(Action::ReadIntegrity),
            State::SettingSparse { .. } => Some(Action::SetSparse),
            State::SettingIntegrity { info, .. } => Some(
                Action::SetIntegrity(integrity_to_set(info)),
            ),
            State::SettingLength { size, .. } => Some(Action::SetLength(*size as u64)),
            State::Duplicating { total, max, copied, .. } => Some(
                Action::DuplicateExtents(next_extent(*copied, *total, *max)),
            ),
            State::Removing { .. } => Some(Action::RemoveDestination),
            State::Finished { .. } => None,
        }
    }

    /// Tests [`State::accepts`].
    pub fn can_accept(&self, event: &Event) -> (yes: bool)
        ensures
            yes == self.accepts(*event),
    {
        let well_formed = match self {
            State::CreatingDestination { size, .. } => 0 <= *size,
            State::ReadingIntegrity { size, .. } => 0 <= *size,
            State::SettingSparse { size, info, .. } => 0 <= *size && can_round(
                *size,
                info.ClusterSizeInBytes,
            ),
            State::SettingIntegrity { size, info, .. } => 0 <= *size && can_round(
                *size,
                info.ClusterSizeInBytes,
            ),
            State::SettingLength { size, cluster, .. } => 0 <= *size && (*cluster == 0
                || *cluster == CLUSTER_4K || *cluster == CLUSTER_64K) && (*cluster == 0 || *size
                <= i64::MAX - (*cluster - 1)),
            State::Duplicating { total, max, copied, .. } => 0 <= *copied && *copied < *total && 0
                < *max,
            _ => true,
        };
        well_formed && match (self, event) {
            (State::ReadingMetadata, Event::Metadata { size, .. }) => *size <= i64::MAX as u64,
            (State::ReadingIntegrity { size, .. }, Event::Integrity(info)) => can_round(
                *size,
                info.ClusterSizeInBytes,
            ),
            _ => true,
        }
    }
}

/// Tests [`fits`] for a cluster size as the volume reports it.
pub fn can_round(size: i64, cluster: u32) -> (yes: bool)
    ensures
        yes == fits(size as int, cluster as int),
{
    if cluster == 4096 || cluster == 65536 {
        size <= i64::MAX - (cluster as i64 - 1)
    } else {
        true
    }
}

/// Where the machine goes when it is done with the destination that `dest`
/// guards and has `result` to return: an armed guard has the destination
/// removed first.
pub open spec fn spec_finish(dest: AutoRemovedFile, result: Result<(), Error>) -> (State, Step<()>) {
    match dest.spec_release() {
        Some(action) => (State::Removing { result }, Step::Perform(action)),
        None => (State::Finished { result }, Step::Return(result)),
    }
}

/// What follows the attempt to hand on the integrity information, whatever
/// came of it: a cluster size that is known and is neither 4 KiB nor 64 KiB
/// ends the clone, else the destination is given the length of the source.
pub open spec fn spec_check_cluster(
    dest: AutoRemovedFile,
    size: i64,
    info: FSCTL_GET_INTEGRITY_INFORMATION_BUFFER,
) -> (State, Step<()>) {
    let cluster = info.ClusterSizeInBytes;
    if cluster != 0 && !valid_cluster_size(cluster as int) {
        spec_finish(dest, Err(Error::ClusterSize(cluster)))
    } else {
        (
            State::SettingLength { dest, size, cluster: cluster as i64 },
            Step::Perform(Action::SetLength(size as u64)),
        )
    }
}

/// What follows once `copied` bytes of `total` are covered: the next request
/// while bytes are left, else the destination is kept and the clone has
/// succeeded.
pub open spec fn spec_duplicate(dest: AutoRemovedFile, total: int, max: int, copied: int) -> (
    State,
    Step<()>,
) {
    if copied < total {
        (
            State::Duplicating { dest, total: total as i64, max: max as i64, copied: copied as i64 },
            Step::Perform(Action::DuplicateExtents(spec_next_extent(copied, total, max))),
        )
    } else {
        spec_finish(AutoRemovedFile { armed: false }, Ok(()))
    }
}

/// The state that follows `state` on `event`, and what the machine wants then.
///
/// Any event starts a machine that has not started, and a machine that has
/// finished returns its result again. In between, an event that is no report
/// on the pending action changes nothing: the action is asked for again.
pub open spec fn transition(state: State, event: Event) -> (State, Step<()>) {
    let again = (state, Step::<()>::Perform(state.pending().unwrap()));
    match state {
        State::Start => (State::OpeningSource, Step::Perform(Action::OpenSource)),
        State::OpeningSource => match event {
            Event::Failed(e) => (State::Finished { result: Err(e) }, Step::Return(Err(e))),
            Event::Done => (State::ReadingMetadata, Step::Perform(Action::ReadMetadata)),
            _ => again,
        },
        State::ReadingMetadata => match event {
            Event::Failed(e) => (State::Finished { result: Err(e) }, Step::Return(Err(e))),
            Event::Metadata { size, attributes } => (
                State::CreatingDestination { size: size as i64, sparse: is_sparse(attributes) },
                Step::Perform(Action::CreateDestination),
            ),
            _ => again,
        },
        State::CreatingDestination { size, sparse } => if answers(
            Action::CreateDestination,
            event,
        ) {
            match AutoRemovedFile::spec_create_new(event) {
                Ok(dest) => (
                    State::ReadingIntegrity { dest, size, sparse },
                    Step::Perform(Action::ReadIntegrity),
                ),
                Err(e) => (State::Finished { result: Err(e) }, Step::Return(Err(e))),
            }
        } else {
            again
        },
        State::ReadingIntegrity { dest, size, sparse } => match event {
            Event::Failed(e) => spec_finish(dest, Err(e)),
            Event::Integrity(info) => if sparse {
                (State::SettingSparse { dest, size, info }, Step::Perform(Action::SetSparse))
            } else {
                (
                    State::SettingIntegrity { dest, size, info },
                    Step::Perform(Action::SetIntegrity(spec_integrity_to_set(info))),
                )
            },
            _ => again,
        },
        State::SettingSparse { dest, size, info } => match event {
            Event::Failed(e) => spec_finish(dest, Err(e)),
            Event::Done => (
                State::SettingIntegrity { dest, size, info },
                Step::Perform(Action::SetIntegrity(spec_integrity_to_set(info))),
            ),
            _ => again,
        },
        State::SettingIntegrity { dest, size, info } => match event {
            Event::Failed(_) => spec_check_cluster(dest, size, info),
            Event::Done => spec_check_cluster(dest, size, info),
            _ => again,
        },
        State::SettingLength { dest, size, cluster } => match event {
            Event::Failed(e) => spec_finish(dest, Err(e)),
            Event::Done => {
                let total = spec_total_copy_len(size as int, cluster as int);
                spec_duplicate(dest, total, spec_max_copy_len(total, cluster as int), 0)
            },
            _ => again,
        },
        State::Duplicating { dest, total, max, copied } => match event {
            Event::Failed(e) => spec_finish(dest, Err(e)),
            Event::Done => spec_duplicate(
                dest,
                total as int,
                max as int,
                copied + spec_next_extent(copied as int, total as int, max as int).ByteCount,
            ),
            _ => again,
        },
        State::Removing { result } => if answers(Action::RemoveDestination, event) {
            (State::Finished { result }, Step::Return(result))
        } else {
            again
        },
        State::Finished { result } => (state, Step::Return(result)),
    }
}

/// Lets go of the guard and ends with `result`, after the removal that an
/// armed guard asks for.
fn finish(dest: AutoRemovedFile, result: Result<(), Error>) -> (next: (State, Step<()>))
    ensures
        next == spec_finish(dest, result),
{
    match dest.release() {
        Some(action) => (State::Removing { result }, Step::Perform(action)),
        None => (State::Finished { result }, Step::Return(result)),
    }
}

/// Checks the cluster size once the integrity information was handed on.
fn check_cluster(dest: AutoRemovedFile, size: i64, info: FSCTL_GET_INTEGRITY_INFORMATION_BUFFER) -> (next:
    (State, Step<()>))
    requires
        0 <= size,
        fits(size as int, info.ClusterSizeInBytes as int),
    ensures
        next == spec_check_cluster(dest, size, info),
        next.0.wf(),
{
    let cluster: i64 = info.ClusterSizeInBytes as i64;
    if cluster != 0 && cluster != CLUSTER_4K && cluster != CLUSTER_64K {
        finish(dest, Err(Error::ClusterSize(info.ClusterSizeInBytes)))
    } else {
        (State::SettingLength { dest, size, cluster }, Step::Perform(Action::SetLength(size as u64)))
    }
}

/// Asks for the next request, or keeps the destination when all is covered.
fn duplicate(dest: AutoRemovedFile, total: i64, max: i64, copied: i64) -> (next: (State, Step<()>))
    requires
        0 <= copied <= total,
        0 < max,
    ensures
        next == spec_duplicate(dest, total as int, max as int, copied as int),
        next.0.wf(),
{
    if copied < total {
        (
            State::Duplicating { dest, total, max, copied },
            Step::Perform(Action::DuplicateExtents(next_extent(copied, total, max))),
        )
    } else {
        let mut dest = dest;
        dest.persist();
        finish(dest, Ok(()))
    }
}

/// Advances the clone by one event.
///
/// The source is opened and its size and attributes are read. Then the
/// destination is created exclusively, before anything else is asked, so
/// that an existing destination is met with [`Error::AlreadyExists`]. The
/// integrity information of the source is read; the destination is marked
/// sparse if the source is, and is given that integrity information, which
/// may fail without harm. A cluster size other than 4 KiB, 64 KiB or the `0`
/// of a volume that reports none ends the clone with
/// [`Error::ClusterSize`]. The destination is set to the exact length of the
/// source, and requests to duplicate extents follow one another until the
/// length, rounded up to whole clusters, is covered; then the destination is
/// kept. Any other failure ends the clone with its error. Once the
/// destination was created, it is removed before an error is returned.
pub fn reflink(state: State, event: Event) -> (next: (State, Step<()>))
    requires
        state.accepts(event),
    ensures
        next == transition(state, event),
        next.0.wf(),
        match next.1 {
            Step::Perform(action) => next.0.pending() == Some(action),
            Step::Return(result) => next.0 == (State::Finished { result }),
        },
{
    match state {
        State::Start => (State::OpeningSource, Step::Perform(Action::OpenSource)),
        State::OpeningSource => match event {
            Event::Failed(e) => (State::Finished { result: Err(e) }, Step::Return(Err(e))),
            Event::Done => (State::ReadingMetadata, Step::Perform(Action::ReadMetadata)),
            _ => (state, Step::Perform(Action::OpenSource)),
        },
        State::ReadingMetadata => match event {
            Event::Failed(e) => (State::Finished { result: Err(e) }, Step::Return(Err(e))),
            Event::Metadata { size, attributes } => (
                State::CreatingDestination { size: size as i64, sparse: is_sparse(attributes) },
                Step::Perform(Action::CreateDestination),
            ),
            _ => (state, Step::Perform(Action::ReadMetadata)),
        },
        State::CreatingDestination { size, sparse } => if is_answer(
            &Action::CreateDestination,
            &event,
        ) {
            match AutoRemovedFile::create_new(event) {
                Ok(dest) => (
                    State::ReadingIntegrity { dest, size, sparse },
                    Step::Perform(Action::ReadIntegrity),
                ),
                Err(e) => (State::Finished { result: Err(e) }, Step::Return(Err(e))),
            }
        } else {
            (state, Step::Perform(Action::CreateDestination))
        },
        State::ReadingIntegrity { dest, size, sparse } => match event {
            Event::Failed(e) => finish(dest, Err(e)),
            Event::Integrity(info) => if sparse {
                (State::SettingSparse { dest, size, info }, Step::Perform(Action::SetSparse))
            } else {
                (
                    State::SettingIntegrity { dest, size, info },
                    Step::Perform(Action::SetIntegrity(integrity_to_set(&info))),
                )
            },
            _ => (state, Step::Perform(Action::ReadIntegrity)),
        },
        State::SettingSparse { dest, size, info } => match event {
            Event::Failed(e) => finish(dest, Err(e)),
            Event::Done => (
                State::SettingIntegrity { dest, size, info },
                Step::Perform(Action::SetIntegrity(integrity_to_set(&info))),
            ),
            _ => (state, Step::Perform(Action::SetSparse)),
        },
        State::SettingIntegrity { dest, size, info } => match event {
            Event::Failed(_) => check_cluster(dest, size, info),
            Event::Done => check_cluster(dest, size, info),
            _ => (state, Step::Perform(Action::SetIntegrity(integrity_to_set(&info)))),
        },
        State::SettingLength { dest, size, cluster } => match event {
            Event::Failed(e) => finish(dest, Err(e)),
            Event::Done => {
                proof {
                    lemma_cluster_sizes_are_powers_of_two();
                }
                let total = total_copy_len(size, cluster);
                let max = max_copy_len(total, cluster);
                if total == 0 {
                    let mut dest = dest;
                    dest.persist();
                    finish(dest, Ok(()))
                } else {
                    duplicate(dest, total, max, 0)
                }
            },
            _ => (state, Step::Perform(Action::SetLength(size as u64))),
        },
        State::Duplicating { dest, total, max, copied } => {
            let extent = next_extent(copied, total, max);
            match event {
                Event::Failed(e) => finish(dest, Err(e)),
                Event::Done => duplicate(dest, total, max, copied + extent.ByteCount),
                _ => (state, Step::Perform(Action::DuplicateExtents(extent))),
            }
        },
        State::Removing { result } => if is_answer(&Action::RemoveDestination, &event) {
            (State::Finished { result }, Step::Return(result))
        } else {
            (state, Step::Perform(Action::RemoveDestination))
        },
        State::Finished { result } => (state, Step::Return(result)),
    }
}

/// The sum of numbers that `multiple` divides, and their difference, are
/// divided by it too.
proof fn lemma_multiples(a: int, b: int, multiple: int)
    requires
        multiple > 0,
        a % multiple == 0,
        b % multiple == 0,
    ensures
        (a + b) % multiple == 0,
        (a - b) % multiple == 0,
{
    let x = a / multiple;
    let y = b / multiple;
    lemma_quotient(a, multiple);
    lemma_quotient(b, multiple);
    assert((x + y) * multiple == x * multiple + y * multiple) by (nonlinear_arith);
    assert((x - y) * multiple == x * multiple - y * multiple) by (nonlinear_arith);
    lemma_mod_multiples_basic(x + y, multiple);
    lemma_mod_multiples_basic(x - y, multiple);
}

/// The requests cover what is left without gap or overlap.
///
/// Once `copied` bytes of `total` are covered, the requests still to be made
/// are none if and only if nothing is left. Else the first starts at
/// `copied`, each starts where the one before it ended, at the same offset in
/// both files, and the last ends at `total`. Each asks for at least one byte
/// and for no more than `max`.
pub proof fn lemma_extents_tile(copied: int, total: int, max: int)
    requires
        0 <= copied <= total <= i64::MAX,
        0 < max,
    ensures
        ({
            let extents = spec_extents(copied, total, max);
            &&& extents.len() == 0 <==> copied == total
            &&& extents.len() > 0 ==> extents.first().SourceFileOffset == copied
                && extents.last().SourceFileOffset + extents.last().ByteCount == total
            &&& forall|k: int|
                0 <= k < extents.len() ==> {
                    &&& (#[trigger] extents[k]).TargetFileOffset == extents[k].SourceFileOffset
                    &&& 0 < extents[k].ByteCount <= max
                    &&& copied <= extents[k].SourceFileOffset
                    &&& extents[k].SourceFileOffset + extents[k].ByteCount <= total
                }
            &&& forall|k: int|
                0 < k < extents.len() ==> (#[trigger] extents[k]).SourceFileOffset == extents[k
                    - 1].SourceFileOffset + extents[k - 1].ByteCount
        }),
    decreases total - copied,
{
    if copied < total {
        let count = spec_bytes_to_copy(copied, total, max);
        let rest = spec_extents(copied + count, total, max);
        let extents = spec_extents(copied, total, max);
        lemma_extents_tile(copied + count, total, max);
        assert(extents == seq![spec_next_extent(copied, total, max)] + rest);
        assert forall|k: int| 0 < k < extents.len() implies (#[trigger] extents[k]).SourceFileOffset
            == extents[k - 1].SourceFileOffset + extents[k - 1].ByteCount by {
            if k > 1 {
                assert(extents[k] == rest[k - 1]);
                assert(extents[k - 1] == rest[k - 2]);
            } else {
                assert(extents[1] == rest.first());
            }
        }
        assert forall|k: int| 0 <= k < extents.len() implies {
            &&& (#[trigger] extents[k]).TargetFileOffset == extents[k].SourceFileOffset
            &&& 0 < extents[k].ByteCount <= max
            &&& copied <= extents[k].SourceFileOffset
            &&& extents[k].SourceFileOffset + extents[k].ByteCount <= total
        } by {
            if k > 0 {
                assert(extents[k] == rest[k - 1]);
            }
        }
        if rest.len() > 0 {
            assert(extents.last() == rest.last());
        }
    }
}

/// On a volume with clusters every request begins on a cluster boundary and
/// asks for whole clusters.
///
/// Where `copied`, `total` and `max` are multiples of `cluster`, so are the
/// offset and the byte count of each request that is still to be made.
pub proof fn lemma_extents_are_aligned(copied: int, total: int, max: int, cluster: int)
    requires
        0 <= copied <= total <= i64::MAX,
        0 < max,
        0 < cluster,
        copied % cluster == 0,
        total % cluster == 0,
        max % cluster == 0,
    ensures
        forall|k: int|
            0 <= k < spec_extents(copied, total, max).len() ==> {
                &&& (#[trigger] spec_extents(copied, total, max)[k]).SourceFileOffset as int
                    % cluster == 0
                &&& spec_extents(copied, total, max)[k].ByteCount as int % cluster == 0
            },
    decreases total - copied,
{
    if copied < total {
        let count = spec_bytes_to_copy(copied, total, max);
        let rest = spec_extents(copied + count, total, max);
        let extents = spec_extents(copied, total, max);
        lemma_multiples(total, copied, cluster);
        lemma_multiples(copied, count, cluster);
        lemma_extents_are_aligned(copied + count, total, max, cluster);
        assert(extents == seq![spec_next_extent(copied, total, max)] + rest);
        assert forall|k: int| 0 <= k < extents.len() implies {
            &&& (#[trigger] extents[k]).SourceFileOffset as int % cluster == 0
            &&& extents[k].ByteCount as int % cluster == 0
        } by {
            if k > 0 {
                assert(extents[k] == rest[k - 1]);
            }
        }
    }
}

/// What the requests for a whole file look like.
///
/// For a source of `size` bytes on a volume that reports the cluster size
/// `cluster`: the requests cover the size rounded up to whole clusters, so
/// all of the file and less than one cluster more. Each begins on a cluster
/// boundary, asks for whole clusters and stays below 4 GiB. On a volume that
/// reports no cluster size, one request asks for the file as it is, and an
/// empty file needs no request on any volume.
pub proof fn lemma_plan(size: int, cluster: int)
    requires
        0 <= size <= i64::MAX,
        cluster == 0 || valid_cluster_size(cluster),
        size + cluster - 1 <= i64::MAX,
    ensures
        ({
            let total = spec_total_copy_len(size, cluster);
            let max = spec_max_copy_len(total, cluster);
            let extents = spec_extents(0, total, max);
            &&& size <= total
            &&& size == 0 <==> extents.len() == 0
            &&& cluster == 0 ==> total == size && (size > 0 ==> extents == seq![
                DUPLICATE_EXTENTS_DATA {
                    SourceFileOffset: 0,
                    TargetFileOffset: 0,
                    ByteCount: size as i64,
                },
            ])
            &&& cluster != 0 ==> {
                &&& total < size + cluster
                &&& total % cluster == 0
                &&& max == FOUR_GIB - cluster
                &&& forall|k: int|
                    0 <= k < extents.len() ==> {
                        &&& (#[trigger] extents[k]).SourceFileOffset as int % cluster == 0
                        &&& extents[k].ByteCount as int % cluster == 0
                        &&& 0 < extents[k].ByteCount < FOUR_GIB
                    }
            }
        }),
{
    let total = spec_total_copy_len(size, cluster);
    let max = spec_max_copy_len(total, cluster);
    if cluster == 0 {
        if size > 0 {
            reveal_with_fuel(spec_extents, 2);
            assert(spec_extents(0, total, max) =~= seq![spec_next_extent(0, total, max)]);
        }
    } else {
        lemma_round_up_bounds(size, cluster);
        lemma_round_down(FOUR_GIB - cluster, cluster);
        assert(max == FOUR_GIB - cluster) by {
            if cluster == CLUSTER_4K {
                assert((FOUR_GIB - CLUSTER_4K) % (CLUSTER_4K as int) == 0);
            } else {
                assert((FOUR_GIB - CLUSTER_64K) % (CLUSTER_64K as int) == 0);
            }
        }
        lemma_extents_tile(0, total, max);
        lemma_extents_are_aligned(0, total, max, cluster);
    }
}

/// The requests that the machine makes are those of the plan, one by one.
///
/// While a request is under way, it is the first of the requests still to be
/// made. When it succeeds and was the last, the clone ends with success and
/// the destination is kept; else the machine goes on to the next.
pub proof fn lemma_requests_follow_plan(state: State)
    requires
        state is Duplicating,
        state.wf(),
    ensures
        ({
            let extents = spec_extents(
                state->copied as int,
                state->total as int,
                state->max as int,
            );
            let (next, step) = transition(state, Event::Done);
            &&& extents.len() > 0
            &&& state.pending() == Some(Action::DuplicateExtents(extents[0]))
            &&& extents.len() == 1 ==> step == Step::<()>::Return(Ok(()))
            &&& extents.len() > 1 ==> next is Duplicating && step == Step::<()>::Perform(
                Action::DuplicateExtents(extents[1]),
            ) && spec_extents(next->copied as int, next->total as int, next->max as int)
                == extents.drop_first()
        }),
{
    let copied = state->copied as int;
    let total = state->total as int;
    let max = state->max as int;
    let count = spec_bytes_to_copy(copied, total, max);
    let rest = spec_extents(copied + count, total, max);
    let extents = spec_extents(copied, total, max);
    assert(extents == seq![spec_next_extent(copied, total, max)] + rest);
    assert(extents.drop_first() =~= rest);
    lemma_extents_tile(copied + count, total, max);
    if copied + count < total {
        assert(rest == seq![spec_next_extent(copied + count, total, max)] + spec_extents(
            copied + count + spec_bytes_to_copy(copied + count, total, max),
            total,
            max,
        ));
    }
}

} // verus!
