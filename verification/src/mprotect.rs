//! The `mprotect`-based process-wide barrier, for x86 Linux without `membarrier`.
//!
//! One anonymous page is mapped and locked in memory at start-up. A barrier makes
//! the page writable, writes to it so that it is dirty, and then revokes all access
//! to it: changing a dirty page from read-write to no access makes the kernel flush
//! the TLBs of every processor by interrupt, which also drains their write
//! buffers.
//!
//! Both the initialisation and the barrier are state machines. The caller
//! performs the operation that the current stage names, feeds its result to
//! `init_barrier` or `barrier`, and stops at a final stage.

use vstd::prelude::*;

verus! {

/// The address that `mmap` returns when it fails (`MAP_FAILED`, all bits set).
pub const MAP_FAILED_ADDR: usize = usize::MAX;

/// The page size assumed when the system does not report one.
pub const DEFAULT_PAGE_SIZE: usize = 0x1000;

/// Why the initialisation gave up; each of these aborts the process.
#[derive(Clone, Copy, Debug, PartialEq, Eq, Structural)]
pub enum InitFailure {
    /// A page was already published.
    AlreadyInitialized,
    /// `mmap` failed.
    MapFailed,
    /// `mmap` returned an address that is not a multiple of the page size.
    Unaligned,
    /// `mlock` failed.
    LockFailed,
}

/// A stage of the initialisation; each non-final stage names what the caller does
/// next.
#[derive(Clone, Copy, Debug, PartialEq, Eq, Structural)]
pub enum InitStage {
    /// Read the published page address (0 while none is published).
    CheckUnset,
    /// Ask the system for its page size (`sysconf(_SC_PAGESIZE)`).
    QueryPageSize,
    /// Map one private anonymous read-write page of `page_size` bytes.
    MapPage { page_size: usize },
    /// Lock the mapped page in memory (`mlock`).
    LockPage { page: usize, page_size: usize },
    /// Final: publish the page and its size for the barrier.
    Publish { page: usize, page_size: usize },
    /// Final: print the failure and abort the process.
    Abort(InitFailure),
}

/// The result of the operation that an initialisation stage named.
#[derive(Clone, Copy, Debug, PartialEq, Eq, Structural)]
pub enum InitReply {
    /// The address currently published (0 for none).
    PublishedPage(usize),
    /// What `sysconf(_SC_PAGESIZE)` returned.
    PageSize(isize),
    /// The address that `mmap` returned.
    Mapped(usize),
    /// What `mlock` returned.
    Locked(i32),
}

/// Why a barrier failed; each of these is a panic.
#[derive(Clone, Copy, Debug, PartialEq, Eq, Structural)]
pub enum BarrierFailure {
    /// No page, or a page of size 0, was published.
    NotInitialized,
    /// The barrier's mutex could not be taken.
    Poisoned,
    /// Making the page read-write failed.
    AllowWriteFailed,
    /// Revoking access to the page failed.
    RevokeFailed,
}

/// A stage of a barrier; each non-final stage names what the caller does next.
#[derive(Clone, Copy, Debug, PartialEq, Eq, Structural)]
pub enum BarrierStage {
    /// Load the published page address and page size.
    Load,
    /// Clear the mutex's poison and take it.
    Lock { page: usize, page_size: usize },
    /// Make the page readable and writable (`mprotect`).
    AllowWrite { page: usize, page_size: usize },
    /// Write to the page (an atomic increment of its first word).
    Dirty { page: usize, page_size: usize },
    /// Revoke all access to the page (`mprotect`).
    Revoke { page: usize, page_size: usize },
    /// Final: release the mutex; the barrier is complete.
    Done,
    /// Final: panic with the failure.
    Fail(BarrierFailure),
}

/// The result of the operation that a barrier stage named.
#[derive(Clone, Copy, Debug, PartialEq, Eq, Structural)]
pub enum BarrierReply {
    /// The published page address and page size.
    Loaded { page: usize, page_size: usize },
    /// Whether the mutex was taken.
    LockTaken(bool),
    /// What `mprotect` returned.
    Protected(i32),
    /// The page was written.
    Dirtied,
}

/// The page size to use, given what `sysconf` reported.
pub open spec fn spec_page_size(reported: isize) -> usize {
    if reported > 0 {
        reported as usize
    } else {
        DEFAULT_PAGE_SIZE
    }
}

/// A page that the barrier can use: mapped, aligned to its size, of nonzero size.
pub open spec fn usable_page(page: usize, page_size: usize) -> bool {
    &&& page_size > 0
    &&& page != MAP_FAILED_ADDR
    &&& page % page_size == 0
}

impl InitStage {
    /// What every stage reached from `CheckUnset` satisfies.
    pub open spec fn wf(self) -> bool {
        match self {
            InitStage::MapPage { page_size } => page_size > 0,
            InitStage::LockPage { page, page_size } => usable_page(page, page_size),
            InitStage::Publish { page, page_size } => usable_page(page, page_size),
            _ => true,
        }
    }

    /// Whether the initialisation is over.
    pub open spec fn is_final(self) -> bool {
        self is Publish || self is Abort
    }
}

/// The initialisation stage that follows `stage` once its operation returned
/// `reply`; a reply that does not answer the stage leaves it unchanged.
pub open spec fn init_next(stage: InitStage, reply: InitReply) -> InitStage {
    match stage {
        InitStage::CheckUnset => match reply {
            InitReply::PublishedPage(page) => if page == 0 {
                InitStage::QueryPageSize
            } else {
                InitStage::Abort(InitFailure::AlreadyInitialized)
            },
            _ => stage,
        },
        InitStage::QueryPageSize => match reply {
            InitReply::PageSize(reported) => InitStage::MapPage {
                page_size: spec_page_size(reported),
            },
            _ => stage,
        },
        InitStage::MapPage { page_size } => match reply {
            InitReply::Mapped(page) => if page == MAP_FAILED_ADDR {
                InitStage::Abort(InitFailure::MapFailed)
            } else if page % page_size != 0 {
                InitStage::Abort(InitFailure::Unaligned)
            } else {
                InitStage::LockPage { page, page_size }
            },
            _ => stage,
        },
        InitStage::LockPage { page, page_size } => match reply {
            InitReply::Locked(result) => if result == 0 {
                InitStage::Publish { page, page_size }
            } else {
                InitStage::Abort(InitFailure::LockFailed)
            },
            _ => stage,
        },
        InitStage::Publish { .. } => stage,
        InitStage::Abort(_) => stage,
    }
}

/// The end of an initialisation that read `published`, was told the page size
/// `reported`, was given `mapped` by `mmap` and `locked` by `mlock`.
pub open spec fn init_outcome(published: usize, reported: isize, mapped: usize, locked: i32) -> InitStage {
    let s1 = init_next(InitStage::CheckUnset, InitReply::PublishedPage(published));
    let s2 = init_next(s1, InitReply::PageSize(reported));
    let s3 = init_next(s2, InitReply::Mapped(mapped));
    init_next(s3, InitReply::Locked(locked))
}

impl BarrierStage {
    /// What every stage reached from `Load` satisfies: past the load, the page
    /// address and size are nonzero.
    pub open spec fn wf(self) -> bool {
        match self {
            BarrierStage::Lock { page, page_size } => page != 0 && page_size != 0,
            BarrierStage::AllowWrite { page, page_size } => page != 0 && page_size != 0,
            BarrierStage::Dirty { page, page_size } => page != 0 && page_size != 0,
            BarrierStage::Revoke { page, page_size } => page != 0 && page_size != 0,
            _ => true,
        }
    }

    /// Whether the barrier is over.
    pub open spec fn is_final(self) -> bool {
        self is Done || self is Fail
    }
}

/// The barrier stage that follows `stage` once its operation returned `reply`; a
/// reply that does not answer the stage leaves it unchanged.
pub open spec fn barrier_next(stage: BarrierStage, reply: BarrierReply) -> BarrierStage {
    match stage {
        BarrierStage::Load => match reply {
            BarrierReply::Loaded { page, page_size } => if page != 0 && page_size != 0 {
                BarrierStage::Lock { page, page_size }
            } else {
                BarrierStage::Fail(BarrierFailure::NotInitialized)
            },
            _ => stage,
        },
        BarrierStage::Lock { page, page_size } => match reply {
            BarrierReply::LockTaken(taken) => if taken {
                BarrierStage::AllowWrite { page, page_size }
            } else {
                BarrierStage::Fail(BarrierFailure::Poisoned)
            },
            _ => stage,
        },
        BarrierStage::AllowWrite { page, page_size } => match reply {
            BarrierReply::Protected(result) => if result == 0 {
                BarrierStage::Dirty { page, page_size }
            } else {
                BarrierStage::Fail(BarrierFailure::AllowWriteFailed)
            },
            _ => stage,
        },
        BarrierStage::Dirty { page, page_size } => match reply {
            BarrierReply::Dirtied => BarrierStage::Revoke { page, page_size },
            _ => stage,
        },
        BarrierStage::Revoke { .. } => match reply {
            BarrierReply::Protected(result) => if result == 0 {
                BarrierStage::Done
            } else {
                BarrierStage::Fail(BarrierFailure::RevokeFailed)
            },
            _ => stage,
        },
        BarrierStage::Done => stage,
        BarrierStage::Fail(_) => stage,
    }
}

/// The end of a barrier that loaded `page` and `page_size`, took the mutex or not
/// (`taken`), and got `allow` and `revoke` from its two `mprotect` calls.
pub open spec fn barrier_outcome(
    page: usize,
    page_size: usize,
    taken: bool,
    allow: i32,
    revoke: i32,
) -> BarrierStage {
    let s1 = barrier_next(BarrierStage::Load, BarrierReply::Loaded { page, page_size });
    let s2 = barrier_next(s1, BarrierReply::LockTaken(taken));
    let s3 = barrier_next(s2, BarrierReply::Protected(allow));
    let s4 = barrier_next(s3, BarrierReply::Dirtied);
    barrier_next(s4, BarrierReply::Protected(revoke))
}

/// The page size to use, given what `sysconf(_SC_PAGESIZE)` reported: the report
/// when it is positive, else 4096.
pub fn page_size_from_report(reported: isize) -> (page_size: usize)
    ensures
        page_size == spec_page_size(reported),
        page_size > 0,
{
    if reported > 0 {
        reported as usize
    } else {
        DEFAULT_PAGE_SIZE
    }
}

/// Advances the initialisation of the `mprotect`-based barrier with the result of
/// the operation that `stage` named.
pub fn init_barrier(stage: InitStage, reply: InitReply) -> (next: InitStage)
    requires
        stage.wf(),
    ensures
        next == init_next(stage, reply),
        next.wf(),
{
    match stage {
        InitStage::CheckUnset => match reply {
            InitReply::PublishedPage(page) => if page == 0 {
                InitStage::QueryPageSize
            } else {
                InitStage::Abort(InitFailure::AlreadyInitialized)
            },
            _ => stage,
        },
        InitStage::QueryPageSize => match reply {
            InitReply::PageSize(reported) => InitStage::MapPage {
                page_size: page_size_from_report(reported),
            },
            _ => stage,
        },
        InitStage::MapPage { page_size } => match reply {
            InitReply::Mapped(page) => if page == MAP_FAILED_ADDR {
                InitStage::Abort(InitFailure::MapFailed)
            } else if page % page_size != 0 {
                InitStage::Abort(InitFailure::Unaligned)
            } else {
                InitStage::LockPage { page, page_size }
            },
            _ => stage,
        },
        InitStage::LockPage { page, page_size } => match reply {
            InitReply::Locked(result) => if result == 0 {
                InitStage::Publish { page, page_size }
            } else {
                InitStage::Abort(InitFailure::LockFailed)
            },
            _ => stage,
        },
        InitStage::Publish { .. } => stage,
        InitStage::Abort(_) => stage,
    }
}

/// Advances a barrier with the result of the operation that `stage` named.
pub fn barrier(stage: BarrierStage, reply: BarrierReply) -> (next: BarrierStage)
    ensures
        next == barrier_next(stage, reply),
        stage.wf() ==> next.wf(),
{
    match stage {
        BarrierStage::Load => match reply {
            BarrierReply::Loaded { page, page_size } => if page != 0 && page_size != 0 {
                BarrierStage::Lock { page, page_size }
            } else {
                BarrierStage::Fail(BarrierFailure::NotInitialized)
            },
            _ => stage,
        },
        BarrierStage::Lock { page, page_size } => match reply {
            BarrierReply::LockTaken(taken) => if taken {
                BarrierStage::AllowWrite { page, page_size }
            } else {
                BarrierStage::Fail(BarrierFailure::Poisoned)
            },
            _ => stage,
        },
        BarrierStage::AllowWrite { page, page_size } => match reply {
            BarrierReply::Protected(result) => if result == 0 {
                BarrierStage::Dirty { page, page_size }
            } else {
                BarrierStage::Fail(BarrierFailure::AllowWriteFailed)
            },
            _ => stage,
        },
        BarrierStage::Dirty { page, page_size } => match reply {
            BarrierReply::Dirtied => BarrierStage::Revoke { page, page_size },
            _ => stage,
        },
        BarrierStage::Revoke { .. } => match reply {
            BarrierReply::Protected(result) => if result == 0 {
                BarrierStage::Done
            } else {
                BarrierStage::Fail(BarrierFailure::RevokeFailed)
            },
            _ => stage,
        },
        BarrierStage::Done => stage,
        BarrierStage::Fail(_) => stage,
    }
}

/// An initialisation publishes a page exactly when none was published before,
/// `mmap` succeeded with an address aligned to the page size and `mlock`
/// succeeded; otherwise it aborts for the first of these that failed. A published
/// page is usable.
pub proof fn lemma_init_outcome(published: usize, reported: isize, mapped: usize, locked: i32)
    ensures
        init_outcome(published, reported, mapped, locked) == (if published != 0 {
            InitStage::Abort(InitFailure::AlreadyInitialized)
        } else if mapped == MAP_FAILED_ADDR {
            InitStage::Abort(InitFailure::MapFailed)
        } else if mapped % spec_page_size(reported) != 0 {
            InitStage::Abort(InitFailure::Unaligned)
        } else if locked != 0 {
            InitStage::Abort(InitFailure::LockFailed)
        } else {
            InitStage::Publish { page: mapped, page_size: spec_page_size(reported) }
        }),
        init_outcome(published, reported, mapped, locked).is_final(),
        init_outcome(published, reported, mapped, locked) matches InitStage::Publish {
            page,
            page_size,
        } ==> usable_page(page, page_size),
{
}

/// A final initialisation stage stays as it is, whatever reply is fed.
pub proof fn lemma_init_final_is_stable(stage: InitStage, reply: InitReply)
    requires
        stage.is_final(),
    ensures
        init_next(stage, reply) == stage,
{
}

/// A barrier completes exactly when the published page and size are nonzero, the
/// mutex is taken and both `mprotect` calls succeed; otherwise it fails for the
/// first of these that did not hold.
pub proof fn lemma_barrier_outcome(
    page: usize,
    page_size: usize,
    taken: bool,
    allow: i32,
    revoke: i32,
)
    ensures
        barrier_outcome(page, page_size, taken, allow, revoke) == (if page == 0 || page_size == 0 {
            BarrierStage::Fail(BarrierFailure::NotInitialized)
        } else if !taken {
            BarrierStage::Fail(BarrierFailure::Poisoned)
        } else if allow != 0 {
            BarrierStage::Fail(BarrierFailure::AllowWriteFailed)
        } else if revoke != 0 {
            BarrierStage::Fail(BarrierFailure::RevokeFailed)
        } else {
            BarrierStage::Done
        }),
        barrier_outcome(page, page_size, taken, allow, revoke).is_final(),
{
}

/// The page is written only after it was made writable, and its access is
/// revoked only after it was written, always on the page that was loaded.
pub proof fn lemma_write_only_while_writable(stage: BarrierStage, reply: BarrierReply)
    ensures
        !(stage is Dirty) ==> (barrier_next(stage, reply) matches BarrierStage::Dirty {
            page,
            page_size,
        } ==> stage == (BarrierStage::AllowWrite { page, page_size }) && reply
            == BarrierReply::Protected(0)),
        !(stage is Revoke) ==> (barrier_next(stage, reply) matches BarrierStage::Revoke {
            page,
            page_size,
        } ==> stage == (BarrierStage::Dirty { page, page_size }) && reply
            == BarrierReply::Dirtied),
        barrier_next(stage, reply) is Done && !(stage is Done) ==> stage is Revoke && reply
            == BarrierReply::Protected(0),
{
}

/// A page published by the initialisation passes the barrier's load check
/// whenever its address is not 0.
pub proof fn lemma_published_page_passes_load(page: usize, page_size: usize)
    requires
        (InitStage::Publish { page, page_size }).wf(),
        page != 0,
    ensures
        barrier_next(BarrierStage::Load, BarrierReply::Loaded { page, page_size })
            == (BarrierStage::Lock { page, page_size }),
{
}

/// A barrier on a page published by the initialisation completes whenever both
/// of its `mprotect` calls succeed and the mutex is taken, provided the page's
/// address is not 0 (an address `mmap` does not hand out without `MAP_FIXED`).
/// The barrier never publishes anything, so every later barrier loads the same
/// page and completes in the same way.
pub proof fn lemma_barrier_on_published_page_completes(page: usize, page_size: usize)
    requires
        (InitStage::Publish { page, page_size }).wf(),
        page != 0,
    ensures
        barrier_outcome(page, page_size, true, 0, 0) == BarrierStage::Done,
{
}

/// Once a page is published (at a nonzero address), a second initialisation
/// aborts as already initialised at its first stage, whatever the system would
/// have answered next: it maps, locks and publishes nothing.
pub proof fn lemma_second_init_aborts(
    page: usize,
    page_size: usize,
    reported: isize,
    mapped: usize,
    locked: i32,
)
    requires
        (InitStage::Publish { page, page_size }).wf(),
        page != 0,
    ensures
        init_next(InitStage::CheckUnset, InitReply::PublishedPage(page)) == InitStage::Abort(
            InitFailure::AlreadyInitialized,
        ),
        init_outcome(page, reported, mapped, locked) == InitStage::Abort(
            InitFailure::AlreadyInitialized,
        ),
{
}

/// The page and size a barrier stage works on, if it carries them.
pub open spec fn stage_page(stage: BarrierStage) -> Option<(usize, usize)> {
    match stage {
        BarrierStage::Lock { page, page_size } => Some((page, page_size)),
        BarrierStage::AllowWrite { page, page_size } => Some((page, page_size)),
        BarrierStage::Dirty { page, page_size } => Some((page, page_size)),
        BarrierStage::Revoke { page, page_size } => Some((page, page_size)),
        _ => None,
    }
}

/// Each step of a barrier, for every page and size: the load moves on with the
/// loaded page when it and its size are nonzero; the lock, the two `mprotect`
/// calls and the write each move on with the same page and size on success, and
/// fail with their own failure otherwise; the revoke's success completes the
/// barrier.
pub proof fn lemma_barrier_steps(page: usize, page_size: usize, taken: bool, result: i32)
    ensures
        barrier_next(BarrierStage::Load, BarrierReply::Loaded { page, page_size }) == (if page
            != 0 && page_size != 0 {
            BarrierStage::Lock { page, page_size }
        } else {
            BarrierStage::Fail(BarrierFailure::NotInitialized)
        }),
        barrier_next(BarrierStage::Lock { page, page_size }, BarrierReply::LockTaken(taken)) == (
        if taken {
            BarrierStage::AllowWrite { page, page_size }
        } else {
            BarrierStage::Fail(BarrierFailure::Poisoned)
        }),
        barrier_next(BarrierStage::AllowWrite { page, page_size }, BarrierReply::Protected(result))
            == (if result == 0 {
            BarrierStage::Dirty { page, page_size }
        } else {
            BarrierStage::Fail(BarrierFailure::AllowWriteFailed)
        }),
        barrier_next(BarrierStage::Dirty { page, page_size }, BarrierReply::Dirtied) == (
        BarrierStage::Revoke { page, page_size }),
        barrier_next(BarrierStage::Revoke { page, page_size }, BarrierReply::Protected(result)) == (
        if result == 0 {
            BarrierStage::Done
        } else {
            BarrierStage::Fail(BarrierFailure::RevokeFailed)
        }),
{
}

/// A barrier works on one page throughout: a step from a stage that carries a
/// page and size either ends the barrier or reaches a stage carrying the same
/// page and size; and the first step carries the page and size that were loaded.
pub proof fn lemma_barrier_keeps_page(stage: BarrierStage, reply: BarrierReply)
    ensures
        stage_page(stage) is Some && !barrier_next(stage, reply).is_final() ==> stage_page(
            barrier_next(stage, reply),
        ) == stage_page(stage),
        forall|page: usize, page_size: usize|
            stage == BarrierStage::Load && reply == (BarrierReply::Loaded { page, page_size }) && !(
            #[trigger] barrier_next(BarrierStage::Load, BarrierReply::Loaded { page, page_size })).is_final()
                ==> stage_page(barrier_next(stage, reply)) == Some((page, page_size)),
{
}

/// Each step of the initialisation, for every reply: a published page aborts it
/// and none lets it go on; the page size is the reported one when positive, else
/// 4096; the mapping fails on `MAP_FAILED` (all bits set) and on an address that
/// is not a multiple of the page size, and otherwise moves on with that address;
/// the lock publishes the mapped page with its size exactly when `mlock` returns 0.
pub proof fn lemma_init_steps(published: usize, reported: isize, page: usize, page_size: usize, locked: i32)
    requires
        page_size > 0,
    ensures
        init_next(InitStage::CheckUnset, InitReply::PublishedPage(published)) == (if published
            == 0 {
            InitStage::QueryPageSize
        } else {
            InitStage::Abort(InitFailure::AlreadyInitialized)
        }),
        init_next(InitStage::QueryPageSize, InitReply::PageSize(reported)) == (InitStage::MapPage {
            page_size: if reported > 0 {
                reported as usize
            } else {
                4096
            },
        }),
        reported > 0 ==> (reported as usize) as int == reported as int,
        init_next(InitStage::MapPage { page_size }, InitReply::Mapped(page)) == (if page
            == usize::MAX {
            InitStage::Abort(InitFailure::MapFailed)
        } else if page % page_size != 0 {
            InitStage::Abort(InitFailure::Unaligned)
        } else {
            InitStage::LockPage { page, page_size }
        }),
        init_next(InitStage::LockPage { page, page_size }, InitReply::Locked(locked)) == (if locked
            == 0 {
            InitStage::Publish { page, page_size }
        } else {
            InitStage::Abort(InitFailure::LockFailed)
        }),
{
}

} // verus!
