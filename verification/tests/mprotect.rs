use membarrier2::mprotect::{
    barrier, init_barrier, page_size_from_report, BarrierFailure, BarrierReply, BarrierStage,
    InitFailure, InitReply, InitStage, MAP_FAILED_ADDR,
};

/// Runs an initialisation against the given results of the system.
fn run_init(published: usize, reported: isize, mapped: usize, locked: i32) -> InitStage {
    let mut stage = InitStage::CheckUnset;
    loop {
        let reply = match stage {
            InitStage::CheckUnset => InitReply::PublishedPage(published),
            InitStage::QueryPageSize => InitReply::PageSize(reported),
            InitStage::MapPage { .. } => InitReply::Mapped(mapped),
            InitStage::LockPage { .. } => InitReply::Locked(locked),
            InitStage::Publish { .. } | InitStage::Abort(_) => return stage,
        };
        stage = init_barrier(stage, reply);
    }
}

/// Runs a barrier against the given results of the system; also returns the
/// operations made, in order.
fn run_barrier(
    page: usize,
    page_size: usize,
    taken: bool,
    allow: i32,
    revoke: i32,
) -> (BarrierStage, Vec<&'static str>) {
    let mut ops = Vec::new();
    let mut stage = BarrierStage::Load;
    loop {
        let reply = match stage {
            BarrierStage::Load => {
                ops.push("load");
                BarrierReply::Loaded { page, page_size }
            }
            BarrierStage::Lock { .. } => {
                ops.push("lock");
                BarrierReply::LockTaken(taken)
            }
            BarrierStage::AllowWrite { .. } => {
                ops.push("allow");
                BarrierReply::Protected(allow)
            }
            BarrierStage::Dirty { .. } => {
                ops.push("dirty");
                BarrierReply::Dirtied
            }
            BarrierStage::Revoke { .. } => {
                ops.push("revoke");
                BarrierReply::Protected(revoke)
            }
            BarrierStage::Done | BarrierStage::Fail(_) => return (stage, ops),
        };
        stage = barrier(stage, reply);
    }
}

#[test]
fn test_mprotect() {
    let page = 0x7f12_3456_7000usize;
    let stage = run_init(0, 4096, page, 0);
    assert_eq!(stage, InitStage::Publish { page, page_size: 4096 });
    let (end, ops) = run_barrier(page, 4096, true, 0, 0);
    assert_eq!(end, BarrierStage::Done);
    assert_eq!(ops, vec!["load", "lock", "allow", "dirty", "revoke"]);
}

#[test]
fn map_failed_matches_libc() {
    assert_eq!(MAP_FAILED_ADDR, libc::MAP_FAILED as usize);
}

#[test]
fn page_size_falls_back_to_4096() {
    assert_eq!(page_size_from_report(16384), 16384);
    assert_eq!(page_size_from_report(4096), 4096);
    assert_eq!(page_size_from_report(0), 4096);
    assert_eq!(page_size_from_report(-1), 4096);
}

#[test]
fn init_uses_the_reported_page_size() {
    assert_eq!(
        run_init(0, 16384, 0x10000, 0),
        InitStage::Publish { page: 0x10000, page_size: 16384 }
    );
    assert_eq!(run_init(0, -1, 0x3000, 0), InitStage::Publish { page: 0x3000, page_size: 4096 });
}

#[test]
fn init_failures() {
    assert_eq!(
        run_init(0x5000, 4096, 0x3000, 0),
        InitStage::Abort(InitFailure::AlreadyInitialized)
    );
    assert_eq!(run_init(0, 4096, MAP_FAILED_ADDR, 0), InitStage::Abort(InitFailure::MapFailed));
    assert_eq!(run_init(0, 4096, 0x3001, 0), InitStage::Abort(InitFailure::Unaligned));
    assert_eq!(run_init(0, 16384, 0x3000, 0), InitStage::Abort(InitFailure::Unaligned));
    assert_eq!(run_init(0, 4096, 0x3000, -1), InitStage::Abort(InitFailure::LockFailed));
}

#[test]
fn init_ignores_replies_to_other_stages_and_stays_final() {
    assert_eq!(init_barrier(InitStage::CheckUnset, InitReply::Locked(0)), InitStage::CheckUnset);
    let done = InitStage::Publish { page: 0x2000, page_size: 4096 };
    assert_eq!(init_barrier(done, InitReply::PublishedPage(0)), done);
    let aborted = InitStage::Abort(InitFailure::MapFailed);
    assert_eq!(init_barrier(aborted, InitReply::Mapped(0x2000)), aborted);
}

#[test]
fn barrier_failures() {
    let (end, ops) = run_barrier(0, 4096, true, 0, 0);
    assert_eq!(end, BarrierStage::Fail(BarrierFailure::NotInitialized));
    assert_eq!(ops, vec!["load"]);
    let (end, _) = run_barrier(0x2000, 0, true, 0, 0);
    assert_eq!(end, BarrierStage::Fail(BarrierFailure::NotInitialized));
    let (end, ops) = run_barrier(0x2000, 4096, false, 0, 0);
    assert_eq!(end, BarrierStage::Fail(BarrierFailure::Poisoned));
    assert_eq!(ops, vec!["load", "lock"]);
    let (end, ops) = run_barrier(0x2000, 4096, true, -1, 0);
    assert_eq!(end, BarrierStage::Fail(BarrierFailure::AllowWriteFailed));
    assert_eq!(ops, vec!["load", "lock", "allow"]);
    let (end, ops) = run_barrier(0x2000, 4096, true, 0, -1);
    assert_eq!(end, BarrierStage::Fail(BarrierFailure::RevokeFailed));
    assert_eq!(ops, vec!["load", "lock", "allow", "dirty", "revoke"]);
}

#[test]
fn barrier_keeps_the_loaded_page() {
    let stage = barrier(BarrierStage::Load, BarrierReply::Loaded { page: 0x9000, page_size: 4096 });
    assert_eq!(stage, BarrierStage::Lock { page: 0x9000, page_size: 4096 });
    let stage = barrier(stage, BarrierReply::LockTaken(true));
    assert_eq!(stage, BarrierStage::AllowWrite { page: 0x9000, page_size: 4096 });
    // A reply that does not answer the stage changes nothing.
    assert_eq!(barrier(stage, BarrierReply::Dirtied), stage);
    let stage = barrier(stage, BarrierReply::Protected(0));
    assert_eq!(stage, BarrierStage::Dirty { page: 0x9000, page_size: 4096 });
    assert_eq!(barrier(BarrierStage::Done, BarrierReply::Protected(-1)), BarrierStage::Done);
}
