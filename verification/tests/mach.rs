use membarrier2::mach::{
    err_get_code, err_get_sub, err_get_system, failure, sweep_step, MachCall, MachFailure,
    SweepReply, SweepStage, ThreadSweep, KERN_INSUFFICIENT_BUFFER_SIZE, KERN_SUCCESS,
};

/// Runs a sweep: the listing returns `list_code` and `count` threads, and the
/// calls after it return the codes of `codes` in turn (success once exhausted).
/// Returns the calls made, the final stage and the sweep's report.
fn run_sweep(
    list_code: i32,
    count: usize,
    present: bool,
    codes: &[i32],
) -> (Vec<String>, SweepStage, Result<(), MachFailure>) {
    let mut calls = Vec::new();
    let mut sweep = ThreadSweep::new();
    let mut stage = SweepStage::ListThreads;
    let mut next_code = codes.iter();
    loop {
        let reply = match stage {
            SweepStage::ListThreads => {
                calls.push("list".to_string());
                SweepReply::Listed { code: list_code, count, present }
            }
            SweepStage::ReadRegisters { index, .. } => {
                calls.push(format!("read {index}"));
                SweepReply::Returned(*next_code.next().unwrap_or(&KERN_SUCCESS))
            }
            SweepStage::ReleasePort { index, .. } => {
                calls.push(format!("port {index}"));
                SweepReply::Returned(*next_code.next().unwrap_or(&KERN_SUCCESS))
            }
            SweepStage::ReleaseList { .. } => {
                calls.push("list release".to_string());
                SweepReply::Returned(*next_code.next().unwrap_or(&KERN_SUCCESS))
            }
            SweepStage::Report | SweepStage::ListFailed(_) | SweepStage::ListMissing => {
                return (calls, stage, sweep.finish());
            }
        };
        stage = sweep_step(stage, &mut sweep, reply);
    }
}

#[test]
fn sweep_visits_every_thread_once() {
    let (calls, stage, report) = run_sweep(KERN_SUCCESS, 2, true, &[]);
    assert_eq!(calls, vec!["list", "read 0", "port 0", "read 1", "port 1", "list release"]);
    assert_eq!(stage, SweepStage::Report);
    assert_eq!(report, Ok(()));
}

#[test]
fn sweep_of_no_threads_still_releases_the_list() {
    let (calls, stage, report) = run_sweep(KERN_SUCCESS, 0, true, &[]);
    assert_eq!(calls, vec!["list", "list release"]);
    assert_eq!(stage, SweepStage::Report);
    assert_eq!(report, Ok(()));
}

#[test]
fn sweep_releases_everything_after_a_failure() {
    let (calls, stage, report) = run_sweep(KERN_SUCCESS, 2, true, &[KERN_INSUFFICIENT_BUFFER_SIZE, 0, 0, 7, 3]);
    assert_eq!(calls, vec!["list", "read 0", "port 0", "read 1", "port 1", "list release"]);
    assert_eq!(stage, SweepStage::Report);
    assert_eq!(
        report,
        Err(MachFailure { call: MachCall::ThreadGetRegisterPointerValues, code: 52 })
    );
}

#[test]
fn failed_listing_calls_nothing_else() {
    let (calls, stage, report) = run_sweep(5, 3, true, &[]);
    assert_eq!(calls, vec!["list"]);
    assert_eq!(stage, SweepStage::ListFailed(MachFailure { call: MachCall::TaskThreads, code: 5 }));
    assert_eq!(report, Ok(()));
}

#[test]
fn error_fields() {
    assert_eq!(err_get_system(0x1234_5678), 0x4);
    assert_eq!(err_get_sub(0x1234_5678), 0x8d1);
    assert_eq!(err_get_code(0x1234_5678), 0x1678);
    assert_eq!(err_get_system(-1), 0x3f);
    assert_eq!(err_get_sub(-1), 0xfff);
    assert_eq!(err_get_code(-1), 0x3fff);
    assert_eq!(err_get_system(0x1000_0003), 0x4);
    assert_eq!(err_get_sub(0x1000_0003), 0);
    assert_eq!(err_get_code(0x1000_0003), 3);
    let err = 0x1234_5678;
    let whole = (err_get_system(err) << 26) | (err_get_sub(err) << 14) | err_get_code(err);
    assert_eq!(whole, err);
}

#[test]
fn task_threads_failure() {
    assert_eq!(failure(MachCall::TaskThreads, KERN_SUCCESS), None);
    assert_eq!(
        failure(MachCall::TaskThreads, 5),
        Some(MachFailure { call: MachCall::TaskThreads, code: 5 })
    );
}

#[test]
fn register_read_fails_only_on_small_buffer() {
    assert_eq!(failure(MachCall::ThreadGetRegisterPointerValues, 37), None);
    assert_eq!(
        failure(MachCall::ThreadGetRegisterPointerValues, KERN_INSUFFICIENT_BUFFER_SIZE),
        Some(MachFailure { call: MachCall::ThreadGetRegisterPointerValues, code: 52 })
    );
}

#[test]
fn sweep_without_failure_is_ok() {
    let mut sweep = ThreadSweep::new();
    for _ in 0..3 {
        sweep.record(MachCall::ThreadGetRegisterPointerValues, KERN_SUCCESS);
        sweep.record(MachCall::MachPortDeallocate, KERN_SUCCESS);
    }
    sweep.record(MachCall::VmDeallocate, KERN_SUCCESS);
    assert_eq!(sweep.finish(), Ok(()));
}

#[test]
fn sweep_reports_the_first_failure() {
    let mut sweep = ThreadSweep::new();
    sweep.record(MachCall::ThreadGetRegisterPointerValues, 4);
    sweep.record(MachCall::MachPortDeallocate, KERN_SUCCESS);
    sweep.record(MachCall::ThreadGetRegisterPointerValues, KERN_INSUFFICIENT_BUFFER_SIZE);
    sweep.record(MachCall::MachPortDeallocate, 15);
    sweep.record(MachCall::VmDeallocate, 1);
    assert_eq!(
        sweep.finish(),
        Err(MachFailure { call: MachCall::ThreadGetRegisterPointerValues, code: 52 })
    );

    let mut sweep = ThreadSweep::new();
    sweep.record(MachCall::MachPortDeallocate, KERN_SUCCESS);
    sweep.record(MachCall::VmDeallocate, 1);
    assert_eq!(sweep.finish(), Err(MachFailure { call: MachCall::VmDeallocate, code: 1 }));
}

#[test]
fn missing_list_calls_nothing_else() {
    let (calls, stage, report) = run_sweep(KERN_SUCCESS, 3, false, &[]);
    assert_eq!(calls, vec!["list"]);
    assert_eq!(stage, SweepStage::ListMissing);
    assert_eq!(report, Ok(()));
}
