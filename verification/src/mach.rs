//! The heavy barrier on Apple systems: a register read of every thread.
//!
//! Asking the kernel for the register values of a thread makes that thread issue
//! a memory barrier. The sweep lists the threads of the task (`task_threads`),
//! reads the registers of each thread and releases its port, and finally releases
//! the thread list. A failure of the listing is fatal at once; the other failures
//! are recorded in a `ThreadSweep` so that every resource is still released, and
//! the first of them is reported at the end.
//!
//! The sweep is a state machine: the caller makes the call that the current
//! `SweepStage` names, feeds its return code to `sweep_step`, and stops at a final
//! stage. `lemma_sweep_calls` shows the calls it makes: each thread's registers
//! read once, each thread's port released once right after, the list released
//! once at the end.

use vstd::prelude::*;

verus! {

/// The Mach return code of success.
pub const KERN_SUCCESS: i32 = 0;

/// The Mach return code of a register buffer that is too small.
pub const KERN_INSUFFICIENT_BUFFER_SIZE: i32 = 52;

/// The Mach calls that the sweep makes.
#[derive(Clone, Copy, Debug, PartialEq, Eq, Structural)]
pub enum MachCall {
    /// `task_threads`: lists the threads of the task.
    TaskThreads,
    /// `thread_get_register_pointer_values`: reads the registers of a thread.
    ThreadGetRegisterPointerValues,
    /// `mach_port_deallocate`: releases the port of a thread.
    MachPortDeallocate,
    /// `vm_deallocate`: releases the thread list.
    VmDeallocate,
}

/// A failed Mach call and its return code.
#[derive(Clone, Copy, Debug, PartialEq, Eq, Structural)]
pub struct MachFailure {
    /// The call that failed.
    pub call: MachCall,
    /// What it returned.
    pub code: i32,
}

/// The failure that a call's return code means, if any. Reading the registers of
/// a thread counts as failed only when the buffer was too small (other codes, such
/// as that of a thread that ended meanwhile, are ignored); every other call fails
/// on any code but success.
pub open spec fn spec_failure(call: MachCall, code: i32) -> Option<MachFailure> {
    let failed = match call {
        MachCall::ThreadGetRegisterPointerValues => code == KERN_INSUFFICIENT_BUFFER_SIZE,
        _ => code != KERN_SUCCESS,
    };
    if failed {
        Some(MachFailure { call, code })
    } else {
        None
    }
}

/// The failure that a sweep reports after the calls `events` (in call order): the
/// failure of the first call that failed.
pub open spec fn sweep_failure(events: Seq<(MachCall, i32)>) -> Option<MachFailure>
    decreases events.len(),
{
    if events.len() == 0 {
        None
    } else {
        match sweep_failure(events.drop_last()) {
            Some(failure) => Some(failure),
            None => spec_failure(events.last().0, events.last().1),
        }
    }
}

/// The failure that a call's return code means, if any.
pub fn failure(call: MachCall, code: i32) -> (result: Option<MachFailure>)
    ensures
        result == spec_failure(call, code),
{
    let failed = match call {
        MachCall::ThreadGetRegisterPointerValues => code == KERN_INSUFFICIENT_BUFFER_SIZE,
        _ => code != KERN_SUCCESS,
    };
    if failed {
        Some(MachFailure { call, code })
    } else {
        None
    }
}

/// The failures met so far by a sweep over the threads of a task.
#[derive(Clone, Copy, Debug, PartialEq, Eq, Structural)]
pub struct ThreadSweep {
    /// The first failure recorded, if any.
    pub first_failure: Option<MachFailure>,
}

impl ThreadSweep {
    /// A sweep that has recorded nothing.
    pub fn new() -> (sweep: ThreadSweep)
        ensures
            sweep.first_failure is None,
    {
        ThreadSweep { first_failure: None }
    }

    /// Records the return code of a call; a failure is kept only if none was
    /// recorded before.
    pub fn record(&mut self, call: MachCall, code: i32)
        ensures
            final(self).first_failure == (match old(self).first_failure {
                Some(earlier) => Some(earlier),
                None => spec_failure(call, code),
            }),
    {
        if self.first_failure.is_none() {
            self.first_failure = failure(call, code);
        }
    }

    /// The end of the sweep: the first failure recorded, if any.
    pub fn finish(&self) -> (result: Result<(), MachFailure>)
        ensures
            match self.first_failure {
                Some(first) => result == Err::<(), MachFailure>(first),
                None => result is Ok,
            },
    {
        match self.first_failure {
            Some(first) => Err(first),
            None => Ok(()),
        }
    }
}

/// A stage of the sweep; each non-final stage names the call the caller makes next.
#[derive(Clone, Copy, Debug, PartialEq, Eq, Structural)]
pub enum SweepStage {
    /// List the threads of the task (`task_threads`).
    ListThreads,
    /// Read the registers of thread `index` of the `len` listed.
    ReadRegisters { index: usize, len: usize },
    /// Release the port of thread `index` of the `len` listed.
    ReleasePort { index: usize, len: usize },
    /// Release the list of `len` threads (`vm_deallocate`).
    ReleaseList { len: usize },
    /// Final: report the sweep (`ThreadSweep::finish`).
    Report,
    /// Final: the listing failed; nothing else is to be called.
    ListFailed(MachFailure),
    /// Final: the listing succeeded but handed back no list; nothing else is to
    /// be called.
    ListMissing,
}

/// The result of the call that a sweep stage named.
#[derive(Clone, Copy, Debug, PartialEq, Eq, Structural)]
pub enum SweepReply {
    /// What `task_threads` returned, how many threads it listed, and whether it
    /// handed back a list (a non-null pointer).
    Listed { code: i32, count: usize, present: bool },
    /// What any other call returned.
    Returned(i32),
}

/// A call that the sweep makes, with the index of the thread it concerns.
#[derive(Clone, Copy, Debug, PartialEq, Eq, Structural)]
pub enum SweepCall {
    /// `task_threads`.
    ListThreads,
    /// `thread_get_register_pointer_values` on a thread.
    ReadRegisters(usize),
    /// `mach_port_deallocate` on a thread's port.
    ReleasePort(usize),
    /// `vm_deallocate` on the thread list of the given length.
    ReleaseList(usize),
}

impl SweepStage {
    /// What every stage reached from `ListThreads` satisfies.
    pub open spec fn wf(self) -> bool {
        match self {
            SweepStage::ReadRegisters { index, len } => index < len,
            SweepStage::ReleasePort { index, len } => index < len,
            _ => true,
        }
    }

    /// The call that this stage names, if any.
    pub open spec fn spec_call(self) -> Option<SweepCall> {
        match self {
            SweepStage::ListThreads => Some(SweepCall::ListThreads),
            SweepStage::ReadRegisters { index, .. } => Some(SweepCall::ReadRegisters(index)),
            SweepStage::ReleasePort { index, .. } => Some(SweepCall::ReleasePort(index)),
            SweepStage::ReleaseList { len } => Some(SweepCall::ReleaseList(len)),
            _ => None,
        }
    }
}

/// The first stage after listing `count` threads successfully.
pub open spec fn sweep_start(count: usize) -> SweepStage {
    if count == 0 {
        SweepStage::ReleaseList { len: 0 }
    } else {
        SweepStage::ReadRegisters { index: 0, len: count }
    }
}

/// The sweep stage that follows `stage` once its call returned `reply`; a reply
/// that does not answer the stage leaves it unchanged.
pub open spec fn sweep_next(stage: SweepStage, reply: SweepReply) -> SweepStage {
    match stage {
        SweepStage::ListThreads => match reply {
            SweepReply::Listed { code, count, present } => match spec_failure(
                MachCall::TaskThreads,
                code,
            ) {
                Some(f) => SweepStage::ListFailed(f),
                None => if present {
                    sweep_start(count)
                } else {
                    SweepStage::ListMissing
                },
            },
            _ => stage,
        },
        SweepStage::ReadRegisters { index, len } => match reply {
            SweepReply::Returned(_) => SweepStage::ReleasePort { index, len },
            _ => stage,
        },
        SweepStage::ReleasePort { index, len } => match reply {
            SweepReply::Returned(_) => if index + 1 < len {
                SweepStage::ReadRegisters { index: (index + 1) as usize, len }
            } else {
                SweepStage::ReleaseList { len }
            },
            _ => stage,
        },
        SweepStage::ReleaseList { .. } => match reply {
            SweepReply::Returned(_) => SweepStage::Report,
            _ => stage,
        },
        _ => stage,
    }
}

/// The call whose return code a step records in the `ThreadSweep`, if any.
pub open spec fn sweep_recorded(stage: SweepStage, reply: SweepReply) -> Option<(MachCall, i32)> {
    match reply {
        SweepReply::Returned(code) => match stage {
            SweepStage::ReadRegisters { .. } => Some((MachCall::ThreadGetRegisterPointerValues, code)),
            SweepStage::ReleasePort { .. } => Some((MachCall::MachPortDeallocate, code)),
            SweepStage::ReleaseList { .. } => Some((MachCall::VmDeallocate, code)),
            _ => None,
        },
        _ => None,
    }
}

/// The calls named along a sweep from `stage` whose calls return `codes` in turn
/// (for calls past the listing).
pub open spec fn sweep_calls(stage: SweepStage, codes: Seq<i32>) -> Seq<SweepCall>
    decreases codes.len(),
{
    if codes.len() == 0 {
        Seq::empty()
    } else {
        match stage.spec_call() {
            Some(call) => seq![call] + sweep_calls(
                sweep_next(stage, SweepReply::Returned(codes[0])),
                codes.drop_first(),
            ),
            None => Seq::empty(),
        }
    }
}

/// The stage reached from `stage` when its calls return `codes` in turn.
pub open spec fn sweep_end(stage: SweepStage, codes: Seq<i32>) -> SweepStage
    decreases codes.len(),
{
    if codes.len() == 0 {
        stage
    } else {
        sweep_end(sweep_next(stage, SweepReply::Returned(codes[0])), codes.drop_first())
    }
}

/// The calls a sweep makes after listing `len` threads: for each thread in turn,
/// a register read then a port release; then the release of the list.
pub open spec fn thread_calls(len: nat) -> Seq<SweepCall> {
    Seq::new(
        2 * len + 1,
        |k: int|
            if k == 2 * len {
                SweepCall::ReleaseList(len as usize)
            } else if k % 2 == 0 {
                SweepCall::ReadRegisters((k / 2) as usize)
            } else {
                SweepCall::ReleasePort((k / 2) as usize)
            },
    )
}

/// Advances the sweep with the result of the call that `stage` named, recording
/// that call's return code in `sweep`.
pub fn sweep_step(stage: SweepStage, sweep: &mut ThreadSweep, reply: SweepReply) -> (next: SweepStage)
    requires
        stage.wf(),
    ensures
        next == sweep_next(stage, reply),
        next.wf(),
        final(sweep).first_failure == (match sweep_recorded(stage, reply) {
            Some((call, code)) => match old(sweep).first_failure {
                Some(earlier) => Some(earlier),
                None => spec_failure(call, code),
            },
            None => old(sweep).first_failure,
        }),
{
    match stage {
        SweepStage::ListThreads => match reply {
            SweepReply::Listed { code, count, present } => match failure(
                MachCall::TaskThreads,
                code,
            ) {
                Some(f) => SweepStage::ListFailed(f),
                None => if !present {
                    SweepStage::ListMissing
                } else if count == 0 {
                    SweepStage::ReleaseList { len: 0 }
                } else {
                    SweepStage::ReadRegisters { index: 0, len: count }
                },
            },
            _ => stage,
        },
        SweepStage::ReadRegisters { index, len } => match reply {
            SweepReply::Returned(code) => {
                sweep.record(MachCall::ThreadGetRegisterPointerValues, code);
                SweepStage::ReleasePort { index, len }
            },
            _ => stage,
        },
        SweepStage::ReleasePort { index, len } => match reply {
            SweepReply::Returned(code) => {
                sweep.record(MachCall::MachPortDeallocate, code);
                if index + 1 < len {
                    SweepStage::ReadRegisters { index: index + 1, len }
                } else {
                    SweepStage::ReleaseList { len }
                }
            },
            _ => stage,
        },
        SweepStage::ReleaseList { .. } => match reply {
            SweepReply::Returned(code) => {
                sweep.record(MachCall::VmDeallocate, code);
                SweepStage::Report
            },
            _ => stage,
        },
        _ => stage,
    }
}

/// The calls from thread `index` on: when thread `index` of `len` is next to be
/// read, the remaining calls are the tail of `thread_calls(len)` from the read of
/// that thread, and the sweep then reaches `Report`.
proof fn lemma_sweep_calls_from(index: usize, len: usize, codes: Seq<i32>)
    requires
        index < len,
        codes.len() == 2 * (len - index) + 1,
    ensures
        sweep_calls(SweepStage::ReadRegisters { index, len }, codes) =~= thread_calls(
            len as nat,
        ).subrange(2 * index, 2 * len + 1),
        sweep_end(SweepStage::ReadRegisters { index, len }, codes) == SweepStage::Report,
    decreases len - index,
{
    let s0 = SweepStage::ReadRegisters { index, len };
    let s1 = SweepStage::ReleasePort { index, len };
    let rest = codes.drop_first();
    let rest2 = rest.drop_first();
    assert(sweep_next(s0, SweepReply::Returned(codes[0])) == s1);
    let all = thread_calls(len as nat);
    assert(all[2 * index] == SweepCall::ReadRegisters(index)) by {
        assert((2 * index) % 2 == 0 && (2 * index) / 2 == index);
    }
    assert(all[2 * index + 1] == SweepCall::ReleasePort(index)) by {
        assert((2 * index + 1) % 2 == 1 && (2 * index + 1) / 2 == index);
    }
    if index + 1 < len {
        let s2 = SweepStage::ReadRegisters { index: (index + 1) as usize, len };
        assert(sweep_next(s1, SweepReply::Returned(rest[0])) == s2);
        lemma_sweep_calls_from((index + 1) as usize, len, rest2);
        assert(sweep_calls(s1, rest) == seq![SweepCall::ReleasePort(index)] + sweep_calls(s2, rest2));
        assert(sweep_calls(s0, codes) == seq![SweepCall::ReadRegisters(index)] + sweep_calls(s1, rest));
        assert(sweep_end(s1, rest) == sweep_end(s2, rest2));
        assert(sweep_end(s0, codes) == sweep_end(s1, rest));
    } else {
        let s2 = SweepStage::ReleaseList { len };
        assert(sweep_next(s1, SweepReply::Returned(rest[0])) == s2);
        let rest3 = rest2.drop_first();
        assert(rest3.len() == 0);
        assert(sweep_next(s2, SweepReply::Returned(rest2[0])) == SweepStage::Report);
        assert(sweep_calls(SweepStage::Report, rest3) =~= Seq::<SweepCall>::empty());
        assert(sweep_calls(s2, rest2) =~= seq![SweepCall::ReleaseList(len)]);
        assert(sweep_calls(s1, rest) =~= seq![SweepCall::ReleasePort(index), SweepCall::ReleaseList(len)]);
        assert(all[2 * len] == SweepCall::ReleaseList(len));
        assert(sweep_end(SweepStage::Report, rest3) == SweepStage::Report);
        assert(sweep_end(s2, rest2) == sweep_end(SweepStage::Report, rest3));
        assert(sweep_end(s1, rest) == sweep_end(s2, rest2));
        assert(sweep_end(s0, codes) == sweep_end(s1, rest));
    }
}

/// After listing `len` threads, the sweep makes exactly the calls of
/// `thread_calls(len)` and then reports: each thread's registers are read once,
/// its port is released once right after, and the list is released once, last.
/// A failed listing, or one that handed back no list, names no further call.
pub proof fn lemma_sweep_calls(len: usize, codes: Seq<i32>)
    requires
        codes.len() == 2 * len + 1,
    ensures
        sweep_calls(sweep_start(len), codes) == thread_calls(len as nat),
        sweep_end(sweep_start(len), codes) == SweepStage::Report,
        forall|k: int, i: usize|
            0 <= k < thread_calls(len as nat).len() && i < len ==> ((thread_calls(len as nat)[k]
                == SweepCall::ReleasePort(i)) <==> k == 2 * i + 1),
        forall|k: int|
            0 <= k < thread_calls(len as nat).len() ==> ((thread_calls(len as nat)[k]
                == SweepCall::ReleaseList(len)) <==> k == 2 * len),
        forall|code: i32, count: usize, present: bool|
            spec_failure(MachCall::TaskThreads, code) is Some || !present ==> (#[trigger] sweep_next(
                SweepStage::ListThreads,
                SweepReply::Listed { code, count, present },
            )).spec_call() is None,
{
    if len == 0 {
        let s = SweepStage::ReleaseList { len: 0 };
        let rest = codes.drop_first();
        assert(rest.len() == 0);
        assert(sweep_calls(SweepStage::Report, rest) =~= Seq::<SweepCall>::empty());
        assert(sweep_calls(s, codes) =~= thread_calls(0));
        assert(sweep_end(SweepStage::Report, rest) == SweepStage::Report);
        assert(sweep_end(s, codes) == sweep_end(SweepStage::Report, rest));
    } else {
        lemma_sweep_calls_from(0, len, codes);
        assert(thread_calls(len as nat).subrange(0, 2 * len + 1) =~= thread_calls(len as nat));
    }
    assert forall|k: int, i: usize|
        0 <= k < thread_calls(len as nat).len() && i < len implies ((thread_calls(len as nat)[k]
            == SweepCall::ReleasePort(i)) <==> k == 2 * i + 1) by {
        if k == 2 * i + 1 {
            assert(k % 2 == 1 && k / 2 == i);
        }
    }
}

/// What the listing leads to: a failure code ends the sweep with that failure, a
/// missing list ends it with nothing else called, and a list of `count` threads
/// starts with the registers of thread 0 of `count` (or, with no threads, with the
/// release of the empty list).
pub proof fn lemma_listing_step(code: i32, count: usize, present: bool)
    ensures
        sweep_next(SweepStage::ListThreads, SweepReply::Listed { code, count, present }) == (if code
            != 0 {
            SweepStage::ListFailed(MachFailure { call: MachCall::TaskThreads, code })
        } else if !present {
            SweepStage::ListMissing
        } else if count == 0 {
            SweepStage::ReleaseList { len: 0 }
        } else {
            SweepStage::ReadRegisters { index: 0, len: count }
        }),
{
}

/// Each step after the listing: reading thread `i`'s registers is followed by
/// releasing thread `i`'s port; releasing it is followed by reading thread `i + 1`,
/// or, after the last thread, by releasing the list of all `len` threads; the
/// release of the list ends the sweep. Every step records the code of the call it
/// answered, under that call's name.
pub proof fn lemma_thread_steps(index: usize, len: usize, code: i32)
    requires
        index < len,
    ensures
        sweep_next(SweepStage::ReadRegisters { index, len }, SweepReply::Returned(code)) == (
        SweepStage::ReleasePort { index, len }),
        sweep_next(SweepStage::ReleasePort { index, len }, SweepReply::Returned(code)) == (if index
            + 1 < len {
            SweepStage::ReadRegisters { index: (index + 1) as usize, len }
        } else {
            SweepStage::ReleaseList { len }
        }),
        sweep_next(SweepStage::ReleaseList { len }, SweepReply::Returned(code))
            == SweepStage::Report,
        sweep_recorded(SweepStage::ReadRegisters { index, len }, SweepReply::Returned(code)) == Some(
            (MachCall::ThreadGetRegisterPointerValues, code),
        ),
        sweep_recorded(SweepStage::ReleasePort { index, len }, SweepReply::Returned(code)) == Some(
            (MachCall::MachPortDeallocate, code),
        ),
        sweep_recorded(SweepStage::ReleaseList { len }, SweepReply::Returned(code)) == Some(
            (MachCall::VmDeallocate, code),
        ),
{
}

/// A successful listing of `count` threads is followed, whatever the later calls
/// return, by exactly `2 * count + 1` calls: for each thread `i` in order, the read
/// of its registers then the release of its port, and last the release of the
/// list of `count` threads; the sweep then reports.
pub proof fn lemma_sweep_after_listing(count: usize, codes: Seq<i32>)
    requires
        codes.len() == 2 * count + 1,
    ensures
        ({
            let first = sweep_next(
                SweepStage::ListThreads,
                SweepReply::Listed { code: KERN_SUCCESS, count, present: true },
            );
            let calls = sweep_calls(first, codes);
            &&& calls.len() == 2 * count + 1
            &&& forall|k: int|
                0 <= k < 2 * count ==> #[trigger] calls[k] == (if k % 2 == 0 {
                    SweepCall::ReadRegisters((k / 2) as usize)
                } else {
                    SweepCall::ReleasePort((k / 2) as usize)
                })
            &&& calls[2 * count as int] == SweepCall::ReleaseList(count)
            &&& sweep_end(first, codes) == SweepStage::Report
        }),
{
    let first = sweep_next(
        SweepStage::ListThreads,
        SweepReply::Listed { code: KERN_SUCCESS, count, present: true },
    );
    assert(first == sweep_start(count));
    lemma_sweep_calls(count, codes);
    let calls = sweep_calls(first, codes);
    assert(calls == thread_calls(count as nat));
    assert forall|k: int| 0 <= k < 2 * count implies #[trigger] calls[k] == (if k % 2 == 0 {
        SweepCall::ReadRegisters((k / 2) as usize)
    } else {
        SweepCall::ReleasePort((k / 2) as usize)
    }) by {
        assert(calls[k] == thread_calls(count as nat)[k]);
    }
    assert(calls[2 * count as int] == thread_calls(count as nat)[2 * count as int]);
}

/// Which return codes are failures: reading registers fails only on an
/// insufficient buffer (code 52); listing the threads, releasing a port and
/// releasing the list fail on every code but success (0).
pub proof fn lemma_failure_codes(call: MachCall, code: i32)
    ensures
        spec_failure(call, code) == (if (call == MachCall::ThreadGetRegisterPointerValues && code
            == 52) || (call != MachCall::ThreadGetRegisterPointerValues && code != 0) {
            Some(MachFailure { call, code })
        } else {
            None
        }),
{
}

/// The system field of a Mach error code: bits 26 to 31.
pub open spec fn spec_err_get_system(err: i32) -> int {
    (err as u32) as int / 0x400_0000
}

/// The subsystem field of a Mach error code: bits 14 to 25.
pub open spec fn spec_err_get_sub(err: i32) -> int {
    (err as u32) as int / 0x4000 % 0x1000
}

/// The code field of a Mach error code: bits 0 to 13.
pub open spec fn spec_err_get_code(err: i32) -> int {
    (err as u32) as int % 0x4000
}

/// The system field of a Mach error code (as `err_get_system` of `mach/error.h`).
pub fn err_get_system(err: i32) -> (system: i32)
    ensures
        system as int == spec_err_get_system(err),
        0 <= system < 0x40,
{
    let bits = err as u32;
    let system = (bits >> 26u32) & 0x3f;
    assert(system == bits / 0x400_0000 && system < 0x40) by (bit_vector)
        requires
            system == (bits >> 26u32) & 0x3f,
    ;
    system as i32
}

/// The subsystem field of a Mach error code (as `err_get_sub` of `mach/error.h`).
pub fn err_get_sub(err: i32) -> (sub: i32)
    ensures
        sub as int == spec_err_get_sub(err),
        0 <= sub < 0x1000,
{
    let bits = err as u32;
    let sub = (bits >> 14u32) & 0xfff;
    assert(sub == (bits / 0x4000) % 0x1000) by (bit_vector)
        requires
            sub == (bits >> 14u32) & 0xfff,
    ;
    sub as i32
}

/// The code field of a Mach error code (as `err_get_code` of `mach/error.h`).
pub fn err_get_code(err: i32) -> (code: i32)
    ensures
        code as int == spec_err_get_code(err),
        0 <= code < 0x4000,
{
    let bits = err as u32;
    let code = bits & 0x3fff;
    assert(code == bits % 0x4000) by (bit_vector)
        requires
            code == bits & 0x3fff,
    ;
    code as i32
}

/// The three fields of a Mach error code make up the whole code.
pub proof fn lemma_error_fields_recompose(err: i32)
    ensures
        spec_err_get_system(err) * 0x400_0000 + spec_err_get_sub(err) * 0x4000 + spec_err_get_code(
            err,
        ) == (err as u32) as int,
        0 <= spec_err_get_system(err) < 0x40,
        0 <= spec_err_get_sub(err) < 0x1000,
        0 <= spec_err_get_code(err) < 0x4000,
{
    let x = err as u32;
    assert((x / 0x400_0000) * 0x400_0000 + ((x / 0x4000) % 0x1000) * 0x4000 + x % 0x4000 == x)
        by (bit_vector);
    assert(x / 0x400_0000 < 0x40) by (bit_vector);
}

/// A sweep reports the failure of the first call that failed, and none when no
/// call failed.
pub proof fn lemma_sweep_reports_first_failure(events: Seq<(MachCall, i32)>)
    ensures
        sweep_failure(events) is None <==> (forall|i: int|
            0 <= i < events.len() ==> (#[trigger] spec_failure(events[i].0, events[i].1)) is None),
        sweep_failure(events) matches Some(f) ==> exists|i: int|
            0 <= i < events.len() && spec_failure(events[i].0, events[i].1) == Some(f) && (forall|
                j: int,
            |
                0 <= j < i ==> (#[trigger] spec_failure(events[j].0, events[j].1)) is None),
    decreases events.len(),
{
    if events.len() > 0 {
        let prefix = events.drop_last();
        lemma_sweep_reports_first_failure(prefix);
        let n = events.len() - 1;
        assert forall|i: int| 0 <= i < prefix.len() implies #[trigger] prefix[i] == events[i] by {}
        match sweep_failure(prefix) {
            Some(f) => {
                let i = choose|i: int|
                    0 <= i < prefix.len() && spec_failure(prefix[i].0, prefix[i].1) == Some(f)
                        && (forall|j: int|
                        0 <= j < i ==> (#[trigger] spec_failure(prefix[j].0, prefix[j].1)) is None);
                assert(spec_failure(events[i].0, events[i].1) == Some(f));
                assert forall|j: int| 0 <= j < i implies (#[trigger] spec_failure(
                    events[j].0,
                    events[j].1,
                )) is None by {
                    assert(prefix[j] == events[j]);
                }
            },
            None => {
                assert forall|j: int| 0 <= j < n implies (#[trigger] spec_failure(
                    events[j].0,
                    events[j].1,
                )) is None by {
                    assert(prefix[j] == events[j]);
                }
            },
        }
    }
}

/// Recording calls one by one from a fresh sweep keeps exactly the failure that
/// `sweep_failure` names for the calls made so far.
pub proof fn lemma_record_extends_sweep(
    before: ThreadSweep,
    after: ThreadSweep,
    events: Seq<(MachCall, i32)>,
    call: MachCall,
    code: i32,
)
    requires
        before.first_failure == sweep_failure(events),
        after.first_failure == (match before.first_failure {
            Some(earlier) => Some(earlier),
            None => spec_failure(call, code),
        }),
    ensures
        after.first_failure == sweep_failure(events.push((call, code))),
{
    assert(events.push((call, code)).drop_last() =~= events);
}

} // verus!
