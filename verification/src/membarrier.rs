//! The `membarrier` system call: the start-up probe and the heavy barrier.
//!
//! The probe asks which commands the kernel supports; when both the private
//! expedited command and its registration command are supported, it registers the
//! process. `membarrier` is used only when both steps succeed. Each step of the
//! probe is a transition of `ProbeStage`: the caller issues the command that the
//! stage names, and feeds the system call's result to `probe_step`.

use vstd::prelude::*;

verus! {

/// Asks which commands are supported; the result is a bit mask of them.
pub const MEMBARRIER_CMD_QUERY: i32 = 0;

/// Issues a memory barrier on every running thread of the process.
pub const MEMBARRIER_CMD_PRIVATE_EXPEDITED: i32 = 8;

/// Registers the process for the private expedited command.
pub const MEMBARRIER_CMD_REGISTER_PRIVATE_EXPEDITED: i32 = 16;

/// Whether a query result says that both the private expedited command and its
/// registration are supported. A negative result is an error.
pub open spec fn spec_query_permits(mask: isize) -> bool {
    &&& mask >= 0
    &&& mask & 8isize != 0
    &&& mask & 16isize != 0
}

/// A step of the support probe.
#[derive(Clone, Copy, Debug, PartialEq, Eq, Structural)]
pub enum ProbeStage {
    /// The query command is to be issued.
    Query,
    /// The registration command is to be issued.
    Register,
    /// The probe is over: whether `membarrier` is usable.
    Finished(bool),
}

/// The command that a stage asks the caller to issue, if any.
pub open spec fn spec_command(stage: ProbeStage) -> Option<i32> {
    match stage {
        ProbeStage::Query => Some(MEMBARRIER_CMD_QUERY),
        ProbeStage::Register => Some(MEMBARRIER_CMD_REGISTER_PRIVATE_EXPEDITED),
        ProbeStage::Finished(_) => None,
    }
}

/// The stage that follows `stage` once its command returned `result`.
pub open spec fn probe_next(stage: ProbeStage, result: isize) -> ProbeStage {
    match stage {
        ProbeStage::Query => if spec_query_permits(result) {
            ProbeStage::Register
        } else {
            ProbeStage::Finished(false)
        },
        ProbeStage::Register => ProbeStage::Finished(result >= 0),
        ProbeStage::Finished(supported) => ProbeStage::Finished(supported),
    }
}

/// The outcome of a whole probe whose query returned `query` and whose
/// registration, if issued, returned `register`.
pub open spec fn probe_outcome(query: isize, register: isize) -> ProbeStage {
    probe_next(probe_next(ProbeStage::Query, query), register)
}

impl ProbeStage {
    /// The command to issue at this stage; `None` once the probe is over.
    pub fn command(&self) -> (cmd: Option<i32>)
        ensures
            cmd == spec_command(*self),
    {
        match self {
            ProbeStage::Query => Some(MEMBARRIER_CMD_QUERY),
            ProbeStage::Register => Some(MEMBARRIER_CMD_REGISTER_PRIVATE_EXPEDITED),
            ProbeStage::Finished(_) => None,
        }
    }
}

/// Whether a query result permits the private expedited command: it is not an
/// error and has both the command's bit and its registration's bit set.
pub fn query_permits(mask: isize) -> (permits: bool)
    ensures
        permits == spec_query_permits(mask),
{
    mask >= 0 && mask & 8isize != 0 && mask & 16isize != 0
}

/// Advances the probe with the result of the command that `stage` named.
pub fn probe_step(stage: ProbeStage, result: isize) -> (next: ProbeStage)
    ensures
        next == probe_next(stage, result),
{
    match stage {
        ProbeStage::Query => if query_permits(result) {
            ProbeStage::Register
        } else {
            ProbeStage::Finished(false)
        },
        ProbeStage::Register => ProbeStage::Finished(result >= 0),
        ProbeStage::Finished(supported) => ProbeStage::Finished(supported),
    }
}

/// Whether a private expedited `membarrier` call succeeded: a negative result is
/// an error, which the heavy barrier does not survive.
pub fn barrier_succeeded(result: isize) -> (ok: bool)
    ensures
        ok == (result >= 0),
{
    result >= 0
}

/// The probe finds `membarrier` usable exactly when the query permits the private
/// expedited command and the registration then succeeds; the registration is not
/// issued at all when the query does not permit it.
pub proof fn lemma_probe_outcome(query: isize, register: isize)
    ensures
        probe_outcome(query, register) == ProbeStage::Finished(
            spec_query_permits(query) && register >= 0,
        ),
        !spec_query_permits(query) ==> spec_command(probe_next(ProbeStage::Query, query)) is None,
        spec_query_permits(query) ==> spec_command(probe_next(ProbeStage::Query, query)) == Some(
            MEMBARRIER_CMD_REGISTER_PRIVATE_EXPEDITED,
        ),
{
}

/// A finished probe stays finished with the same verdict, whatever result is fed.
pub proof fn lemma_finished_probe_is_final(supported: bool, result: isize)
    ensures
        probe_next(ProbeStage::Finished(supported), result) == ProbeStage::Finished(supported),
        spec_command(ProbeStage::Finished(supported)) is None,
{
}

/// The probe issues at most two commands: after two steps from the start it is
/// finished, whatever the results.
pub proof fn lemma_probe_terminates(query: isize, register: isize)
    ensures
        probe_outcome(query, register) is Finished,
{
}

/// Bit 3 (value 8) and bit 4 (value 16) of a non-negative mask, read arithmetically.
proof fn lemma_mask_bits(mask: isize)
    requires
        mask >= 0,
    ensures
        (mask & 8isize != 0) == ((mask / 8) % 2 == 1),
        (mask & 16isize != 0) == ((mask / 16) % 2 == 1),
{
    assert((mask & 8isize != 0) == ((mask / 8) % 2 == 1)) by (bit_vector)
        requires
            mask >= 0,
    ;
    assert((mask & 16isize != 0) == ((mask / 16) % 2 == 1)) by (bit_vector)
        requires
            mask >= 0,
    ;
}

/// A query result permits the private expedited command exactly when it is not
/// an error (non-negative) and has both the private expedited command's bit
/// (value 8) and its registration's bit (value 16) set; so the probe registers
/// exactly then, and otherwise finishes unsupported without registering. A
/// registration finishes the probe, supported exactly when it returned a
/// non-negative result.
pub proof fn lemma_query_bits(mask: isize, register: isize)
    ensures
        spec_query_permits(mask) == (mask >= 0 && (mask / 8) % 2 == 1 && (mask / 16) % 2 == 1),
        probe_next(ProbeStage::Query, mask) == (if mask >= 0 && (mask / 8) % 2 == 1 && (mask / 16)
            % 2 == 1 {
            ProbeStage::Register
        } else {
            ProbeStage::Finished(false)
        }),
        probe_next(ProbeStage::Register, register) == ProbeStage::Finished(register >= 0),
        spec_command(ProbeStage::Query) == Some(0i32),
        spec_command(ProbeStage::Register) == Some(16i32),
        MEMBARRIER_CMD_PRIVATE_EXPEDITED == 8,
{
    if mask >= 0 {
        lemma_mask_bits(mask);
    }
}

} // verus!
