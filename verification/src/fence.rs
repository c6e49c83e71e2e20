//! The two ordering primitives of the standard library that the barriers issue.
//!
//! Each wrapper appends the fence it issued to a `FenceLog`, a record kept in
//! ghost state only: the log of a caller lists exactly the fences issued on its
//! behalf, in order.

use vstd::prelude::*;

verus! {

/// A fence issued by a barrier.
#[derive(Clone, Copy, Debug, PartialEq, Eq, Structural)]
pub enum Fence {
    /// A sequentially consistent compiler fence.
    Compiler,
    /// A sequentially consistent (hardware) fence.
    SeqCst,
}

/// The fences issued so far, in order. It exists only for verification: at run
/// time it is empty.
pub struct FenceLog {
    /// The fences issued, oldest first.
    pub issued: Ghost<Seq<Fence>>,
}

impl FenceLog {
    /// A log in which no fence has been issued yet.
    pub fn new() -> (log: FenceLog)
        ensures
            log.issued@ == Seq::<Fence>::empty(),
    {
        FenceLog { issued: Ghost(Seq::empty()) }
    }
}

/// Calls `std::sync::atomic::compiler_fence` with `Ordering::SeqCst`, and counts
/// it as one compiler fence in `log`.
///
/// A compiler fence only restrains how the compiler reorders memory accesses; the
/// contract records that the call was made, and nothing of its effect.
#[verifier::external_body]
pub(crate) fn compiler_fence_seq_cst(log: &mut FenceLog)
    ensures
        final(log).issued@ == old(log).issued@.push(Fence::Compiler),
{
    std::sync::atomic::compiler_fence(std::sync::atomic::Ordering::SeqCst);
}

/// Calls `std::sync::atomic::fence` with `Ordering::SeqCst`, and counts it as one
/// sequentially consistent fence in `log`.
///
/// The contract records that the call was made, and nothing of its effect.
#[verifier::external_body]
pub(crate) fn fence_seq_cst(log: &mut FenceLog)
    ensures
        final(log).issued@ == old(log).issued@.push(Fence::SeqCst),
{
    std::sync::atomic::fence(std::sync::atomic::Ordering::SeqCst);
}

} // verus!
