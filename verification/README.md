# membarrier2

Process-wide memory barriers, with their decision logic verified in Verus.

There are three kinds of barrier: the light one, the heavy one, and the normal one
(a sequentially consistent fence). If thread A issues barrier X, thread B issues
barrier Y, and X is ordered before Y, then what A knew at X is known to B after Y,
provided that either barrier is heavy or both are normal. The light barrier is made
as cheap as the platform allows (often a compiler fence); the heavy one uses the
operating system to reach every thread: `membarrier` on Linux and FreeBSD, an
`mprotect`-based barrier on older x86 Linux, `FlushProcessWriteBuffers` on Windows,
and a register read of every thread on Apple systems.

Layout:

- `src/` — the verified library.
  - `strategy.rs`: which light and heavy barrier each platform issues (each
    call records, in a ghost log, exactly the fences it issued), the
    start-up decision, and the proof that every pair promised to synchronize does.
  - `membarrier.rs`: the start-up probe of the `membarrier` system call, as a state
    machine, and the judgement of its barrier's result.
  - `mprotect.rs`: the initialisation and the barrier of the `mprotect`-based
    fallback, as state machines, with their outcomes proved.
  - `mach.rs`: the per-thread sweep of Apple systems as a state machine (each
    thread read and released once, the list released last, the first failure
    reported) and the fields of a Mach error code.
  - `fence.rs`: the standard library's fences, and the ghost log of the fences issued.
- `app/` — the operating-system side: the system calls, the state kept from
  start-up, and the public `light()` and `heavy()`.
- `tests/` — tests of the library.
