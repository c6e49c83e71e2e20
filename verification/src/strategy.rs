//! Which barrier a light and a heavy barrier issue on each platform.
//!
//! There are three kinds of memory barrier: the light one, the heavy one, and the
//! normal one (a sequentially consistent fence). In an execution there is a total
//! order over all barriers. If thread A issues barrier X and thread B issues
//! barrier Y, and X is ordered before Y, then what A knew at X is known to B after
//! Y provided that either barrier is heavy, or both are normal.
//!
//! The light barrier is kept as cheap as the platform allows; the heavy barrier
//! pays for the guarantee above.

use vstd::prelude::*;
use crate::fence::{compiler_fence_seq_cst, fence_seq_cst, Fence, FenceLog};

verus! {

/// The platform the barriers run on.
#[derive(Clone, Copy, Debug, PartialEq, Eq, Structural)]
pub enum Platform {
    /// Linux or Android on x86 or x86-64: the `membarrier` system call, with the
    /// `mprotect`-based barrier as fallback.
    LinuxX86,
    /// Linux or Android on any other architecture: the `membarrier` system call,
    /// with a sequentially consistent fence as fallback.
    LinuxOtherArch,
    /// FreeBSD: the `membarrier` system call, with a sequentially consistent fence
    /// as fallback.
    FreeBsd,
    /// Windows: `FlushProcessWriteBuffers`.
    Windows,
    /// Apple systems: a register read of every thread of the task.
    Apple,
    /// Any other system, Miri and Loom: sequentially consistent fences only.
    Portable,
}

/// What was decided once at start-up and is read by every barrier.
#[derive(Clone, Copy, Debug, PartialEq, Eq, Structural)]
pub struct BarrierConfig {
    /// The platform.
    pub platform: Platform,
    /// Whether the start-up probe found the private expedited `membarrier`
    /// command usable (and registered this process for it).
    pub membarrier_supported: bool,
}

/// The kind of barrier that a light barrier is.
#[derive(Clone, Copy, Debug, PartialEq, Eq, Structural)]
pub enum LightKind {
    /// A compiler fence only.
    CompilerFence,
    /// A sequentially consistent fence, then a compiler fence.
    FenceThenCompilerFence,
    /// A sequentially consistent fence.
    SeqCstFence,
}

/// The kind of barrier that a heavy barrier is.
#[derive(Clone, Copy, Debug, PartialEq, Eq, Structural)]
pub enum HeavyKind {
    /// The private expedited `membarrier` system call.
    Membarrier,
    /// The `mprotect`-based process-wide barrier.
    Mprotect,
    /// The Windows `FlushProcessWriteBuffers` call.
    FlushProcessWriteBuffers,
    /// A register read of every thread of the task (Apple).
    ThreadRegisterSweep,
    /// A sequentially consistent fence.
    SeqCstFence,
}

/// The three kinds of barrier a program issues.
#[derive(Clone, Copy, Debug, PartialEq, Eq, Structural)]
pub enum BarrierKind {
    /// The light barrier of this library.
    Light,
    /// The heavy barrier of this library.
    Heavy,
    /// A sequentially consistent fence.
    Normal,
}

/// What an issued barrier does to the threads of the process.
#[derive(Clone, Copy, Debug, PartialEq, Eq, Structural)]
pub enum Effect {
    /// Restrains the compiler only.
    CompilerOnly,
    /// A sequentially consistent fence in the issuing thread.
    Fence,
    /// A memory barrier in every running thread of the process.
    ProcessWide,
}

/// Whether the platform asks the operating system for `membarrier` at start-up.
pub open spec fn probes_membarrier(platform: Platform) -> bool {
    match platform {
        Platform::LinuxX86 | Platform::LinuxOtherArch | Platform::FreeBsd => true,
        _ => false,
    }
}

/// Whether the configuration uses the `membarrier` system call.
pub open spec fn uses_membarrier(config: BarrierConfig) -> bool {
    probes_membarrier(config.platform) && config.membarrier_supported
}

/// Whether start-up must initialise the `mprotect`-based barrier: on x86 Linux
/// when `membarrier` is not usable.
pub open spec fn spec_needs_mprotect_init(config: BarrierConfig) -> bool {
    config.platform == Platform::LinuxX86 && !config.membarrier_supported
}

/// The light barrier of a configuration.
pub open spec fn light_kind(config: BarrierConfig) -> LightKind {
    match config.platform {
        Platform::LinuxX86 | Platform::Windows | Platform::Apple => LightKind::CompilerFence,
        Platform::LinuxOtherArch | Platform::FreeBsd => if config.membarrier_supported {
            LightKind::CompilerFence
        } else {
            LightKind::FenceThenCompilerFence
        },
        Platform::Portable => LightKind::SeqCstFence,
    }
}

/// The heavy barrier of a configuration.
pub open spec fn heavy_kind(config: BarrierConfig) -> HeavyKind {
    match config.platform {
        Platform::LinuxX86 => if config.membarrier_supported {
            HeavyKind::Membarrier
        } else {
            HeavyKind::Mprotect
        },
        Platform::LinuxOtherArch | Platform::FreeBsd => if config.membarrier_supported {
            HeavyKind::Membarrier
        } else {
            HeavyKind::SeqCstFence
        },
        Platform::Windows => HeavyKind::FlushProcessWriteBuffers,
        Platform::Apple => HeavyKind::ThreadRegisterSweep,
        Platform::Portable => HeavyKind::SeqCstFence,
    }
}

/// The effect of a light barrier.
pub open spec fn light_effect(barrier: LightKind) -> Effect {
    match barrier {
        LightKind::CompilerFence => Effect::CompilerOnly,
        LightKind::FenceThenCompilerFence | LightKind::SeqCstFence => Effect::Fence,
    }
}

/// The effect of a heavy barrier.
pub open spec fn heavy_effect(barrier: HeavyKind) -> Effect {
    match barrier {
        HeavyKind::SeqCstFence => Effect::Fence,
        _ => Effect::ProcessWide,
    }
}

/// The effect of a barrier of the given kind under a configuration.
pub open spec fn effect(config: BarrierConfig, kind: BarrierKind) -> Effect {
    match kind {
        BarrierKind::Light => light_effect(light_kind(config)),
        BarrierKind::Heavy => heavy_effect(heavy_kind(config)),
        BarrierKind::Normal => Effect::Fence,
    }
}

/// Whether two barriers, ordered one before the other, pass knowledge from the
/// issuer of the first to the issuer of the second: one of them reaches every
/// thread, or both are sequentially consistent fences.
pub open spec fn synchronizes(first: Effect, second: Effect) -> bool {
    first == Effect::ProcessWide || second == Effect::ProcessWide || (first == Effect::Fence
        && second == Effect::Fence)
}

/// Whether the semantics promise that a pair of barriers of these kinds
/// synchronizes: either one is heavy, or both are normal.
pub open spec fn promised_to_synchronize(first: BarrierKind, second: BarrierKind) -> bool {
    first == BarrierKind::Heavy || second == BarrierKind::Heavy || (first == BarrierKind::Normal
        && second == BarrierKind::Normal)
}

impl BarrierConfig {
    /// Whether start-up must initialise the `mprotect`-based barrier, which is the
    /// case on x86 Linux when the `membarrier` probe failed.
    pub fn needs_mprotect_init(&self) -> (needed: bool)
        ensures
            needed == spec_needs_mprotect_init(*self),
    {
        match self.platform {
            Platform::LinuxX86 => !self.membarrier_supported,
            _ => false,
        }
    }
}

/// Whether the platform asks the operating system for `membarrier` at start-up.
pub fn needs_membarrier_probe(platform: Platform) -> (needed: bool)
    ensures
        needed == probes_membarrier(platform),
{
    match platform {
        Platform::LinuxX86 | Platform::LinuxOtherArch | Platform::FreeBsd => true,
        _ => false,
    }
}

/// Decides the light barrier of the configuration, without issuing it (for a
/// caller that issues its own fences, such as a model checker's).
pub fn choose_light(config: &BarrierConfig) -> (kind: LightKind)
    ensures
        kind == light_kind(*config),
{
    match config.platform {
        Platform::LinuxX86 | Platform::Windows | Platform::Apple => LightKind::CompilerFence,
        Platform::LinuxOtherArch | Platform::FreeBsd => if config.membarrier_supported {
            LightKind::CompilerFence
        } else {
            LightKind::FenceThenCompilerFence
        },
        Platform::Portable => LightKind::SeqCstFence,
    }
}

/// Decides the heavy barrier of the configuration, without issuing it (for a
/// caller that issues its own fences, such as a model checker's).
pub fn choose_heavy(config: &BarrierConfig) -> (kind: HeavyKind)
    ensures
        kind == heavy_kind(*config),
{
    match config.platform {
        Platform::LinuxX86 => if config.membarrier_supported {
            HeavyKind::Membarrier
        } else {
            HeavyKind::Mprotect
        },
        Platform::LinuxOtherArch | Platform::FreeBsd => if config.membarrier_supported {
            HeavyKind::Membarrier
        } else {
            HeavyKind::SeqCstFence
        },
        Platform::Windows => HeavyKind::FlushProcessWriteBuffers,
        Platform::Apple => HeavyKind::ThreadRegisterSweep,
        Platform::Portable => HeavyKind::SeqCstFence,
    }
}

/// The fences a light barrier of the given kind issues, in order.
pub open spec fn light_fences(kind: LightKind) -> Seq<Fence> {
    match kind {
        LightKind::CompilerFence => seq![Fence::Compiler],
        LightKind::FenceThenCompilerFence => seq![Fence::SeqCst, Fence::Compiler],
        LightKind::SeqCstFence => seq![Fence::SeqCst],
    }
}

/// The fences that the library issues for a heavy barrier of the given kind: the
/// fence itself when the heavy barrier is a fence, none otherwise (the
/// operating-system barriers are the caller's to make).
pub open spec fn heavy_fences(kind: HeavyKind) -> Seq<Fence> {
    match kind {
        HeavyKind::SeqCstFence => seq![Fence::SeqCst],
        _ => Seq::empty(),
    }
}

/// Issues the light barrier of the configuration, appends to `fences` exactly
/// the fences it issued, and returns its kind.
///
/// It is a compiler fence alone wherever the heavy barrier reaches every thread;
/// where the heavy barrier falls back to a fence, the light one issues a
/// sequentially consistent fence too.
pub fn light(config: &BarrierConfig, fences: &mut FenceLog) -> (issued: LightKind)
    ensures
        issued == light_kind(*config),
        final(fences).issued@ == old(fences).issued@ + light_fences(issued),
{
    let kind = choose_light(config);
    match kind {
        LightKind::CompilerFence => compiler_fence_seq_cst(fences),
        LightKind::FenceThenCompilerFence => {
            fence_seq_cst(fences);
            compiler_fence_seq_cst(fences);
        },
        LightKind::SeqCstFence => fence_seq_cst(fences),
    }
    proof {
        assert(final(fences).issued@ =~= old(fences).issued@ + light_fences(kind));
    }
    kind
}

/// Starts the heavy barrier of the configuration and returns its kind.
///
/// When the heavy barrier is a sequentially consistent fence, this function
/// issues it (and appends it to `fences`); it issues no other fence. Every other
/// heavy barrier is an operating-system call that the caller makes: `Membarrier`
/// (its result is judged by `crate::membarrier::barrier_succeeded`), `Mprotect`
/// (driven by `crate::mprotect::barrier`), `FlushProcessWriteBuffers`, or
/// `ThreadRegisterSweep` (driven by `crate::mach::sweep_step`).
pub fn heavy(config: &BarrierConfig, fences: &mut FenceLog) -> (needed: HeavyKind)
    ensures
        needed == heavy_kind(*config),
        final(fences).issued@ == old(fences).issued@ + heavy_fences(needed),
{
    let kind = choose_heavy(config);
    if let HeavyKind::SeqCstFence = kind {
        fence_seq_cst(fences);
    }
    proof {
        assert(final(fences).issued@ =~= old(fences).issued@ + heavy_fences(kind));
    }
    kind
}

/// What start-up decided: the configuration every barrier reads, and whether the
/// `mprotect`-based barrier must be initialised now.
#[derive(Clone, Copy, Debug, PartialEq, Eq, Structural)]
pub struct Startup {
    /// The configuration.
    pub config: BarrierConfig,
    /// Whether to initialise the `mprotect`-based barrier.
    pub init_mprotect: bool,
}

/// Settles start-up on `platform`, given the verdict of the `membarrier` probe
/// (ignored on platforms that do not probe): `membarrier` is used when the probe
/// found it usable; otherwise the fallback is prepared where it needs it.
pub fn settle_startup(platform: Platform, probe_verdict: bool) -> (startup: Startup)
    ensures
        startup.config.platform == platform,
        startup.config.membarrier_supported == (probes_membarrier(platform) && probe_verdict),
        startup.init_mprotect == spec_needs_mprotect_init(startup.config),
{
    let supported = needs_membarrier_probe(platform) && probe_verdict;
    let config = BarrierConfig { platform, membarrier_supported: supported };
    Startup { config, init_mprotect: config.needs_mprotect_init() }
}

/// The semantics of the three barriers: under every configuration, a pair of
/// barriers synchronizes whenever either of them is heavy or both are normal.
pub proof fn lemma_promised_pairs_synchronize(
    config: BarrierConfig,
    first: BarrierKind,
    second: BarrierKind,
)
    requires
        promised_to_synchronize(first, second),
    ensures
        synchronizes(effect(config, first), effect(config, second)),
{
}

/// The light barrier issues a sequentially consistent fence exactly where the
/// heavy barrier is one itself; elsewhere (x86 Linux, Windows, Apple, and wherever
/// `membarrier` is usable) it issues one compiler fence and nothing else.
pub proof fn lemma_light_fences(config: BarrierConfig)
    ensures
        light_fences(light_kind(config)).contains(Fence::SeqCst) == (heavy_kind(config)
            == HeavyKind::SeqCstFence),
        heavy_kind(config) != HeavyKind::SeqCstFence ==> light_fences(light_kind(config))
            == seq![Fence::Compiler],
{
    let f = light_fences(light_kind(config));
    if heavy_kind(config) == HeavyKind::SeqCstFence {
        assert(f[0] == Fence::SeqCst);
    } else {
        assert(f =~= seq![Fence::Compiler]);
        assert(f[0] == Fence::Compiler);
    }
}

/// The heavy barrier reaches every thread exactly when the light barrier is a
/// compiler fence only; otherwise both are sequentially consistent fences.
pub proof fn lemma_light_is_free_only_beside_process_wide_heavy(config: BarrierConfig)
    ensures
        (light_effect(light_kind(config)) == Effect::CompilerOnly) == (heavy_effect(
            heavy_kind(config),
        ) == Effect::ProcessWide),
        heavy_effect(heavy_kind(config)) != Effect::ProcessWide ==> light_effect(light_kind(config))
            == Effect::Fence && heavy_effect(heavy_kind(config)) == Effect::Fence,
{
}

/// After start-up, the heavy barrier is the `mprotect`-based one exactly when
/// start-up initialised that barrier, and `membarrier` exactly when the probe
/// found it usable on a platform that probes for it.
pub proof fn lemma_startup_prepares_heavy(platform: Platform, probe_verdict: bool, startup: Startup)
    requires
        startup.config.platform == platform,
        startup.config.membarrier_supported == (probes_membarrier(platform) && probe_verdict),
        startup.init_mprotect == spec_needs_mprotect_init(startup.config),
    ensures
        (heavy_kind(startup.config) == HeavyKind::Mprotect) == startup.init_mprotect,
        (heavy_kind(startup.config) == HeavyKind::Membarrier) == (probes_membarrier(platform)
            && probe_verdict),
{
}

/// The heavy barrier uses `membarrier` only when the start-up probe found it
/// usable on a platform that probes for it, and uses the `mprotect`-based barrier
/// only on configurations whose start-up initialised that barrier.
pub proof fn lemma_heavy_uses_only_what_startup_prepared(config: BarrierConfig)
    ensures
        heavy_kind(config) == HeavyKind::Membarrier <==> uses_membarrier(config),
        heavy_kind(config) == HeavyKind::Mprotect <==> spec_needs_mprotect_init(config),
{
}

/// Only Linux (x86 or not) and FreeBSD probe for `membarrier`; Windows, Apple
/// systems and the portable fallback never do, so there a probe verdict changes
/// nothing: their heavy barrier is fixed by the platform alone.
pub proof fn lemma_which_platforms_probe(platform: Platform, membarrier_supported: bool)
    ensures
        probes_membarrier(platform) == (platform == Platform::LinuxX86 || platform
            == Platform::LinuxOtherArch || platform == Platform::FreeBsd),
        heavy_kind(BarrierConfig { platform: Platform::Apple, membarrier_supported })
            == HeavyKind::ThreadRegisterSweep,
        heavy_kind(BarrierConfig { platform: Platform::Windows, membarrier_supported })
            == HeavyKind::FlushProcessWriteBuffers,
        heavy_kind(BarrierConfig { platform: Platform::Portable, membarrier_supported })
            == HeavyKind::SeqCstFence,
        !probes_membarrier(platform) ==> heavy_kind(BarrierConfig { platform, membarrier_supported })
            == heavy_kind(BarrierConfig { platform, membarrier_supported: false }),
{
}

/// The heavy barrier of each configuration: `membarrier` wherever the probe found
/// it usable; without it, the `mprotect` barrier on x86 Linux and a sequentially
/// consistent fence on other Linux and on FreeBSD; `FlushProcessWriteBuffers` on
/// Windows, the thread register sweep on Apple systems, a fence elsewhere. The
/// library itself issues exactly one sequentially consistent fence for a heavy
/// barrier that is a fence, and no fence for any other.
pub proof fn lemma_heavy_table(config: BarrierConfig, kind: HeavyKind)
    ensures
        heavy_kind(config) == (match config.platform {
            Platform::LinuxX86 => if config.membarrier_supported {
                HeavyKind::Membarrier
            } else {
                HeavyKind::Mprotect
            },
            Platform::LinuxOtherArch | Platform::FreeBsd => if config.membarrier_supported {
                HeavyKind::Membarrier
            } else {
                HeavyKind::SeqCstFence
            },
            Platform::Windows => HeavyKind::FlushProcessWriteBuffers,
            Platform::Apple => HeavyKind::ThreadRegisterSweep,
            Platform::Portable => HeavyKind::SeqCstFence,
        }),
        kind == HeavyKind::SeqCstFence ==> heavy_fences(kind) == seq![Fence::SeqCst],
        kind != HeavyKind::SeqCstFence ==> heavy_fences(kind) == Seq::<Fence>::empty(),
        heavy_fences(heavy_kind(config)).contains(Fence::SeqCst) == (heavy_kind(config)
            == HeavyKind::SeqCstFence),
        heavy_fences(heavy_kind(config)).len() <= 1,
{
    if heavy_kind(config) == HeavyKind::SeqCstFence {
        assert(heavy_fences(heavy_kind(config))[0] == Fence::SeqCst);
    }
}

/// The light barrier of each configuration, and the fences it issues in order:
/// one compiler fence on x86 Linux, Windows, Apple systems and wherever
/// `membarrier` is usable; a sequentially consistent fence then a compiler fence
/// on other Linux and on FreeBSD without `membarrier`; one sequentially consistent
/// fence on the portable fallback.
pub proof fn lemma_light_table(config: BarrierConfig)
    ensures
        light_kind(config) == (match config.platform {
            Platform::LinuxX86 | Platform::Windows | Platform::Apple => LightKind::CompilerFence,
            Platform::LinuxOtherArch | Platform::FreeBsd => if config.membarrier_supported {
                LightKind::CompilerFence
            } else {
                LightKind::FenceThenCompilerFence
            },
            Platform::Portable => LightKind::SeqCstFence,
        }),
        light_fences(LightKind::CompilerFence) == seq![Fence::Compiler],
        light_fences(LightKind::FenceThenCompilerFence) == seq![Fence::SeqCst, Fence::Compiler],
        light_fences(LightKind::SeqCstFence) == seq![Fence::SeqCst],
{
}

/// Start-up records `membarrier` as usable exactly on Linux and FreeBSD when the
/// probe said so, and initialises the `mprotect` barrier exactly on x86 Linux when
/// it did not.
pub proof fn lemma_startup_table(platform: Platform, probe_verdict: bool, startup: Startup)
    requires
        startup.config.platform == platform,
        startup.config.membarrier_supported == (probes_membarrier(platform) && probe_verdict),
        startup.init_mprotect == spec_needs_mprotect_init(startup.config),
    ensures
        startup.config.membarrier_supported == (probe_verdict && (platform == Platform::LinuxX86
            || platform == Platform::LinuxOtherArch || platform == Platform::FreeBsd)),
        startup.init_mprotect == (platform == Platform::LinuxX86 && !probe_verdict),
{
}

} // verus!
