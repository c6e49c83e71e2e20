use core::sync::atomic::{fence, Ordering};
use membarrier2::membarrier::{
    barrier_succeeded, probe_step, query_permits, ProbeStage, MEMBARRIER_CMD_PRIVATE_EXPEDITED,
    MEMBARRIER_CMD_QUERY, MEMBARRIER_CMD_REGISTER_PRIVATE_EXPEDITED,
};
use membarrier2::fence::FenceLog;
use membarrier2::strategy::{
    choose_heavy, choose_light, heavy, light, needs_membarrier_probe, settle_startup,
    BarrierConfig, HeavyKind, LightKind, Platform,
};

const ALL_PLATFORMS: [Platform; 6] = [
    Platform::LinuxX86,
    Platform::LinuxOtherArch,
    Platform::FreeBsd,
    Platform::Windows,
    Platform::Apple,
    Platform::Portable,
];

#[test]
fn fences() {
    for platform in ALL_PLATFORMS {
        for membarrier_supported in [false, true] {
            let config = BarrierConfig { platform, membarrier_supported };
            let mut fences = FenceLog::new();
            light(&config, &mut fences); // light-weight barrier
            fence(Ordering::SeqCst); // normal barrier
            heavy(&config, &mut fences); // heavy-weight barrier
        }
    }
}

/// Runs the support probe against the given replies of the kernel.
fn run_probe(query: isize, register: isize) -> (ProbeStage, Vec<i32>) {
    let mut issued = Vec::new();
    let mut stage = ProbeStage::Query;
    while let Some(cmd) = stage.command() {
        issued.push(cmd);
        let result = if cmd == MEMBARRIER_CMD_QUERY { query } else { register };
        stage = probe_step(stage, result);
    }
    (stage, issued)
}

#[test]
fn test_membarrier() {
    let mask = (libc::MEMBARRIER_CMD_PRIVATE_EXPEDITED
        | libc::MEMBARRIER_CMD_REGISTER_PRIVATE_EXPEDITED
        | libc::MEMBARRIER_CMD_GLOBAL) as isize;
    let (stage, issued) = run_probe(mask, 0);
    assert!(stage == ProbeStage::Finished(true));
    assert_eq!(issued, vec![MEMBARRIER_CMD_QUERY, MEMBARRIER_CMD_REGISTER_PRIVATE_EXPEDITED]);
    assert!(barrier_succeeded(0));
}

#[test]
fn membarrier_commands_match_the_kernel_headers() {
    assert_eq!(MEMBARRIER_CMD_QUERY, libc::MEMBARRIER_CMD_QUERY);
    assert_eq!(MEMBARRIER_CMD_PRIVATE_EXPEDITED, libc::MEMBARRIER_CMD_PRIVATE_EXPEDITED);
    assert_eq!(
        MEMBARRIER_CMD_REGISTER_PRIVATE_EXPEDITED,
        libc::MEMBARRIER_CMD_REGISTER_PRIVATE_EXPEDITED
    );
}

#[test]
fn query_needs_both_bits_and_no_error() {
    assert!(query_permits(8 | 16));
    assert!(query_permits(0x1ff));
    assert!(!query_permits(8));
    assert!(!query_permits(16));
    assert!(!query_permits(0));
    assert!(!query_permits(-1));
    assert!(!query_permits(isize::MIN | 8 | 16));
}

#[test]
fn probe_without_registration_when_query_refuses() {
    let (stage, issued) = run_probe(16, 0);
    assert_eq!(stage, ProbeStage::Finished(false));
    assert_eq!(issued, vec![MEMBARRIER_CMD_QUERY]);

    let (stage, issued) = run_probe(-38, 0);
    assert_eq!(stage, ProbeStage::Finished(false));
    assert_eq!(issued, vec![MEMBARRIER_CMD_QUERY]);
}

#[test]
fn probe_fails_when_registration_fails() {
    let (stage, issued) = run_probe(8 | 16, -1);
    assert_eq!(stage, ProbeStage::Finished(false));
    assert_eq!(issued.len(), 2);
}

#[test]
fn finished_probe_stays_finished() {
    assert_eq!(probe_step(ProbeStage::Finished(true), -1), ProbeStage::Finished(true));
    assert_eq!(probe_step(ProbeStage::Finished(false), 24), ProbeStage::Finished(false));
    assert_eq!(ProbeStage::Finished(true).command(), None);
}

#[test]
fn membarrier_failure_is_a_negative_result() {
    assert!(barrier_succeeded(0));
    assert!(barrier_succeeded(1));
    assert!(!barrier_succeeded(-1));
}

#[test]
fn light_is_a_compiler_fence_where_heavy_reaches_every_thread() {
    let cases = [
        (Platform::LinuxX86, true, LightKind::CompilerFence, HeavyKind::Membarrier),
        (Platform::LinuxX86, false, LightKind::CompilerFence, HeavyKind::Mprotect),
        (Platform::LinuxOtherArch, true, LightKind::CompilerFence, HeavyKind::Membarrier),
        (Platform::LinuxOtherArch, false, LightKind::FenceThenCompilerFence, HeavyKind::SeqCstFence),
        (Platform::FreeBsd, true, LightKind::CompilerFence, HeavyKind::Membarrier),
        (Platform::FreeBsd, false, LightKind::FenceThenCompilerFence, HeavyKind::SeqCstFence),
        (Platform::Windows, false, LightKind::CompilerFence, HeavyKind::FlushProcessWriteBuffers),
        (Platform::Apple, false, LightKind::CompilerFence, HeavyKind::ThreadRegisterSweep),
        (Platform::Portable, false, LightKind::SeqCstFence, HeavyKind::SeqCstFence),
    ];
    for (platform, membarrier_supported, l, h) in cases {
        let config = BarrierConfig { platform, membarrier_supported };
        assert_eq!(light(&config, &mut FenceLog::new()), l);
        assert_eq!(heavy(&config, &mut FenceLog::new()), h);
        assert_eq!(choose_light(&config), l);
        assert_eq!(choose_heavy(&config), h);
    }
}

#[test]
fn pairs_with_a_heavy_barrier_always_synchronize() {
    for platform in ALL_PLATFORMS {
        for membarrier_supported in [false, true] {
            let config = BarrierConfig { platform, membarrier_supported };
            let h = heavy(&config, &mut FenceLog::new());
            let l = light(&config, &mut FenceLog::new());
            if h == HeavyKind::SeqCstFence {
                assert_ne!(l, LightKind::CompilerFence);
            } else {
                assert_eq!(l, LightKind::CompilerFence);
            }
        }
    }
}

#[test]
fn startup_prepares_what_heavy_uses() {
    for platform in ALL_PLATFORMS {
        for verdict in [false, true] {
            let startup = settle_startup(platform, verdict);
            let config = startup.config;
            assert_eq!(config.platform, platform);
            assert_eq!(config.membarrier_supported, needs_membarrier_probe(platform) && verdict);
            assert_eq!(startup.init_mprotect, config.needs_mprotect_init());
            assert_eq!(startup.init_mprotect, heavy(&config, &mut FenceLog::new()) == HeavyKind::Mprotect);
            if heavy(&config, &mut FenceLog::new()) == HeavyKind::Membarrier {
                assert!(needs_membarrier_probe(platform) && verdict);
            }
        }
    }
    assert!(settle_startup(Platform::LinuxX86, false).init_mprotect);
    assert!(!settle_startup(Platform::LinuxX86, true).init_mprotect);
    assert!(!settle_startup(Platform::LinuxOtherArch, false).init_mprotect);
    assert!(!settle_startup(Platform::Windows, true).config.membarrier_supported);
    assert!(needs_membarrier_probe(Platform::LinuxX86));
    assert!(needs_membarrier_probe(Platform::FreeBsd));
    assert!(!needs_membarrier_probe(Platform::Windows));
    assert!(!needs_membarrier_probe(Platform::Portable));
}
