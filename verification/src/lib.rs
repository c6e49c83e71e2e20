//! Process-wide memory barriers.
//!
//! The library decides, for each platform and for what the operating system was
//! found to support at start-up, which barrier a light and a heavy barrier issue,
//! and it drives the operating-system protocols behind the heavy barrier: the
//! `membarrier` support probe, the `mprotect`-based fallback barrier with its
//! initialisation, and the per-thread sweep used on Apple systems.
//! Each protocol is a state machine whose steps are verified; the system calls
//! themselves are made by the caller, who feeds their results back.

pub mod fence;

pub mod mach;
pub mod membarrier;
pub mod mprotect;
pub mod strategy;
