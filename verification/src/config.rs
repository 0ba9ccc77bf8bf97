//! Checkout timing and object selection.
use crate::duration::{duration_as_nanos, duration_from_millis, max_duration, max_duration_nanos};
use std::time::Duration;
use vstd::prelude::*;

verus! {

/// How an available object is selected; this does not order waiting consumers.
#[derive(Clone, Debug, Copy, PartialEq, Eq, Structural)]
pub enum PickStrategy {
    /// Select the object that was added or returned last.
    LIFO,
    /// Select an available object using a random index.
    RANDOM,
}

/// Checkout policy. Public fields support struct literals and update syntax.
#[derive(Clone, Debug, Copy)]
pub struct AutoPoolConfig {
    /// Overall checkout budget. Zero tries immediately; `Duration::MAX` and
    /// durations that overflow the platform's `Instant` wait indefinitely.
    pub wait_duration: Duration,
    /// Legacy async polling setting, retained for compatibility and ignored.
    pub lock_duration: Duration,
    /// Legacy async polling setting, retained for compatibility and ignored.
    pub sleep_duration: Duration,
    /// Selection among available objects, independent of waiter scheduling.
    pub pick_strategy: PickStrategy,
}

/// The default policy: unlimited waiting (`Duration::MAX`), LIFO selection,
/// and the legacy polling settings of one and five milliseconds.
pub open spec fn is_default_config(config: AutoPoolConfig) -> bool {
    &&& duration_as_nanos(config.wait_duration) == max_duration_nanos()
    &&& duration_as_nanos(config.lock_duration) == 1_000_000
    &&& duration_as_nanos(config.sleep_duration) == 5_000_000
    &&& config.pick_strategy == PickStrategy::LIFO
}

impl Default for AutoPoolConfig {
    /// Unlimited waiting, LIFO selection, and the legacy polling settings of
    /// one and five milliseconds.
    fn default() -> (config: Self)
        ensures
            is_default_config(config),
    {
        AutoPoolConfig {
            wait_duration: max_duration(),
            lock_duration: duration_from_millis(1),
            sleep_duration: duration_from_millis(5),
            pick_strategy: PickStrategy::LIFO,
        }
    }
}

} // verus!
