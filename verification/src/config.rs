//! Core configuration: the observation window after which a tracked mirror
//! is reclaimed regardless of activity, and the interval of the passive
//! expiry sweep. Both are in ticks of whatever monotonic clock the caller
//! supplies to the library.

use vstd::prelude::*;

verus! {

/// The default observation window, in seconds.
pub const DEFAULT_OBSERVATION_WINDOW: u64 = 300;

/// The default sweep interval, in seconds.
pub const DEFAULT_SWEEP_INTERVAL: u64 = 10;

pub struct Config {
    pub observation_window: u64,
    pub sweep_interval: u64,
}

impl Config {
    pub fn new(observation_window: u64, sweep_interval: u64) -> (c: Config)
        ensures
            c.observation_window == observation_window,
            c.sweep_interval == sweep_interval,
    {
        Config { observation_window, sweep_interval }
    }
}

} // verus!
