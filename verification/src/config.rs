//! Configuration: the daemon's tuning parameters, and the persisted user
//! preferences of the tray variant.

use vstd::prelude::*;

use crate::types::{FanMode, PerformanceMode};

verus! {

/// Tuning parameters of the daemon, fixed for the process lifetime.
#[derive(Clone, Copy, Debug, PartialEq)]
pub struct AppConfig {
    /// Degrees Celsius above which a sample counts as high under `Auto`.
    pub temp_threshold_high: i32,
    /// Degrees Celsius at or below which a sample counts as low while `Auto`
    /// holds the maximum mode.
    pub temp_threshold_low: i32,
    /// Consecutive high samples needed to force the maximum mode.
    pub consecutive_high_temp_limit: u32,
    /// Consecutive low samples needed to return control to the firmware.
    pub consecutive_low_temp_limit: u32,
    /// Seconds between monitor ticks.
    pub temp_check_interval: u64,
    /// Seconds between re-assertions of the maximum mode; `None` disables
    /// the periodic rewrite.
    pub max_fan_write_interval: Option<u64>,
}

impl AppConfig {
    /// The high threshold in millidegrees, as sensor readings come.
    pub open spec fn high_millis(self) -> int {
        self.temp_threshold_high * 1000
    }

    /// The low threshold in millidegrees.
    pub open spec fn low_millis(self) -> int {
        self.temp_threshold_low * 1000
    }

    /// The hysteresis band is real: the release threshold lies strictly
    /// below the trigger threshold, so no single boundary causes chatter.
    pub open spec fn wf(self) -> bool {
        self.temp_threshold_low < self.temp_threshold_high
    }
}

impl Default for AppConfig {
    /// The stock tuning: trigger above 75 C, release at or under 70 C,
    /// three consecutive samples either way, a five-second tick, and no
    /// periodic re-assertion.
    fn default() -> (r: Self)
        ensures
            r == (AppConfig {
                temp_threshold_high: 75,
                temp_threshold_low: 70,
                consecutive_high_temp_limit: 3,
                consecutive_low_temp_limit: 3,
                temp_check_interval: 5,
                max_fan_write_interval: None,
            }),
            r.wf(),
    {
        AppConfig {
            temp_threshold_high: 75,
            temp_threshold_low: 70,
            consecutive_high_temp_limit: 3,
            consecutive_low_temp_limit: 3,
            temp_check_interval: 5,
            max_fan_write_interval: None,
        }
    }
}

/// The user preferences the tray variant persists between runs.
#[derive(Clone, Copy, Debug, PartialEq)]
pub struct Config {
    pub fan_mode: FanMode,
    pub performance_mode: PerformanceMode,
}

impl Default for Config {
    /// Fresh preferences: firmware fan control, balanced power profile.
    fn default() -> (r: Self)
        ensures
            r.fan_mode == FanMode::Bios,
            r.performance_mode == PerformanceMode::Balanced,
    {
        Config { fan_mode: FanMode::Bios, performance_mode: PerformanceMode::Balanced }
    }
}

impl Config {
    /// Records a new fan mode, leaving the power profile alone.
    pub fn update_fan_mode(&mut self, mode: FanMode)
        ensures
            final(self).fan_mode == mode,
            final(self).performance_mode == old(self).performance_mode,
    {
        self.fan_mode = mode;
    }

    /// Records a new power profile, leaving the fan mode alone.
    pub fn update_performance_mode(&mut self, mode: PerformanceMode)
        ensures
            final(self).performance_mode == mode,
            final(self).fan_mode == old(self).fan_mode,
    {
        self.performance_mode = mode;
    }
}

} // verus!
