//! The standalone tray variant's fan control machine: the same hysteresis
//! policy as the daemon's, with fixed tuning — a high trigger threshold, a
//! release threshold strictly below it, consecutive-sample limits on both
//! sides, and a fixed re-assertion interval.
//!
//! As with the daemon's state, every change is a pure transition; the caller
//! performs the returned write and commits the new state only on success.

use vstd::prelude::*;

verus! {

/// Millidegrees above which a sample counts as high.
pub const TEMP_THRESHOLD_HIGH: i32 = 75000;

/// Millidegrees at or below which a sample counts as low while the maximum
/// mode holds; strictly below the high threshold, so no single boundary
/// causes chatter.
pub const TEMP_THRESHOLD_LOW: i32 = 70000;

/// Seconds after which the maximum mode is re-written while it holds.
pub const MAX_FAN_WRITE_INTERVAL: u64 = 100;

/// Consecutive high samples needed to force the maximum mode.
pub const CONSECUTIVE_HIGH_TEMP_LIMIT: u32 = 3;

/// Consecutive low samples needed to return control to the firmware.
pub const CONSECUTIVE_LOW_TEMP_LIMIT: u32 = 3;

/// What the user selected in the tray.
#[derive(Clone, Copy, Debug, PartialEq, Eq, Structural)]
pub enum FanStatus {
    Max,
    Auto,
    Bios,
}

/// What is actually written to the device.
#[derive(Clone, Copy, Debug, PartialEq, Eq, Structural)]
pub enum ActualFanMode {
    /// Control-point value "0".
    Max,
    /// Control-point value "2".
    Bios,
}

/// The tray variant's shared control state.
#[derive(Clone, Copy, Debug, PartialEq)]
pub struct AppState {
    /// What the user selected.
    pub user_mode: FanStatus,
    /// What was last committed to the device.
    pub actual_mode: ActualFanMode,
    /// When (seconds since start) the maximum mode was last written.
    pub last_fan_write: Option<u64>,
    /// Consecutive samples strictly above the high threshold.
    pub consecutive_high_temps: u32,
    /// Consecutive samples at or below the low threshold.
    pub consecutive_low_temps: u32,
    /// Whether the background loop runs the policy; tied to `Auto`.
    pub temp_monitoring_active: bool,
}

impl FanStatus {
    /// The display name of the selection.
    pub open spec fn spec_label(self) -> Seq<char> {
        match self {
            FanStatus::Max => "Max"@,
            FanStatus::Auto => "Auto"@,
            FanStatus::Bios => "Bios"@,
        }
    }

    /// The display name of the selection.
    pub fn label(self) -> (r: &'static str)
        ensures
            r@ == self.spec_label(),
    {
        match self {
            FanStatus::Max => "Max",
            FanStatus::Auto => "Auto",
            FanStatus::Bios => "Bios",
        }
    }
}

impl AppState {
    /// The state invariant of the variant: a recorded write or an explicit
    /// `Max` selection implies the maximum mode is committed, and the policy
    /// runs exactly under `Auto`.
    pub open spec fn wf(self) -> bool {
        &&& (self.last_fan_write is Some ==> self.actual_mode == ActualFanMode::Max)
        &&& (self.user_mode == FanStatus::Max ==> self.actual_mode == ActualFanMode::Max)
        &&& (self.temp_monitoring_active <==> self.user_mode == FanStatus::Auto)
    }

    /// The startup state: firmware control, nothing recorded.
    pub fn new() -> (r: AppState)
        ensures
            r == spec_initial_app_state(),
            r.wf(),
    {
        AppState {
            user_mode: FanStatus::Bios,
            actual_mode: ActualFanMode::Bios,
            last_fan_write: None,
            consecutive_high_temps: 0,
            consecutive_low_temps: 0,
            temp_monitoring_active: false,
        }
    }
}

/// The state the tray variant starts in.
pub open spec fn spec_initial_app_state() -> AppState {
    AppState {
        user_mode: FanStatus::Bios,
        actual_mode: ActualFanMode::Bios,
        last_fan_write: None,
        consecutive_high_temps: 0,
        consecutive_low_temps: 0,
        temp_monitoring_active: false,
    }
}

/// The device mode an explicit selection resolves to: `Auto` resolves
/// against a fresh reading when one could be taken, else to firmware
/// control.
pub open spec fn spec_resolve_status(mode: FanStatus, temp: Option<i32>) -> ActualFanMode {
    match mode {
        FanStatus::Max => ActualFanMode::Max,
        FanStatus::Bios => ActualFanMode::Bios,
        FanStatus::Auto => match temp {
            Some(t) => if t > TEMP_THRESHOLD_HIGH {
                ActualFanMode::Max
            } else {
                ActualFanMode::Bios
            },
            None => ActualFanMode::Bios,
        },
    }
}

/// What selecting a mode in the tray does: record the selection, resolve a
/// device mode, zero both counters, tie the policy to `Auto`, start the
/// re-assertion clock only for an explicit `Max`, and owe one device write.
pub open spec fn spec_set_fan_status(s: AppState, new_mode: FanStatus, temp: Option<i32>, now: u64) -> (
    AppState,
    ActualFanMode,
) {
    let resolved = spec_resolve_status(new_mode, temp);
    let ns = AppState {
        user_mode: new_mode,
        actual_mode: resolved,
        consecutive_high_temps: 0,
        consecutive_low_temps: 0,
        temp_monitoring_active: new_mode == FanStatus::Auto,
        last_fan_write: if new_mode == FanStatus::Max {
            Some(now)
        } else {
            None
        },
    };
    (ns, resolved)
}

/// Applies an explicit selection; `temp` is a fresh reading, if one could be
/// taken, for resolving `Auto`. See [`spec_set_fan_status`].
pub fn set_fan_status(state: &AppState, new_mode: FanStatus, temp: Option<i32>, now: u64) -> (r: (
    AppState,
    ActualFanMode,
))
    ensures
        r == spec_set_fan_status(*state, new_mode, temp, now),
        r.0.wf(),
{
    let resolved = match new_mode {
        FanStatus::Max => ActualFanMode::Max,
        FanStatus::Bios => ActualFanMode::Bios,
        FanStatus::Auto => match temp {
            Some(t) => {
                if t > TEMP_THRESHOLD_HIGH {
                    ActualFanMode::Max
                } else {
                    ActualFanMode::Bios
                }
            },
            None => ActualFanMode::Bios,
        },
    };
    let ns = AppState {
        user_mode: new_mode,
        actual_mode: resolved,
        consecutive_high_temps: 0,
        consecutive_low_temps: 0,
        temp_monitoring_active: matches!(new_mode, FanStatus::Auto),
        last_fan_write: if matches!(new_mode, FanStatus::Max) {
            Some(now)
        } else {
            None
        },
    };
    (ns, resolved)
}

/// The fixed re-assertion interval has fully elapsed since the recorded
/// write.
pub open spec fn variant_interval_elapsed(s: AppState, now: u64) -> bool {
    match s.last_fan_write {
        Some(t0) => now >= t0 && now - t0 >= MAX_FAN_WRITE_INTERVAL,
        None => false,
    }
}

/// What one background tick does. Under explicit `Max`, re-write the
/// maximum mode once the fixed interval has elapsed since the recorded
/// write, or at once when none is recorded. Under `Auto` with a reading in
/// hand, run the hysteresis policy: while the firmware holds the fans,
/// count consecutive samples strictly above the high threshold and force
/// the maximum mode on reaching the limit; while the maximum mode holds,
/// first honor the re-assertion rule, otherwise count consecutive samples
/// at or below the low threshold and return control to the firmware on
/// reaching its limit. A sample on the wrong side of its threshold only
/// resets the counter. Without a reading, or under explicit `Bios`, do
/// nothing.
pub open spec fn spec_fan_control_tick(s: AppState, temp: Option<i32>, now: u64) -> (
    AppState,
    Option<ActualFanMode>,
) {
    if s.user_mode == FanStatus::Max && (s.last_fan_write is None || variant_interval_elapsed(
        s,
        now,
    )) {
        (
            AppState { actual_mode: ActualFanMode::Max, last_fan_write: Some(now), ..s },
            Some(ActualFanMode::Max),
        )
    } else if s.user_mode == FanStatus::Auto && s.temp_monitoring_active && temp is Some {
        let t = temp.unwrap();
        if s.actual_mode != ActualFanMode::Max {
            if t > TEMP_THRESHOLD_HIGH {
                if s.consecutive_high_temps + 1 >= CONSECUTIVE_HIGH_TEMP_LIMIT {
                    (
                        AppState {
                            actual_mode: ActualFanMode::Max,
                            last_fan_write: Some(now),
                            consecutive_high_temps: 0,
                            consecutive_low_temps: 0,
                            ..s
                        },
                        Some(ActualFanMode::Max),
                    )
                } else {
                    (
                        AppState {
                            consecutive_high_temps: (s.consecutive_high_temps + 1) as u32,
                            ..s
                        },
                        None,
                    )
                }
            } else {
                (AppState { consecutive_high_temps: 0, ..s }, None)
            }
        } else {
            if variant_interval_elapsed(s, now) {
                (AppState { last_fan_write: Some(now), ..s }, Some(ActualFanMode::Max))
            } else if t <= TEMP_THRESHOLD_LOW {
                if s.consecutive_low_temps + 1 >= CONSECUTIVE_LOW_TEMP_LIMIT {
                    (
                        AppState {
                            actual_mode: ActualFanMode::Bios,
                            last_fan_write: None,
                            consecutive_high_temps: 0,
                            consecutive_low_temps: 0,
                            ..s
                        },
                        Some(ActualFanMode::Bios),
                    )
                } else {
                    (
                        AppState {
                            consecutive_low_temps: (s.consecutive_low_temps + 1) as u32,
                            ..s
                        },
                        None,
                    )
                }
            } else {
                (AppState { consecutive_low_temps: 0, ..s }, None)
            }
        }
    } else {
        (s, None)
    }
}

/// Applies one background tick; see [`spec_fan_control_tick`].
pub fn fan_control_tick(state: &AppState, temp: Option<i32>, now: u64) -> (r: (
    AppState,
    Option<ActualFanMode>,
))
    ensures
        r == spec_fan_control_tick(*state, temp, now),
        state.wf() ==> r.0.wf(),
{
    let due = match state.last_fan_write {
        None => false,
        Some(t0) => now >= t0 && now - t0 >= MAX_FAN_WRITE_INTERVAL,
    };
    if matches!(state.user_mode, FanStatus::Max) && (state.last_fan_write.is_none() || due) {
        (
            AppState { actual_mode: ActualFanMode::Max, last_fan_write: Some(now), ..*state },
            Some(ActualFanMode::Max),
        )
    } else if matches!(state.user_mode, FanStatus::Auto) && state.temp_monitoring_active
        && temp.is_some() {
        let t = temp.unwrap();
        if !matches!(state.actual_mode, ActualFanMode::Max) {
            if t > TEMP_THRESHOLD_HIGH {
                if state.consecutive_high_temps >= CONSECUTIVE_HIGH_TEMP_LIMIT - 1 {
                    (
                        AppState {
                            actual_mode: ActualFanMode::Max,
                            last_fan_write: Some(now),
                            consecutive_high_temps: 0,
                            consecutive_low_temps: 0,
                            ..*state
                        },
                        Some(ActualFanMode::Max),
                    )
                } else {
                    (
                        AppState {
                            consecutive_high_temps: state.consecutive_high_temps + 1,
                            ..*state
                        },
                        None,
                    )
                }
            } else {
                (AppState { consecutive_high_temps: 0, ..*state }, None)
            }
        } else {
            if due {
                (AppState { last_fan_write: Some(now), ..*state }, Some(ActualFanMode::Max))
            } else if t <= TEMP_THRESHOLD_LOW {
                if state.consecutive_low_temps >= CONSECUTIVE_LOW_TEMP_LIMIT - 1 {
                    (
                        AppState {
                            actual_mode: ActualFanMode::Bios,
                            last_fan_write: None,
                            consecutive_high_temps: 0,
                            consecutive_low_temps: 0,
                            ..*state
                        },
                        Some(ActualFanMode::Bios),
                    )
                } else {
                    (
                        AppState {
                            consecutive_low_temps: state.consecutive_low_temps + 1,
                            ..*state
                        },
                        None,
                    )
                }
            } else {
                (AppState { consecutive_low_temps: 0, ..*state }, None)
            }
        }
    } else {
        (*state, None)
    }
}

/// Hysteresis non-chatter for the variant: a sample strictly above the low
/// threshold and not above the high one never moves the committed device
/// mode, whatever the counters held.
pub proof fn lemma_variant_band_keeps_mode(s: AppState, t: i32, now: u64)
    requires
        s.wf(),
        TEMP_THRESHOLD_LOW < t <= TEMP_THRESHOLD_HIGH,
    ensures
        spec_fan_control_tick(s, Some(t), now).0.actual_mode == s.actual_mode,
{
}

/// The tray's one-line summary of the selection.
pub open spec fn spec_fan_status_line(s: AppState) -> Seq<char> {
    "Fans: "@ + s.user_mode.spec_label()
}

/// Renders the tray's one-line summary.
pub fn fan_status_string(state: &AppState) -> (r: String)
    ensures
        r@ == spec_fan_status_line(*state),
{
    let mut r = "Fans: ".to_owned();
    r.append(state.user_mode.label());
    r
}

/// Messages the tray front-end of the standalone variant hands its handler
/// thread.
#[derive(Clone, Copy, Debug)]
pub enum TrayMessage {
    PerformanceMode,
    DefaultMode,
    FansMax,
    FansAuto,
    FansBios,
    UpdateStatus,
    Exit,
}

} // verus!
