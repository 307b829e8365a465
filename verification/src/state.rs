//! The shared control state and its transitions.
//!
//! Every change of state is a pure function from the old state and one event
//! to the new state and one hardware action. The caller performs the action
//! (a file write) outside the critical section and commits the new state only
//! if the write succeeded, so a failed write leaves the state unchanged and
//! the next cycle retries.

use vstd::prelude::*;

use crate::config::AppConfig;
use crate::types::{FanMode, HardwareFanMode, PerformanceMode};

verus! {

/// An input the control state reacts to.
#[derive(Clone, Copy, Debug, PartialEq)]
pub enum Event {
    /// An explicit `set` command.
    SetFanMode(FanMode),
    /// An explicit `set_performance` command.
    SetPerformanceMode(PerformanceMode),
    /// One monitor tick's sensor reading, in millidegrees.
    TemperatureSample(i32),
}

/// What the hardware writer is asked to do after a transition.
#[derive(Clone, Copy, Debug, PartialEq, Eq, Structural)]
pub enum HardwareAction {
    /// Nothing to write this time.
    NoWrite,
    /// Write the given mode to the fan control point.
    WriteFan(HardwareFanMode),
    /// Write the given profile to the power-profile control point.
    WritePerformance(PerformanceMode),
}

/// The single source of truth for user intent, resolved hardware mode, and
/// the hysteresis counters. One value of this type exists for the process
/// lifetime, shared by the command server and the temperature monitor.
#[derive(Clone, Copy, Debug, PartialEq)]
pub struct DaemonState {
    /// What the user asked for.
    pub user_mode: FanMode,
    /// The mode last committed to the fan control point.
    pub actual_mode: HardwareFanMode,
    /// The power profile last committed.
    pub performance_mode: PerformanceMode,
    /// When (seconds since daemon start) the maximum mode was last written;
    /// `Some` only while the resolved mode is `Max`.
    pub last_fan_write: Option<u64>,
    /// Consecutive samples strictly above the high threshold.
    pub consecutive_high_temps: u32,
    /// Consecutive samples at or below the low threshold.
    pub consecutive_low_temps: u32,
    /// Whether the monitor runs the hysteresis policy; tied to `Auto`.
    pub temp_monitoring_active: bool,
    /// Last committed sensor reading, in millidegrees.
    pub current_temp: Option<i32>,
    /// The tuning parameters, fixed at startup.
    pub config: AppConfig,
}

impl DaemonState {
    /// The state invariant: the hysteresis band is real, a recorded write
    /// time implies the maximum mode is the resolved one, explicit `Max`
    /// intent implies the maximum mode is resolved, and monitoring runs
    /// exactly under `Auto`.
    pub open spec fn wf(self) -> bool {
        &&& self.config.wf()
        &&& (self.last_fan_write is Some ==> self.actual_mode == HardwareFanMode::Max)
        &&& (self.user_mode == FanMode::Max ==> self.actual_mode == HardwareFanMode::Max)
        &&& (self.temp_monitoring_active <==> self.user_mode == FanMode::Auto)
    }

    /// The startup state: automatic control with the firmware holding the
    /// fans until the first decision, no write recorded, counters clear.
    pub fn new(config: &AppConfig) -> (r: DaemonState)
        ensures
            r == spec_initial_state(*config),
            config.wf() ==> r.wf(),
    {
        DaemonState {
            user_mode: FanMode::Auto,
            actual_mode: HardwareFanMode::Bios,
            performance_mode: PerformanceMode::Performance,
            last_fan_write: None,
            consecutive_high_temps: 0,
            consecutive_low_temps: 0,
            temp_monitoring_active: true,
            current_temp: None,
            config: *config,
        }
    }
}

/// The state the daemon starts in.
pub open spec fn spec_initial_state(config: AppConfig) -> DaemonState {
    DaemonState {
        user_mode: FanMode::Auto,
        actual_mode: HardwareFanMode::Bios,
        performance_mode: PerformanceMode::Performance,
        last_fan_write: None,
        consecutive_high_temps: 0,
        consecutive_low_temps: 0,
        temp_monitoring_active: true,
        current_temp: None,
        config,
    }
}

/// The hardware mode an explicit `set` resolves to. `Max` and `Bios` name
/// theirs directly; `Auto` resolves against the last known temperature —
/// above the high threshold means maximum cooling, otherwise (or with no
/// sample yet) the firmware keeps control until the monitor decides.
pub open spec fn spec_resolve(mode: FanMode, temp: Option<i32>, config: AppConfig) -> HardwareFanMode {
    match mode {
        FanMode::Max => HardwareFanMode::Max,
        FanMode::Bios => HardwareFanMode::Bios,
        FanMode::Auto => match temp {
            Some(t) => if t > config.high_millis() {
                HardwareFanMode::Max
            } else {
                HardwareFanMode::Bios
            },
            None => HardwareFanMode::Bios,
        },
    }
}

/// What an explicit `set <mode>` does: record the intent, resolve a hardware
/// mode, zero both hysteresis counters, tie monitoring to `Auto`, start the
/// re-assertion clock only for an explicit `Max`, and ask for exactly one
/// fan write.
pub open spec fn spec_set_fan_mode(s: DaemonState, mode: FanMode, now: u64) -> (DaemonState, HardwareAction) {
    let resolved = spec_resolve(mode, s.current_temp, s.config);
    let ns = DaemonState {
        user_mode: mode,
        actual_mode: resolved,
        consecutive_high_temps: 0,
        consecutive_low_temps: 0,
        temp_monitoring_active: mode == FanMode::Auto,
        last_fan_write: if mode == FanMode::Max {
            Some(now)
        } else {
            None
        },
        ..s
    };
    (ns, HardwareAction::WriteFan(resolved))
}

/// What `set_performance <mode>` does: record the profile and ask for one
/// write of it. No counters, no timers.
pub open spec fn spec_set_performance_mode(s: DaemonState, mode: PerformanceMode) -> (DaemonState, HardwareAction) {
    (DaemonState { performance_mode: mode, ..s }, HardwareAction::WritePerformance(mode))
}

/// A write of the maximum mode is on record and the configured re-assertion
/// interval has fully elapsed by `now`.
pub open spec fn interval_elapsed(s: DaemonState, now: u64) -> bool {
    match (s.config.max_fan_write_interval, s.last_fan_write) {
        (Some(interval), Some(t0)) => now >= t0 && now - t0 >= interval,
        _ => false,
    }
}

/// What one monitor tick does with the sample `temp` at time `now`.
///
/// Under explicit `Max`, re-write the maximum mode whenever an interval is
/// configured and it has elapsed since the recorded write (or none is
/// recorded); with no interval configured, never re-write. Under `Auto`,
/// run the hysteresis policy: while the firmware holds the fans, count
/// consecutive samples strictly above the high threshold and force maximum
/// cooling on reaching the limit; while maximum cooling holds, first honor
/// the re-assertion rule, otherwise count consecutive samples at or below
/// the low threshold and return control to the firmware on reaching its
/// limit. Any sample on the wrong side of its threshold resets the counter.
/// The sample is always recorded.
pub open spec fn spec_sample(s: DaemonState, temp: i32, now: u64) -> (DaemonState, HardwareAction) {
    let s1 = DaemonState { current_temp: Some(temp), ..s };
    if s.user_mode == FanMode::Max {
        if s.config.max_fan_write_interval is Some && (s.last_fan_write is None
            || interval_elapsed(s, now)) {
            (
                DaemonState {
                    actual_mode: HardwareFanMode::Max,
                    last_fan_write: Some(now),
                    ..s1
                },
                HardwareAction::WriteFan(HardwareFanMode::Max),
            )
        } else {
            (s1, HardwareAction::NoWrite)
        }
    } else if s.user_mode == FanMode::Auto && s.temp_monitoring_active {
        if s.actual_mode != HardwareFanMode::Max {
            if temp > s.config.high_millis() {
                if s.consecutive_high_temps + 1 >= s.config.consecutive_high_temp_limit {
                    (
                        DaemonState {
                            actual_mode: HardwareFanMode::Max,
                            last_fan_write: Some(now),
                            consecutive_high_temps: 0,
                            consecutive_low_temps: 0,
                            ..s1
                        },
                        HardwareAction::WriteFan(HardwareFanMode::Max),
                    )
                } else {
                    (
                        DaemonState {
                            consecutive_high_temps: (s.consecutive_high_temps + 1) as u32,
                            ..s1
                        },
                        HardwareAction::NoWrite,
                    )
                }
            } else {
                (DaemonState { consecutive_high_temps: 0, ..s1 }, HardwareAction::NoWrite)
            }
        } else {
            if interval_elapsed(s, now) {
                (
                    DaemonState { last_fan_write: Some(now), ..s1 },
                    HardwareAction::WriteFan(HardwareFanMode::Max),
                )
            } else if temp <= s.config.low_millis() {
                if s.consecutive_low_temps + 1 >= s.config.consecutive_low_temp_limit {
                    (
                        DaemonState {
                            actual_mode: HardwareFanMode::Bios,
                            last_fan_write: None,
                            consecutive_high_temps: 0,
                            consecutive_low_temps: 0,
                            ..s1
                        },
                        HardwareAction::WriteFan(HardwareFanMode::Bios),
                    )
                } else {
                    (
                        DaemonState {
                            consecutive_low_temps: (s.consecutive_low_temps + 1) as u32,
                            ..s1
                        },
                        HardwareAction::NoWrite,
                    )
                }
            } else {
                (DaemonState { consecutive_low_temps: 0, ..s1 }, HardwareAction::NoWrite)
            }
        }
    } else {
        (s1, HardwareAction::NoWrite)
    }
}

/// One transition for any event.
pub open spec fn spec_apply_event(s: DaemonState, event: Event, now: u64) -> (DaemonState, HardwareAction) {
    match event {
        Event::SetFanMode(m) => spec_set_fan_mode(s, m, now),
        Event::SetPerformanceMode(m) => spec_set_performance_mode(s, m),
        Event::TemperatureSample(t) => spec_sample(s, t, now),
    }
}

/// Every transition keeps the state invariant.
pub proof fn lemma_apply_event_preserves_wf(s: DaemonState, event: Event, now: u64)
    requires
        s.wf(),
    ensures
        spec_apply_event(s, event, now).0.wf(),
{
}

/// Runtime test for [`interval_elapsed`].
fn interval_elapsed_now(state: &DaemonState, now: u64) -> (r: bool)
    ensures
        r == interval_elapsed(*state, now),
{
    match (state.config.max_fan_write_interval, state.last_fan_write) {
        (Some(interval), Some(t0)) => now >= t0 && now - t0 >= interval,
        _ => false,
    }
}

/// Resolves an explicit `set` to a hardware mode; see [`spec_resolve`].
pub fn resolve_fan_mode(mode: FanMode, temp: Option<i32>, config: &AppConfig) -> (r: HardwareFanMode)
    ensures
        r == spec_resolve(mode, temp, *config),
{
    match mode {
        FanMode::Max => HardwareFanMode::Max,
        FanMode::Bios => HardwareFanMode::Bios,
        FanMode::Auto => match temp {
            Some(t) => {
                if (t as i64) > (config.temp_threshold_high as i64) * 1000 {
                    HardwareFanMode::Max
                } else {
                    HardwareFanMode::Bios
                }
            },
            None => HardwareFanMode::Bios,
        },
    }
}

/// Applies an explicit `set <mode>` and hands back the new state and the one
/// fan write owed before responding; see [`spec_set_fan_mode`].
pub fn set_fan_mode(state: &DaemonState, new_mode: FanMode, now: u64) -> (r: (
    DaemonState,
    HardwareAction,
))
    ensures
        r == spec_set_fan_mode(*state, new_mode, now),
        state.wf() ==> r.0.wf(),
{
    let resolved = resolve_fan_mode(new_mode, state.current_temp, &state.config);
    let ns = DaemonState {
        user_mode: new_mode,
        actual_mode: resolved,
        consecutive_high_temps: 0,
        consecutive_low_temps: 0,
        temp_monitoring_active: matches!(new_mode, FanMode::Auto),
        last_fan_write: if matches!(new_mode, FanMode::Max) {
            Some(now)
        } else {
            None
        },
        ..*state
    };
    (ns, HardwareAction::WriteFan(resolved))
}

/// Applies `set_performance <mode>`; see [`spec_set_performance_mode`].
pub fn set_performance_mode(state: &DaemonState, new_mode: PerformanceMode) -> (r: (
    DaemonState,
    HardwareAction,
))
    ensures
        r == spec_set_performance_mode(*state, new_mode),
        state.wf() ==> r.0.wf(),
{
    (
        DaemonState { performance_mode: new_mode, ..*state },
        HardwareAction::WritePerformance(new_mode),
    )
}

/// Applies one monitor tick; see [`spec_sample`].
pub fn monitor_tick(state: &DaemonState, temp: i32, now: u64) -> (r: (DaemonState, HardwareAction))
    ensures
        r == spec_sample(*state, temp, now),
        state.wf() ==> r.0.wf(),
{
    let s1 = DaemonState { current_temp: Some(temp), ..*state };
    if matches!(state.user_mode, FanMode::Max) {
        if state.config.max_fan_write_interval.is_some() && (state.last_fan_write.is_none()
            || interval_elapsed_now(state, now)) {
            (
                DaemonState {
                    actual_mode: HardwareFanMode::Max,
                    last_fan_write: Some(now),
                    ..s1
                },
                HardwareAction::WriteFan(HardwareFanMode::Max),
            )
        } else {
            (s1, HardwareAction::NoWrite)
        }
    } else if matches!(state.user_mode, FanMode::Auto) && state.temp_monitoring_active {
        if !matches!(state.actual_mode, HardwareFanMode::Max) {
            if (temp as i64) > (state.config.temp_threshold_high as i64) * 1000 {
                let limit = state.config.consecutive_high_temp_limit;
                if limit == 0 || state.consecutive_high_temps >= limit - 1 {
                    (
                        DaemonState {
                            actual_mode: HardwareFanMode::Max,
                            last_fan_write: Some(now),
                            consecutive_high_temps: 0,
                            consecutive_low_temps: 0,
                            ..s1
                        },
                        HardwareAction::WriteFan(HardwareFanMode::Max),
                    )
                } else {
                    (
                        DaemonState {
                            consecutive_high_temps: state.consecutive_high_temps + 1,
                            ..s1
                        },
                        HardwareAction::NoWrite,
                    )
                }
            } else {
                (DaemonState { consecutive_high_temps: 0, ..s1 }, HardwareAction::NoWrite)
            }
        } else {
            if interval_elapsed_now(state, now) {
                (
                    DaemonState { last_fan_write: Some(now), ..s1 },
                    HardwareAction::WriteFan(HardwareFanMode::Max),
                )
            } else if (temp as i64) <= (state.config.temp_threshold_low as i64) * 1000 {
                let limit = state.config.consecutive_low_temp_limit;
                if limit == 0 || state.consecutive_low_temps >= limit - 1 {
                    (
                        DaemonState {
                            actual_mode: HardwareFanMode::Bios,
                            last_fan_write: None,
                            consecutive_high_temps: 0,
                            consecutive_low_temps: 0,
                            ..s1
                        },
                        HardwareAction::WriteFan(HardwareFanMode::Bios),
                    )
                } else {
                    (
                        DaemonState {
                            consecutive_low_temps: state.consecutive_low_temps + 1,
                            ..s1
                        },
                        HardwareAction::NoWrite,
                    )
                }
            } else {
                (DaemonState { consecutive_low_temps: 0, ..s1 }, HardwareAction::NoWrite)
            }
        }
    } else {
        (s1, HardwareAction::NoWrite)
    }
}

/// Applies any one event; see [`spec_apply_event`].
pub fn apply_event(state: &DaemonState, event: Event, now: u64) -> (r: (
    DaemonState,
    HardwareAction,
))
    ensures
        r == spec_apply_event(*state, event, now),
        state.wf() ==> r.0.wf(),
{
    match event {
        Event::SetFanMode(m) => set_fan_mode(state, m, now),
        Event::SetPerformanceMode(m) => set_performance_mode(state, m),
        Event::TemperatureSample(t) => monitor_tick(state, t, now),
    }
}

/// Records a fresh sensor reading without running the policy: what the
/// monitor does right after a successful read, and what keeps `Auto`
/// resolution current before an explicit `set`.
pub fn record_temperature(state: &mut DaemonState, temp: i32)
    ensures
        *final(state) == (DaemonState { current_temp: Some(temp), ..*old(state) }),
{
    state.current_temp = Some(temp);
}

/// The hardware-mode trace left by a sequence of timed events, every write
/// taken as committed: the resolved mode after each step.
pub open spec fn spec_replay(s: DaemonState, inputs: Seq<(Event, u64)>) -> Seq<HardwareFanMode>
    decreases inputs.len(),
{
    if inputs.len() == 0 {
        Seq::empty()
    } else {
        let step = spec_apply_event(s, inputs[0].0, inputs[0].1);
        seq![step.0.actual_mode] + spec_replay(step.0, inputs.skip(1))
    }
}

/// Replays a sequence of timed events and reports the resolved hardware mode
/// after each one.
pub fn replay(initial: &DaemonState, inputs: &Vec<(Event, u64)>) -> (r: Vec<HardwareFanMode>)
    ensures
        r@ == spec_replay(*initial, inputs@),
{
    let mut r: Vec<HardwareFanMode> = Vec::new();
    let mut cur: DaemonState = *initial;
    let mut i: usize = 0;
    proof {
        assert(inputs@.skip(0) =~= inputs@);
    }
    while i < inputs.len()
        invariant
            i <= inputs@.len(),
            r@.len() == i,
            r@ + spec_replay(cur, inputs@.skip(i as int)) =~= spec_replay(*initial, inputs@),
        decreases inputs@.len() - i,
    {
        let ghost rest = inputs@.skip(i as int);
        let (event, now) = inputs[i];
        let step = apply_event(&cur, event, now);
        proof {
            assert(rest[0] == inputs@[i as int]);
            assert(rest.skip(1) =~= inputs@.skip(i + 1));
            assert(r@.push(step.0.actual_mode) + spec_replay(step.0, inputs@.skip(i + 1)) =~= r@
                + spec_replay(cur, rest));
        }
        cur = step.0;
        r.push(cur.actual_mode);
        i = i + 1;
    }
    proof {
        assert(spec_replay(cur, inputs@.skip(inputs@.len() as int)) =~= Seq::<
            HardwareFanMode,
        >::empty());
        assert(r@ + Seq::<HardwareFanMode>::empty() =~= r@);
    }
    r
}

/// Determinism: the hardware-mode trace is a function of the initial state
/// and the input sequence alone, so replaying the same inputs twice yields
/// identical traces.
pub proof fn lemma_replay_deterministic(
    s1: DaemonState,
    s2: DaemonState,
    inputs1: Seq<(Event, u64)>,
    inputs2: Seq<(Event, u64)>,
)
    requires
        s1 == s2,
        inputs1 == inputs2,
    ensures
        spec_replay(s1, inputs1) == spec_replay(s2, inputs2),
{
}

/// The sample lies inside the hysteresis band: strictly above the low
/// threshold and not above the high one.
pub open spec fn in_band(config: AppConfig, temp: i32) -> bool {
    config.low_millis() < temp as int && temp as int <= config.high_millis()
}

/// Hysteresis non-chatter, one tick: a sample inside the band never moves
/// the resolved hardware mode, whatever the counters held.
pub proof fn lemma_band_sample_keeps_mode(s: DaemonState, temp: i32, now: u64)
    requires
        s.wf(),
        in_band(s.config, temp),
    ensures
        spec_sample(s, temp, now).0.actual_mode == s.actual_mode,
        spec_sample(s, temp, now).0.config == s.config,
{
}

/// The state after a sequence of monitor ticks, every write taken as
/// committed.
pub open spec fn spec_run_samples(s: DaemonState, samples: Seq<(i32, u64)>) -> DaemonState
    decreases samples.len(),
{
    if samples.len() == 0 {
        s
    } else {
        spec_run_samples(spec_sample(s, samples[0].0, samples[0].1).0, samples.skip(1))
    }
}

/// Hysteresis non-chatter over a whole trace: as long as every sample stays
/// inside the band, the resolved hardware mode never changes, however long
/// the trace runs.
pub proof fn lemma_band_trace_keeps_mode(s: DaemonState, samples: Seq<(i32, u64)>)
    requires
        s.wf(),
        forall|i: int| 0 <= i < samples.len() ==> in_band(s.config, (#[trigger] samples[i]).0),
    ensures
        spec_run_samples(s, samples).actual_mode == s.actual_mode,
    decreases samples.len(),
{
    if samples.len() > 0 {
        let step = spec_sample(s, samples[0].0, samples[0].1).0;
        lemma_band_sample_keeps_mode(s, samples[0].0, samples[0].1);
        lemma_apply_event_preserves_wf(s, Event::TemperatureSample(samples[0].0), samples[0].1);
        assert(forall|i: int|
            0 <= i < samples.skip(1).len() ==> in_band(
                step.config,
                (#[trigger] samples.skip(1)[i]).0,
            ));
        lemma_band_trace_keeps_mode(step, samples.skip(1));
    }
}

/// Liveness of re-assertion: while the user holds `Max` and an interval is
/// configured, a tick at which the interval has elapsed since the recorded
/// write — or no write is recorded — re-writes the maximum mode and
/// restarts the clock at `now`.
pub proof fn lemma_max_reassertion(s: DaemonState, temp: i32, now: u64)
    requires
        s.user_mode == FanMode::Max,
        s.config.max_fan_write_interval is Some,
        s.last_fan_write is None || interval_elapsed(s, now),
    ensures
        spec_sample(s, temp, now).1 == HardwareAction::WriteFan(HardwareFanMode::Max),
        spec_sample(s, temp, now).0.last_fan_write == Some(now),
{
}

/// Re-assertion recency, one tick: under explicit `Max` with interval `iv`
/// configured, any tick leaves a write on record that is within `iv` of the
/// tick — either a fresh write at `now`, or an earlier one still strictly
/// inside the interval.
pub proof fn lemma_max_write_recency(s: DaemonState, temp: i32, now: u64, iv: u64)
    requires
        s.user_mode == FanMode::Max,
        s.config.max_fan_write_interval == Some(iv),
        s.last_fan_write matches Some(t0) ==> t0 <= now,
    ensures
        ({
            let ns = spec_sample(s, temp, now).0;
            &&& ns.last_fan_write is Some
            &&& ns.last_fan_write.unwrap() <= now
            &&& (now - ns.last_fan_write.unwrap() < iv || ns.last_fan_write.unwrap() == now)
        }),
{
}

/// Re-assertion recency over an extended run: under explicit `Max` with
/// interval `iv` configured, after every tick of a run with nondecreasing
/// tick times, the recorded write lies within `iv` of that tick — so the
/// write timestamps an observer collects are spaced at most `iv` apart, up
/// to the tick granularity.
pub proof fn lemma_max_run_recency(s: DaemonState, samples: Seq<(i32, u64)>, iv: u64, k: int)
    requires
        s.user_mode == FanMode::Max,
        s.config.max_fan_write_interval == Some(iv),
        0 <= k < samples.len(),
        forall|i: int|
            0 <= i < samples.len() - 1 ==> (#[trigger] samples[i]).1 <= samples[i + 1].1,
        s.last_fan_write matches Some(t0) ==> t0 <= samples[0].1,
    ensures
        ({
            let sk = spec_run_samples(s, samples.take(k + 1));
            &&& sk.last_fan_write is Some
            &&& sk.last_fan_write.unwrap() <= samples[k].1
            &&& (samples[k].1 - sk.last_fan_write.unwrap() < iv || sk.last_fan_write.unwrap()
                == samples[k].1)
        }),
    decreases k,
{
    let s1 = spec_sample(s, samples[0].0, samples[0].1).0;
    lemma_max_write_recency(s, samples[0].0, samples[0].1, iv);
    let t = samples.take(k + 1);
    assert(t[0] == samples[0]);
    assert(spec_run_samples(s, t) == spec_run_samples(s1, t.skip(1)));
    if k == 0 {
        assert(t.skip(1) =~= Seq::<(i32, u64)>::empty());
        assert(spec_run_samples(s1, t.skip(1)) == s1);
    } else {
        let rest = samples.skip(1);
        assert(forall|i: int| 0 <= i < rest.len() - 1 ==> (#[trigger] rest[i]).1 <= rest[i + 1].1)
            by {
            assert(forall|i: int|
                0 <= i < rest.len() - 1 ==> (#[trigger] rest[i]).1 == samples[i + 1].1 && rest[i
                    + 1].1 == samples[i + 2].1);
        }
        assert(samples[0].1 <= samples[1].1);
        assert(rest[0] == samples[1]);
        lemma_max_run_recency(s1, rest, iv, k - 1);
        assert(t.skip(1) =~= rest.take(k));
        assert(rest.take(k)[k - 1] == samples[k]);
    }
}

/// The companion bound: while the user holds `Max` with an interval `iv`
/// configured and a write on record, a tick that writes nothing can only
/// happen strictly inside the interval — so recorded writes are never
/// farther than `iv` apart in tick time.
pub proof fn lemma_max_no_silent_gap(s: DaemonState, temp: i32, now: u64, iv: u64, t0: u64)
    requires
        s.user_mode == FanMode::Max,
        s.config.max_fan_write_interval == Some(iv),
        s.last_fan_write == Some(t0),
        spec_sample(s, temp, now).1 == HardwareAction::NoWrite,
    ensures
        now < t0 || now - t0 < iv,
{
}

/// No rewrite when unconfigured: with no re-assertion interval, a tick under
/// explicit `Max` writes nothing and only records the sample.
pub proof fn lemma_max_no_rewrite_unconfigured(s: DaemonState, temp: i32, now: u64)
    requires
        s.user_mode == FanMode::Max,
        s.config.max_fan_write_interval is None,
    ensures
        spec_sample(s, temp, now).1 == HardwareAction::NoWrite,
        spec_sample(s, temp, now).0 == (DaemonState { current_temp: Some(temp), ..s }),
{
}

/// Mode reset on explicit set: `set bios` then `set auto` leaves both
/// hysteresis counters at zero, whatever they held before — as does every
/// single `set`.
pub proof fn lemma_set_resets_counters(s: DaemonState, now1: u64, now2: u64)
    ensures
        ({
            let s1 = spec_set_fan_mode(s, FanMode::Bios, now1).0;
            let s2 = spec_set_fan_mode(s1, FanMode::Auto, now2).0;
            &&& s1.consecutive_high_temps == 0
            &&& s1.consecutive_low_temps == 0
            &&& s2.consecutive_high_temps == 0
            &&& s2.consecutive_low_temps == 0
        }),
{
}

} // verus!
