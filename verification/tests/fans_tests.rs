//! Tests for the standalone tray variant's control machine and for the
//! persisted preferences.

use omenix::config::{AppConfig, Config};
use omenix::fans::{
    fan_control_tick, fan_status_string, set_fan_status, ActualFanMode, AppState, FanStatus,
};
use omenix::types::{FanMode, PerformanceMode};

#[test]
fn initial_app_state() {
    let s = AppState::new();
    assert_eq!(s.user_mode, FanStatus::Bios);
    assert_eq!(s.actual_mode, ActualFanMode::Bios);
    assert_eq!(s.last_fan_write, None);
    assert_eq!(s.consecutive_high_temps, 0);
    assert_eq!(s.consecutive_low_temps, 0);
    assert!(!s.temp_monitoring_active);
}

#[test]
fn selecting_modes() {
    let s = AppState::new();

    let (s_max, write) = set_fan_status(&s, FanStatus::Max, None, 3);
    assert_eq!(write, ActualFanMode::Max);
    assert_eq!(s_max.last_fan_write, Some(3));
    assert!(!s_max.temp_monitoring_active);

    // Auto with a hot fresh reading resolves straight to Max.
    let (s_auto_hot, write) = set_fan_status(&s, FanStatus::Auto, Some(80_000), 4);
    assert_eq!(write, ActualFanMode::Max);
    assert!(s_auto_hot.temp_monitoring_active);
    assert_eq!(s_auto_hot.last_fan_write, None);

    // Auto with a cool reading, or none, resolves to firmware control.
    let (s_auto_cool, write) = set_fan_status(&s, FanStatus::Auto, Some(50_000), 5);
    assert_eq!(write, ActualFanMode::Bios);
    assert_eq!(s_auto_cool.actual_mode, ActualFanMode::Bios);
    let (_, write) = set_fan_status(&s, FanStatus::Auto, None, 6);
    assert_eq!(write, ActualFanMode::Bios);
}

#[test]
fn variant_hysteresis_scenario() {
    // Three samples above 75 C force Max; three at or under 70 C return
    // control to the firmware.
    let s = AppState::new();
    let (mut s, _) = set_fan_status(&s, FanStatus::Auto, Some(50_000), 0);

    let (s1, w1) = fan_control_tick(&s, Some(76_000), 5);
    assert_eq!(w1, None);
    assert_eq!(s1.consecutive_high_temps, 1);
    let (s2, w2) = fan_control_tick(&s1, Some(80_000), 10);
    assert_eq!(w2, None);
    let (s3, w3) = fan_control_tick(&s2, Some(77_000), 15);
    assert_eq!(w3, Some(ActualFanMode::Max));
    assert_eq!(s3.actual_mode, ActualFanMode::Max);
    assert_eq!(s3.consecutive_high_temps, 0);
    assert_eq!(s3.last_fan_write, Some(15));
    s = s3;

    let (s4, w4) = fan_control_tick(&s, Some(68_000), 20);
    assert_eq!(w4, None);
    assert_eq!(s4.consecutive_low_temps, 1);
    let (s5, w5) = fan_control_tick(&s4, Some(65_000), 25);
    assert_eq!(w5, None);
    let (s6, w6) = fan_control_tick(&s5, Some(69_000), 30);
    assert_eq!(w6, Some(ActualFanMode::Bios));
    assert_eq!(s6.actual_mode, ActualFanMode::Bios);
    assert_eq!(s6.consecutive_low_temps, 0);
    assert_eq!(s6.last_fan_write, None);
}

#[test]
fn variant_in_band_sample_only_resets_counters() {
    // A sample strictly between the thresholds never switches the mode: it
    // resets whichever counter was running.
    let s = AppState::new();
    let (s, _) = set_fan_status(&s, FanStatus::Auto, Some(50_000), 0);

    let (s1, _) = fan_control_tick(&s, Some(76_000), 5);
    let (s2, _) = fan_control_tick(&s1, Some(80_000), 10);
    assert_eq!(s2.consecutive_high_temps, 2);
    let (s3, w3) = fan_control_tick(&s2, Some(72_000), 15);
    assert_eq!(w3, None);
    assert_eq!(s3.consecutive_high_temps, 0);
    assert_eq!(s3.actual_mode, ActualFanMode::Bios);

    // Force Max, count two lows, then an in-band sample resets the low run.
    let (s4, _) = fan_control_tick(&s3, Some(76_000), 20);
    let (s5, _) = fan_control_tick(&s4, Some(76_000), 25);
    let (s6, w6) = fan_control_tick(&s5, Some(76_000), 30);
    assert_eq!(w6, Some(ActualFanMode::Max));
    let (s7, _) = fan_control_tick(&s6, Some(68_000), 35);
    let (s8, _) = fan_control_tick(&s7, Some(65_000), 40);
    assert_eq!(s8.consecutive_low_temps, 2);
    let (s9, w9) = fan_control_tick(&s8, Some(72_000), 45);
    assert_eq!(w9, None);
    assert_eq!(s9.consecutive_low_temps, 0);
    assert_eq!(s9.actual_mode, ActualFanMode::Max);
}

#[test]
fn max_selection_rewrites_every_hundred_seconds() {
    let s = AppState::new();
    let (mut s, _) = set_fan_status(&s, FanStatus::Max, None, 0);
    for now in [5u64, 50, 99] {
        let (ns, w) = fan_control_tick(&s, None, now);
        assert_eq!(w, None);
        s = ns;
    }
    let (s_due, w) = fan_control_tick(&s, None, 100);
    assert_eq!(w, Some(ActualFanMode::Max));
    assert_eq!(s_due.last_fan_write, Some(100));
}

#[test]
fn auto_max_reasserts_before_counting_lows() {
    // In Auto holding Max with the interval elapsed, the tick re-writes Max
    // and leaves the low counter alone even for a low sample.
    let s = AppState::new();
    let (s, _) = set_fan_status(&s, FanStatus::Auto, Some(50_000), 0);
    let (s1, _) = fan_control_tick(&s, Some(80_000), 5);
    let (s2, _) = fan_control_tick(&s1, Some(80_000), 10);
    let (s3, w3) = fan_control_tick(&s2, Some(80_000), 15);
    assert_eq!(w3, Some(ActualFanMode::Max));

    let (s4, w4) = fan_control_tick(&s3, Some(60_000), 115);
    assert_eq!(w4, Some(ActualFanMode::Max));
    assert_eq!(s4.last_fan_write, Some(115));
    assert_eq!(s4.consecutive_low_temps, 0);
    assert_eq!(s4.actual_mode, ActualFanMode::Max);
}

#[test]
fn failed_reading_abandons_the_tick() {
    let s = AppState::new();
    let (s, _) = set_fan_status(&s, FanStatus::Auto, Some(80_000), 0);
    let (ns, w) = fan_control_tick(&s, None, 5);
    assert_eq!(w, None);
    assert_eq!(ns, s);
}

#[test]
fn status_line() {
    let s = AppState::new();
    assert_eq!(fan_status_string(&s), "Fans: Bios");
    let (s_max, _) = set_fan_status(&s, FanStatus::Max, None, 0);
    assert_eq!(fan_status_string(&s_max), "Fans: Max");
}

#[test]
fn stock_tuning() {
    let c = AppConfig::default();
    assert_eq!(c.temp_threshold_high, 75);
    assert_eq!(c.temp_threshold_low, 70);
    assert_eq!(c.consecutive_high_temp_limit, 3);
    assert_eq!(c.consecutive_low_temp_limit, 3);
    assert_eq!(c.temp_check_interval, 5);
    assert_eq!(c.max_fan_write_interval, None);
}

#[test]
fn preferences_update_independently() {
    let mut c = Config::default();
    assert_eq!(c.fan_mode, FanMode::Bios);
    assert_eq!(c.performance_mode, PerformanceMode::Balanced);

    c.update_fan_mode(FanMode::Auto);
    assert_eq!(c.fan_mode, FanMode::Auto);
    assert_eq!(c.performance_mode, PerformanceMode::Balanced);

    c.update_performance_mode(PerformanceMode::Performance);
    assert_eq!(c.fan_mode, FanMode::Auto);
    assert_eq!(c.performance_mode, PerformanceMode::Performance);
}
