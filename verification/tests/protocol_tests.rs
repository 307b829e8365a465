//! Tests for the command server's request handling and response rendering.

use omenix::config::AppConfig;
use omenix::protocol::{
    handle_client_request, render_err, render_ok, status_string, write_failure_reply, ServerStep,
};
use omenix::state::{DaemonState, HardwareAction};
use omenix::types::{FanMode, HardwareFanMode, PerformanceMode};

fn fresh_state() -> DaemonState {
    let config = AppConfig {
        temp_threshold_high: 75,
        temp_threshold_low: 70,
        consecutive_high_temp_limit: 3,
        consecutive_low_temp_limit: 3,
        temp_check_interval: 5,
        max_fan_write_interval: None,
    };
    DaemonState::new(&config)
}

#[test]
fn status_of_fresh_state() {
    let s = fresh_state();
    assert_eq!(
        status_string(&s),
        "Mode: Auto, Actual: Bios, Performance: performance, Temp: Unknown"
    );
}

#[test]
fn set_max_then_status_reports_max() {
    // The protocol round trip: `set max`, commit, then `status` reports a
    // line containing "Mode: Max".
    let s = fresh_state();
    let step = handle_client_request("set max", &s, 0);
    let s = match step {
        ServerStep::Apply(next, action, reply) => {
            assert_eq!(action, HardwareAction::WriteFan(HardwareFanMode::Max));
            assert_eq!(reply, "Fan mode set to: Max");
            next
        }
        _ => panic!("set max must yield a transition"),
    };
    match handle_client_request("status", &s, 1) {
        ServerStep::Respond(line) => {
            assert!(line.contains("Mode: Max"));
            assert!(line.starts_with("Mode: Max"));
            assert!(render_ok(&line).starts_with("OK:"));
        }
        _ => panic!("status must yield a response"),
    }
}

#[test]
fn unknown_command_rejected_without_state_change() {
    let s = fresh_state();
    let before = match handle_client_request("status", &s, 0) {
        ServerStep::Respond(line) => line,
        _ => panic!("status must yield a response"),
    };
    match handle_client_request("open the pod bay doors", &s, 1) {
        ServerStep::Reject(e) => {
            assert_eq!(
                e,
                "Invalid command. Use 'set <mode>', 'set_performance <mode>', or 'status'"
            );
            assert!(render_err(&e).starts_with("ERROR:"));
        }
        _ => panic!("an unknown command must be rejected"),
    }
    let after = match handle_client_request("status", &s, 2) {
        ServerStep::Respond(line) => line,
        _ => panic!("status must yield a response"),
    };
    assert_eq!(before, after);
}

#[test]
fn mode_tokens_are_case_insensitive() {
    let s = fresh_state();
    match handle_client_request("set BIOS", &s, 0) {
        ServerStep::Apply(next, action, reply) => {
            assert_eq!(next.user_mode, FanMode::Bios);
            assert_eq!(action, HardwareAction::WriteFan(HardwareFanMode::Bios));
            assert_eq!(reply, "Fan mode set to: Bios");
        }
        _ => panic!("set BIOS must yield a transition"),
    }
    match handle_client_request("set_performance BaLanCed", &s, 0) {
        ServerStep::Apply(next, action, reply) => {
            assert_eq!(next.performance_mode, PerformanceMode::Balanced);
            assert_eq!(
                action,
                HardwareAction::WritePerformance(PerformanceMode::Balanced)
            );
            assert_eq!(reply, "Performance mode set to: balanced");
        }
        _ => panic!("set_performance must yield a transition"),
    }
}

#[test]
fn bad_mode_tokens_rejected() {
    let s = fresh_state();
    match handle_client_request("set turbo", &s, 0) {
        ServerStep::Reject(e) => assert_eq!(e, "Invalid fan mode"),
        _ => panic!("a bad fan mode must be rejected"),
    }
    match handle_client_request("set_performance warp", &s, 0) {
        ServerStep::Reject(e) => assert_eq!(e, "Invalid performance mode"),
        _ => panic!("a bad performance mode must be rejected"),
    }
}

#[test]
fn malformed_requests_rejected() {
    let s = fresh_state();
    for request in ["", "   ", "set", "set max now", "status please", "STATUS"] {
        match handle_client_request(request, &s, 0) {
            ServerStep::Reject(e) => {
                assert_eq!(
                    e,
                    "Invalid command. Use 'set <mode>', 'set_performance <mode>', or 'status'"
                );
            }
            _ => panic!("malformed request {:?} must be rejected", request),
        }
    }
}

#[test]
fn extra_whitespace_is_tolerated() {
    let s = fresh_state();
    match handle_client_request("  set \t max \n", &s, 0) {
        ServerStep::Apply(next, _, _) => assert_eq!(next.user_mode, FanMode::Max),
        _ => panic!("whitespace around tokens must not matter"),
    }
}

#[test]
fn status_shows_temperature_once_sampled() {
    let mut s = fresh_state();
    s.current_temp = Some(45_678);
    let line = status_string(&s);
    assert_eq!(
        line,
        "Mode: Auto, Actual: Bios, Performance: performance, Temp: 45\u{b0}C"
    );
}

#[test]
fn response_rendering() {
    assert_eq!(render_ok("done"), "OK: done\n");
    assert_eq!(render_err("no"), "ERROR: no\n");
    assert_eq!(
        write_failure_reply(HardwareAction::WriteFan(HardwareFanMode::Max)),
        "Failed to write fan mode"
    );
    assert_eq!(
        write_failure_reply(HardwareAction::WritePerformance(PerformanceMode::Balanced)),
        "Failed to write performance mode"
    );
}
