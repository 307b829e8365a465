//! Tests for the client's side of the protocol: command lines, response
//! discrimination, and status parsing.

use omenix::client::{
    fan_mode_command, parse_response, parse_system_state, performance_mode_command,
};
use omenix::sensors::{max_temperature, parse_reading};
use omenix::types::{
    parse_fan_mode, parse_performance_mode, temp_text, FanMode, FanStatus, HardwareFanMode,
    PerformanceMode, TrayMessage,
};

#[test]
fn command_lines() {
    assert_eq!(fan_mode_command(FanMode::Max), "set max");
    assert_eq!(fan_mode_command(FanMode::Auto), "set auto");
    assert_eq!(fan_mode_command(FanMode::Bios), "set bios");
    assert_eq!(
        performance_mode_command(PerformanceMode::Balanced),
        "set_performance balanced"
    );
    assert_eq!(
        performance_mode_command(PerformanceMode::Performance),
        "set_performance performance"
    );
}

#[test]
fn command_tokens_parse_back() {
    // What the client sends, the server reads back as the same mode.
    for mode in [FanMode::Max, FanMode::Auto, FanMode::Bios] {
        let line = fan_mode_command(mode);
        let token = line.strip_prefix("set ").unwrap();
        assert_eq!(parse_fan_mode(token), Some(mode));
    }
    for mode in [PerformanceMode::Balanced, PerformanceMode::Performance] {
        let line = performance_mode_command(mode);
        let token = line.strip_prefix("set_performance ").unwrap();
        assert_eq!(parse_performance_mode(token), Some(mode));
    }
}

#[test]
fn mode_parsing_rejects_unknown_tokens() {
    assert_eq!(parse_fan_mode("turbo"), None);
    assert_eq!(parse_fan_mode(""), None);
    assert_eq!(parse_fan_mode("maxx"), None);
    assert_eq!(parse_fan_mode("MAX"), Some(FanMode::Max));
    assert_eq!(parse_performance_mode("performance "), None);
    assert_eq!(parse_performance_mode("PERFORMANCE"), Some(PerformanceMode::Performance));
}

#[test]
fn responses_split_on_the_prefix() {
    assert_eq!(parse_response("OK: all good\n"), Ok("all good".to_string()));
    assert_eq!(parse_response("OK:\n"), Ok("".to_string()));
    assert_eq!(
        parse_response("ERROR: Invalid fan mode\n"),
        Err("Invalid fan mode".to_string())
    );
    assert_eq!(
        parse_response("well hello"),
        Err("Unexpected response from daemon".to_string())
    );
    assert_eq!(
        parse_response(""),
        Err("Unexpected response from daemon".to_string())
    );
}

#[test]
fn status_lines_parse_into_snapshots() {
    let s = parse_system_state("Mode: Max, Actual: Max, Performance: balanced, Temp: 45\u{b0}C");
    assert_eq!(s.fan_mode, FanMode::Max);
    assert_eq!(s.performance_mode, PerformanceMode::Balanced);
    assert_eq!(s.temperature, None);

    let s = parse_system_state(
        "Mode: Auto, Actual: Bios, Performance: performance, Temp: Unknown",
    );
    assert_eq!(s.fan_mode, FanMode::Auto);
    assert_eq!(s.performance_mode, PerformanceMode::Performance);

    let s = parse_system_state("Mode: Bios, Actual: Bios, Performance: balanced, Temp: Unknown");
    assert_eq!(s.fan_mode, FanMode::Bios);
    assert_eq!(s.performance_mode, PerformanceMode::Balanced);

    // Anything unrecognizable falls back to the quiet defaults.
    let s = parse_system_state("gibberish");
    assert_eq!(s.fan_mode, FanMode::Bios);
    assert_eq!(s.performance_mode, PerformanceMode::Balanced);
}

#[test]
fn temperature_text() {
    assert_eq!(temp_text(Some(45_000)), "45\u{b0}C");
    assert_eq!(temp_text(Some(-1_500)), "-1\u{b0}C");
    assert_eq!(temp_text(None), "Unknown");
}

#[test]
fn sensor_readings_take_the_maximum() {
    let readings = vec![
        "45000\n".to_string(),
        "61000\n".to_string(),
        "52000\n".to_string(),
    ];
    assert_eq!(max_temperature(&readings), Some(61_000));
}

#[test]
fn unreadable_sensors_are_skipped() {
    let readings = vec![
        "garbage".to_string(),
        " 48000 \n".to_string(),
        "".to_string(),
    ];
    assert_eq!(max_temperature(&readings), Some(48_000));

    let none = vec!["bad".to_string(), "".to_string()];
    assert_eq!(max_temperature(&none), None);
    assert_eq!(max_temperature(&Vec::new()), None);
}

#[test]
fn fan_status_report_line() {
    let status = FanStatus {
        user_mode: FanMode::Auto,
        hardware_mode: HardwareFanMode::Max,
        temperature: Some(78_500),
    };
    assert_eq!(status.line(), "Mode: Auto, Hardware: Max, Temp: 78\u{b0}C");
    let unknown = FanStatus {
        user_mode: FanMode::Bios,
        hardware_mode: HardwareFanMode::Bios,
        temperature: None,
    };
    assert_eq!(unknown.line(), "Mode: Bios, Hardware: Bios, Temp: Unknown");
}

#[test]
fn control_values() {
    assert_eq!(HardwareFanMode::Max.control_value(), "0");
    assert_eq!(HardwareFanMode::Bios.control_value(), "2");
}

#[test]
fn tray_messages_carry_their_modes() {
    let set = TrayMessage::SetMode(FanMode::Auto);
    match set {
        TrayMessage::SetMode(m) => assert_eq!(m, FanMode::Auto),
        _ => panic!("wrong variant"),
    }
    let perf = TrayMessage::SetPerformanceMode(PerformanceMode::Performance);
    match perf {
        TrayMessage::SetPerformanceMode(m) => assert_eq!(m, PerformanceMode::Performance),
        _ => panic!("wrong variant"),
    }
    assert!(matches!(TrayMessage::GetState, TrayMessage::GetState));
    assert!(matches!(TrayMessage::Exit, TrayMessage::Exit));
}

#[test]
fn single_reading_parses() {
    assert_eq!(parse_reading("45000\n"), Some(45_000));
    assert_eq!(parse_reading("  -273000  "), Some(-273_000));
    assert_eq!(parse_reading("4.5e4"), None);
    assert_eq!(parse_reading("unreadable"), None);
}
