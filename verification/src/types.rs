//! Mode types shared by the daemon and its clients, their protocol spellings,
//! and the case-insensitive parsers for the mode tokens of the wire protocol.

use vstd::prelude::*;

use crate::text::{celsius_chars, celsius_to_string, lower_seq, str_eq_lower};

verus! {

/// What the user asked for: a tri-state intent.
#[derive(Clone, Copy, Debug, PartialEq, Eq, Structural)]
pub enum FanMode {
    /// Force the fans to maximum speed.
    Max,
    /// Temperature-driven automatic control.
    Auto,
    /// Leave fan control to the firmware.
    Bios,
}

/// What is actually asserted to the device. There is no hardware "auto":
/// the automatic policy resolves to one of these two.
#[derive(Clone, Copy, Debug, PartialEq, Eq, Structural)]
pub enum HardwareFanMode {
    /// Control-point value "0": fans forced to maximum.
    Max,
    /// Control-point value "2": firmware keeps control.
    Bios,
}

/// Power-profile setting, written to its own control point.
#[derive(Clone, Copy, Debug, PartialEq, Eq, Structural)]
pub enum PerformanceMode {
    Balanced,
    Performance,
}

impl FanMode {
    /// How the mode is shown to a user and named in a `set` command.
    pub open spec fn spec_label(self) -> Seq<char> {
        match self {
            FanMode::Max => "Max"@,
            FanMode::Auto => "Auto"@,
            FanMode::Bios => "Bios"@,
        }
    }

    /// The display name of the mode.
    pub fn label(self) -> (r: &'static str)
        ensures
            r@ == self.spec_label(),
    {
        match self {
            FanMode::Max => "Max",
            FanMode::Auto => "Auto",
            FanMode::Bios => "Bios",
        }
    }
}

impl HardwareFanMode {
    /// The literal written to the fan control point for this mode.
    pub fn control_value(self) -> (r: &'static str)
        ensures
            self == HardwareFanMode::Max ==> r@ == "0"@,
            self == HardwareFanMode::Bios ==> r@ == "2"@,
    {
        match self {
            HardwareFanMode::Max => "0",
            HardwareFanMode::Bios => "2",
        }
    }

    /// How the mode is shown in a status line.
    pub open spec fn spec_label(self) -> Seq<char> {
        match self {
            HardwareFanMode::Max => "Max"@,
            HardwareFanMode::Bios => "Bios"@,
        }
    }

    /// The display name of the mode.
    pub fn label(self) -> (r: &'static str)
        ensures
            r@ == self.spec_label(),
    {
        match self {
            HardwareFanMode::Max => "Max",
            HardwareFanMode::Bios => "Bios",
        }
    }
}

impl PerformanceMode {
    /// The canonical lowercase name: what a `set_performance` command says,
    /// what a status line shows, and what is written to the power-profile
    /// control point.
    pub open spec fn spec_label(self) -> Seq<char> {
        match self {
            PerformanceMode::Balanced => "balanced"@,
            PerformanceMode::Performance => "performance"@,
        }
    }

    /// The canonical lowercase name of the mode.
    pub fn label(self) -> (r: &'static str)
        ensures
            r@ == self.spec_label(),
    {
        match self {
            PerformanceMode::Balanced => "balanced",
            PerformanceMode::Performance => "performance",
        }
    }
}

/// What a fan-mode token of the protocol parses to: `max`, `auto` or `bios`,
/// case-insensitively, and nothing else.
pub open spec fn spec_parse_fan_mode(s: Seq<char>) -> Option<FanMode> {
    if lower_seq(s) == "max"@ {
        Some(FanMode::Max)
    } else if lower_seq(s) == "auto"@ {
        Some(FanMode::Auto)
    } else if lower_seq(s) == "bios"@ {
        Some(FanMode::Bios)
    } else {
        None
    }
}

/// Parses a fan-mode token, case-insensitively.
pub fn parse_fan_mode(s: &str) -> (r: Option<FanMode>)
    ensures
        r == spec_parse_fan_mode(s@),
{
    if str_eq_lower(s, "max") {
        Some(FanMode::Max)
    } else if str_eq_lower(s, "auto") {
        Some(FanMode::Auto)
    } else if str_eq_lower(s, "bios") {
        Some(FanMode::Bios)
    } else {
        None
    }
}

/// What a performance-mode token parses to: `balanced` or `performance`,
/// case-insensitively, and nothing else.
pub open spec fn spec_parse_performance_mode(s: Seq<char>) -> Option<PerformanceMode> {
    if lower_seq(s) == "balanced"@ {
        Some(PerformanceMode::Balanced)
    } else if lower_seq(s) == "performance"@ {
        Some(PerformanceMode::Performance)
    } else {
        None
    }
}

/// Parses a performance-mode token, case-insensitively.
pub fn parse_performance_mode(s: &str) -> (r: Option<PerformanceMode>)
    ensures
        r == spec_parse_performance_mode(s@),
{
    if str_eq_lower(s, "balanced") {
        Some(PerformanceMode::Balanced)
    } else if str_eq_lower(s, "performance") {
        Some(PerformanceMode::Performance)
    } else {
        None
    }
}

/// The temperature part of a status line: degrees Celsius, or `Unknown` when
/// no sample was ever taken.
pub open spec fn spec_temp_text(t: Option<i32>) -> Seq<char> {
    match t {
        Some(milli) => celsius_chars(milli as int) + "\u{b0}C"@,
        None => "Unknown"@,
    }
}

/// Renders the temperature part of a status line.
pub fn temp_text(t: Option<i32>) -> (r: String)
    ensures
        r@ == spec_temp_text(t),
{
    match t {
        Some(milli) => {
            let mut r = celsius_to_string(milli);
            r.append("\u{b0}C");
            r
        },
        None => "Unknown".to_owned(),
    }
}

/// A status report as the tray client keeps it.
#[derive(Clone, Copy, Debug, PartialEq)]
pub struct FanStatus {
    pub user_mode: FanMode,
    pub hardware_mode: HardwareFanMode,
    /// Last known reading in millidegrees Celsius, if any.
    pub temperature: Option<i32>,
}

impl FanStatus {
    /// The one-line rendering of this report.
    pub open spec fn spec_line(self) -> Seq<char> {
        "Mode: "@ + self.user_mode.spec_label() + ", Hardware: "@ + self.hardware_mode.spec_label()
            + ", Temp: "@ + spec_temp_text(self.temperature)
    }

    /// Renders the report as one line.
    pub fn line(&self) -> (r: String)
        ensures
            r@ == self.spec_line(),
    {
        let mut r = "Mode: ".to_owned();
        r.append(self.user_mode.label());
        r.append(", Hardware: ");
        r.append(self.hardware_mode.label());
        r.append(", Temp: ");
        let t = temp_text(self.temperature);
        r.append(t.as_str());
        r
    }
}

/// A parsed snapshot of the daemon's state, as a client sees it.
#[derive(Clone, Copy, Debug, PartialEq)]
pub struct SystemState {
    pub fan_mode: FanMode,
    pub performance_mode: PerformanceMode,
    /// Last known reading in millidegrees Celsius, if any.
    pub temperature: Option<i32>,
}

/// What a tray front-end asks of the daemon client.
#[derive(Clone, Copy, Debug)]
pub enum TrayMessage {
    SetMode(FanMode),
    SetPerformanceMode(PerformanceMode),
    GetState,
    Exit,
}

} // verus!
