//! The client's side of the wire protocol: building command lines, telling
//! `OK:` from `ERROR:` responses, and reading a status line back into a
//! state snapshot. The socket itself lives with the caller.

use vstd::prelude::*;

use crate::text::{
    lower_seq, spec_contains, spec_starts_with, spec_trim, str_contains, str_starts_with,
    trim_spaces,
};
use crate::types::{
    spec_parse_fan_mode, spec_parse_performance_mode, FanMode, PerformanceMode, SystemState,
};

verus! {

/// The well-known path of the daemon's local socket.
pub const DAEMON_SOCKET_PATH: &'static str = "/tmp/omenix-daemon.sock";

/// The mode token a client sends in a `set` command.
pub open spec fn spec_fan_command_token(m: FanMode) -> Seq<char> {
    match m {
        FanMode::Max => "max"@,
        FanMode::Auto => "auto"@,
        FanMode::Bios => "bios"@,
    }
}

/// The command line for `set <mode>`.
pub fn fan_mode_command(mode: FanMode) -> (r: String)
    ensures
        r@ == "set "@ + spec_fan_command_token(mode),
{
    let mut r = "set ".to_owned();
    r.append(
        match mode {
            FanMode::Max => "max",
            FanMode::Auto => "auto",
            FanMode::Bios => "bios",
        },
    );
    r
}

/// The command line for `set_performance <mode>`: the canonical name is
/// already lowercase.
pub fn performance_mode_command(mode: PerformanceMode) -> (r: String)
    ensures
        r@ == "set_performance "@ + mode.spec_label(),
{
    let mut r = "set_performance ".to_owned();
    r.append(mode.label());
    r
}

/// The command token round trip: what [`fan_mode_command`] sends, the
/// server's parser reads back as the same mode — the token is its own
/// case folding and names exactly one mode.
pub proof fn lemma_fan_command_round_trip(m: FanMode)
    ensures
        spec_parse_fan_mode(spec_fan_command_token(m)) == Some(m),
        lower_seq(m.spec_label()) == spec_fan_command_token(m),
{
    reveal_strlit("max");
    reveal_strlit("auto");
    reveal_strlit("bios");
    reveal_strlit("Max");
    reveal_strlit("Auto");
    reveal_strlit("Bios");
    match m {
        FanMode::Max => {
            assert(lower_seq("max"@) =~= "max"@);
            assert(lower_seq("max"@) != "auto"@ && lower_seq("max"@) != "bios"@);
            assert(lower_seq("Max"@) =~= "max"@);
        },
        FanMode::Auto => {
            assert(lower_seq("auto"@) =~= "auto"@);
            assert(lower_seq("auto"@) != "max"@);
            assert(lower_seq("Auto"@) =~= "auto"@);
        },
        FanMode::Bios => {
            assert(lower_seq("bios"@) =~= "bios"@);
            assert("bios"@[0] != "auto"@[0]);
            assert(lower_seq("bios"@) != "max"@ && lower_seq("bios"@) != "auto"@);
            assert(lower_seq("Bios"@) =~= "bios"@);
        },
    }
}

/// The performance token round trip: the canonical lowercase name parses
/// back to the same mode.
pub proof fn lemma_performance_command_round_trip(m: PerformanceMode)
    ensures
        spec_parse_performance_mode(m.spec_label()) == Some(m),
{
    reveal_strlit("balanced");
    reveal_strlit("performance");
    match m {
        PerformanceMode::Balanced => {
            assert(lower_seq("balanced"@) =~= "balanced"@);
        },
        PerformanceMode::Performance => {
            assert(lower_seq("performance"@) =~= "performance"@);
            assert(lower_seq("performance"@) != "balanced"@);
        },
    }
}

/// Splits a raw response on the one structure the protocol promises: an
/// `OK:` prefix yields the trimmed payload, an `ERROR:` prefix yields the
/// trimmed error text, anything else is itself an error.
pub fn parse_response(resp: &str) -> (r: Result<String, String>)
    ensures
        spec_starts_with(resp@, "OK:"@) ==> (r matches Ok(p) && p@ == spec_trim(resp@.skip(3))),
        (!spec_starts_with(resp@, "OK:"@) && spec_starts_with(resp@, "ERROR:"@)) ==> (
        r matches Err(e) && e@ == spec_trim(resp@.skip(6))),
        (!spec_starts_with(resp@, "OK:"@) && !spec_starts_with(resp@, "ERROR:"@)) ==> (
        r matches Err(e) && e@ == "Unexpected response from daemon"@),
{
    proof {
        reveal_strlit("OK:");
        reveal_strlit("ERROR:");
    }
    if str_starts_with(resp, "OK:") {
        let n = resp.unicode_len();
        let rest = resp.substring_char(3, n);
        proof {
            assert(rest@ =~= resp@.skip(3));
        }
        Ok(trim_spaces(rest).to_owned())
    } else if str_starts_with(resp, "ERROR:") {
        let n = resp.unicode_len();
        let rest = resp.substring_char(6, n);
        proof {
            assert(rest@ =~= resp@.skip(6));
        }
        Err(trim_spaces(rest).to_owned())
    } else {
        Err("Unexpected response from daemon".to_owned())
    }
}

/// How a status payload reads back as a snapshot: the mode markers the
/// server's status line carries, searched as substrings; the temperature is
/// not carried over.
pub open spec fn spec_state_of_status(s: Seq<char>) -> SystemState {
    SystemState {
        fan_mode: if spec_contains(s, "Mode: Max"@) {
            FanMode::Max
        } else if spec_contains(s, "Mode: Auto"@) {
            FanMode::Auto
        } else {
            FanMode::Bios
        },
        performance_mode: if spec_contains(s, "Performance: performance"@) {
            PerformanceMode::Performance
        } else {
            PerformanceMode::Balanced
        },
        temperature: None,
    }
}

/// Reads a status payload back into a snapshot; see
/// [`spec_state_of_status`].
pub fn parse_system_state(status: &str) -> (r: SystemState)
    ensures
        r == spec_state_of_status(status@),
{
    let fan_mode = if str_contains(status, "Mode: Max") {
        FanMode::Max
    } else if str_contains(status, "Mode: Auto") {
        FanMode::Auto
    } else {
        FanMode::Bios
    };
    let performance_mode = if str_contains(status, "Performance: performance") {
        PerformanceMode::Performance
    } else {
        PerformanceMode::Balanced
    };
    SystemState { fan_mode, performance_mode, temperature: None }
}

} // verus!
