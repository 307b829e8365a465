//! The command server's side of the wire protocol: one whitespace-tokenized
//! request in, one `OK:`/`ERROR:` response out.
//!
//! Serving a request is split from performing it: [`handle_client_request`]
//! parses the request and computes the transition, and the caller performs
//! the returned hardware action, commits the new state only on success, and
//! renders the response.

use vstd::prelude::*;

use crate::state::{
    set_fan_mode, set_performance_mode, spec_set_fan_mode, spec_set_performance_mode, DaemonState,
    HardwareAction,
};
use crate::text::{spec_contains, spec_starts_with, spec_tokens, split_tokens, str_eq};
use crate::types::{
    spec_parse_fan_mode, spec_parse_performance_mode, spec_temp_text, parse_fan_mode,
    parse_performance_mode, temp_text, FanMode,
};

verus! {

/// The status line for a state snapshot: user intent, resolved hardware
/// mode, power profile, and the last known temperature.
pub open spec fn spec_status(s: DaemonState) -> Seq<char> {
    "Mode: "@ + s.user_mode.spec_label() + ", Actual: "@ + s.actual_mode.spec_label()
        + ", Performance: "@ + s.performance_mode.spec_label() + ", Temp: "@ + spec_temp_text(
        s.current_temp,
    )
}

/// Renders the status line.
pub fn status_string(state: &DaemonState) -> (r: String)
    ensures
        r@ == spec_status(*state),
{
    let mut r = "Mode: ".to_owned();
    r.append(state.user_mode.label());
    r.append(", Actual: ");
    r.append(state.actual_mode.label());
    r.append(", Performance: ");
    r.append(state.performance_mode.label());
    r.append(", Temp: ");
    let t = temp_text(state.current_temp);
    r.append(t.as_str());
    proof {
        assert(r@ =~= spec_status(*state));
    }
    r
}

/// What serving one request asks of the caller.
pub enum ServerStep {
    /// Perform the action; on success commit the state and reply `OK:` with
    /// the message, on failure keep the old state and reply an error.
    Apply(DaemonState, HardwareAction, String),
    /// Reply `OK:` with the message; nothing changes.
    Respond(String),
    /// Reply `ERROR:` with the message; nothing changes.
    Reject(String),
}

/// Parses one request against the grammar `set <fan_mode>`,
/// `set_performance <perf_mode>`, `status` and computes the transition it
/// asks for. Mode tokens are case-insensitive; anything else is rejected
/// with a descriptive error and no state change.
pub fn handle_client_request(request: &str, state: &DaemonState, now: u64) -> (r: ServerStep)
    ensures
        ({
            let toks = spec_tokens(request@);
            &&& (toks.len() == 2 && toks[0] == "set"@ && spec_parse_fan_mode(toks[1]) is Some)
                ==> (r matches ServerStep::Apply(ns, act, msg) && {
                let m = spec_parse_fan_mode(toks[1]).unwrap();
                &&& ns == spec_set_fan_mode(*state, m, now).0
                &&& act == spec_set_fan_mode(*state, m, now).1
                &&& msg@ == "Fan mode set to: "@ + m.spec_label()
            })
            &&& (toks.len() == 2 && toks[0] == "set"@ && spec_parse_fan_mode(toks[1]) is None)
                ==> (r matches ServerStep::Reject(e) && e@ == "Invalid fan mode"@)
            &&& (toks.len() == 2 && toks[0] == "set_performance"@ && spec_parse_performance_mode(
                toks[1],
            ) is Some) ==> (r matches ServerStep::Apply(ns, act, msg) && {
                let m = spec_parse_performance_mode(toks[1]).unwrap();
                &&& ns == spec_set_performance_mode(*state, m).0
                &&& act == spec_set_performance_mode(*state, m).1
                &&& msg@ == "Performance mode set to: "@ + m.spec_label()
            })
            &&& (toks.len() == 2 && toks[0] == "set_performance"@ && spec_parse_performance_mode(
                toks[1],
            ) is None) ==> (r matches ServerStep::Reject(e) && e@ == "Invalid performance mode"@)
            &&& (toks.len() == 1 && toks[0] == "status"@) ==> (r matches ServerStep::Respond(msg)
                && msg@ == spec_status(*state))
            &&& (!(toks.len() == 2 && toks[0] == "set"@) && !(toks.len() == 2 && toks[0]
                == "set_performance"@) && !(toks.len() == 1 && toks[0] == "status"@)) ==> (
            r matches ServerStep::Reject(e) && e@
                == "Invalid command. Use 'set <mode>', 'set_performance <mode>', or 'status'"@)
        }),
        state.wf() ==> (r matches ServerStep::Apply(ns, act, msg) ==> ns.wf()),
{
    let toks = split_tokens(request);
    proof {
        // The three command words have views of different lengths, so the
        // grammar's cases cannot overlap.
        reveal_strlit("set");
        reveal_strlit("set_performance");
        reveal_strlit("status");
        let vt = toks@.map_values(|t: String| t@);
        assert(vt.len() == toks@.len());
        assert(forall|i: int| 0 <= i < toks@.len() ==> vt[i] == toks@[i]@);
    }
    if toks.len() == 2 && str_eq(toks[0].as_str(), "set") {
        match parse_fan_mode(toks[1].as_str()) {
            Some(m) => {
                let (ns, act) = set_fan_mode(state, m, now);
                let mut msg = "Fan mode set to: ".to_owned();
                msg.append(m.label());
                ServerStep::Apply(ns, act, msg)
            },
            None => ServerStep::Reject("Invalid fan mode".to_owned()),
        }
    } else if toks.len() == 2 && str_eq(toks[0].as_str(), "set_performance") {
        match parse_performance_mode(toks[1].as_str()) {
            Some(m) => {
                let (ns, act) = set_performance_mode(state, m);
                let mut msg = "Performance mode set to: ".to_owned();
                msg.append(m.label());
                ServerStep::Apply(ns, act, msg)
            },
            None => ServerStep::Reject("Invalid performance mode".to_owned()),
        }
    } else if toks.len() == 1 && str_eq(toks[0].as_str(), "status") {
        ServerStep::Respond(status_string(state))
    } else {
        ServerStep::Reject(
            "Invalid command. Use 'set <mode>', 'set_performance <mode>', or 'status'".to_owned(),
        )
    }
}

/// A success response: the `OK:` prefix is the one structure clients may
/// rely on.
pub open spec fn spec_render_ok(msg: Seq<char>) -> Seq<char> {
    "OK: "@ + msg + "\n"@
}

/// A failure response, `ERROR:`-prefixed.
pub open spec fn spec_render_err(msg: Seq<char>) -> Seq<char> {
    "ERROR: "@ + msg + "\n"@
}

/// Renders a success response.
pub fn render_ok(msg: &str) -> (r: String)
    ensures
        r@ == spec_render_ok(msg@),
{
    let mut r = "OK: ".to_owned();
    r.append(msg);
    r.append("\n");
    proof {
        assert(r@ =~= spec_render_ok(msg@));
    }
    r
}

/// Renders a failure response.
pub fn render_err(msg: &str) -> (r: String)
    ensures
        r@ == spec_render_err(msg@),
{
    let mut r = "ERROR: ".to_owned();
    r.append(msg);
    r.append("\n");
    proof {
        assert(r@ =~= spec_render_err(msg@));
    }
    r
}

/// The error text for a hardware write that failed, by what was written.
pub fn write_failure_reply(action: HardwareAction) -> (r: String)
    requires
        !(action is NoWrite),
    ensures
        action is WriteFan ==> r@ == "Failed to write fan mode"@,
        action is WritePerformance ==> r@ == "Failed to write performance mode"@,
{
    match action {
        HardwareAction::WritePerformance(_) => "Failed to write performance mode".to_owned(),
        _ => "Failed to write fan mode".to_owned(),
    }
}

/// Protocol round trip: once a `set` has been committed, the status line
/// begins with `Mode: ` and the set mode's name — so a following `status`
/// reports the mode; after `set max` in particular it contains `Mode: Max`.
pub proof fn lemma_status_reflects_set(s: DaemonState, mode: FanMode, now: u64)
    ensures
        ({
            let ns = spec_set_fan_mode(s, mode, now).0;
            spec_starts_with(spec_status(ns), "Mode: "@ + mode.spec_label())
        }),
        spec_contains(
            spec_status(spec_set_fan_mode(s, FanMode::Max, now).0),
            "Mode: Max"@,
        ),
{
    reveal_strlit("Mode: ");
    reveal_strlit("Max");
    reveal_strlit("Auto");
    reveal_strlit("Bios");
    reveal_strlit("Mode: Max");
    let ns = spec_set_fan_mode(s, mode, now).0;
    let line = spec_status(ns);
    let marker = "Mode: "@ + mode.spec_label();
    assert(line.subrange(0, marker.len() as int) =~= marker);
    let max_line = spec_status(spec_set_fan_mode(s, FanMode::Max, now).0);
    assert(max_line.subrange(0, "Mode: Max"@.len() as int) =~= "Mode: Max"@);
    assert(max_line.subrange(0, 0 + "Mode: Max"@.len() as int) == "Mode: Max"@);
}

/// Every failure response carries the `ERROR:` prefix clients test for.
pub proof fn lemma_err_response_prefix(msg: Seq<char>)
    ensures
        spec_starts_with(spec_render_err(msg), "ERROR:"@),
{
    reveal_strlit("ERROR: ");
    reveal_strlit("ERROR:");
    assert(spec_render_err(msg).subrange(0, "ERROR:"@.len() as int) =~= "ERROR:"@);
}

/// Every success response carries the `OK:` prefix.
pub proof fn lemma_ok_response_prefix(msg: Seq<char>)
    ensures
        spec_starts_with(spec_render_ok(msg), "OK:"@),
{
    reveal_strlit("OK: ");
    reveal_strlit("OK:");
    assert(spec_render_ok(msg).subrange(0, "OK:"@.len() as int) =~= "OK:"@);
}

} // verus!
