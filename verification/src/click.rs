//! Click delivery policies: decoding them from invoke inputs, their wire
//! form sent to a Runner, and the driver form a Runner's answer maps to.

use std::time::Duration;
use vstd::prelude::*;
use crate::inputs::lookup;
use crate::invoke::InvokeCommandInput;
use crate::input_action::{i32_text, signed_decimal_text};
use crate::overlay::{duration_from_millis, duration_from_millis_spec};
use crate::parse::{
    debug_quoted, debug_text, decimal_value, is_unsigned_decimal, parse_u32, parse_u64, parse_u8,
    u32_parse_error_text, u64_parse_error_text, u8_parse_error_text, u64_text, decimal_text,
};
use crate::text::{owned, text_eq, viewed};

verus! {

/// The duration of whole seconds plus nanoseconds.
pub uninterp spec fn duration_new_spec(secs: u64, nanos: u32) -> Duration;

/// `Duration::new`: the contract names its result, which depends on the two
/// counts alone. It panics when the carry of whole seconds out of `nanos`
/// overflows `secs`, which `requires` leaves out.
#[verifier::external_body]
pub(crate) fn duration_new(secs: u64, nanos: u32) -> (d: Duration)
    requires
        secs + nanos / 1_000_000_000 <= u64::MAX,
    ensures
        d == duration_new_spec(secs, nanos),
{
    Duration::new(secs, nanos)
}

/// Which input paths a click may take.
#[derive(Clone, Copy, Debug, PartialEq, Eq)]
pub enum InputPolicy {
    BackgroundOnly,
    BackgroundPreferred,
    ForegroundPreferred,
}

/// A single, double or repeated click.
#[derive(Clone, Copy, Debug, PartialEq, Eq)]
pub enum Click {
    Single,
    Double { interval: Duration },
    Repeated { count: u8, interval: Duration },
}

/// How a window-targeted click is delivered.
#[derive(Clone, Copy, Debug, PartialEq, Eq)]
pub enum WindowClickStrategy {
    ChromiumCompatible,
    PidTargeted,
}

/// The driver's click delivery policy.
#[derive(Clone, Copy, Debug, PartialEq, Eq)]
pub struct ClickOptions {
    pub policy: InputPolicy,
    pub click: Click,
    pub window_strategy: WindowClickStrategy,
}

impl Default for ClickOptions {
    fn default() -> (options: Self)
        ensures
            options == (ClickOptions {
                policy: InputPolicy::BackgroundPreferred,
                click: Click::Single,
                window_strategy: WindowClickStrategy::ChromiumCompatible,
            }),
    {
        ClickOptions {
            policy: InputPolicy::BackgroundPreferred,
            click: Click::Single,
            window_strategy: WindowClickStrategy::ChromiumCompatible,
        }
    }
}

/// Input policy as carried on the wire.
#[derive(Clone, Copy, Debug, PartialEq, Eq)]
pub enum WireInputPolicy {
    Unspecified,
    BackgroundPreferred,
    BackgroundOnly,
    ForegroundPreferred,
    /// A number no policy is known by.
    Unrecognized(i32),
}

/// Window click strategy as carried on the wire.
#[derive(Clone, Copy, Debug, PartialEq, Eq)]
pub enum WireWindowClickStrategy {
    Unspecified,
    ChromiumCompatible,
    PidTargeted,
    /// A number no strategy is known by.
    Unrecognized(i32),
}

/// A protobuf duration: signed seconds and nanoseconds.
#[derive(Clone, Copy, Debug, PartialEq, Eq)]
pub struct WireDuration {
    pub seconds: i64,
    pub nanos: i32,
}

/// A click as carried on the wire.
#[derive(Clone, Copy, Debug, PartialEq, Eq)]
pub struct WireClick {
    pub count: u32,
    pub interval: Option<WireDuration>,
}

/// Click options as carried on the wire.
#[derive(Clone, Copy, Debug, PartialEq, Eq)]
pub struct WireClickOptions {
    pub policy: WireInputPolicy,
    pub click: Option<WireClick>,
    pub window_strategy: WireWindowClickStrategy,
}

/// Clicks repeat this many milliseconds apart unless told otherwise.
pub const DEFAULT_CLICK_INTERVAL_MS: u64 = 75;

// ---------------------------------------------------------------------------
// Local decoding: `input.clickWindowPoint` on this machine.

pub open spec fn invalid_policy_text(command_id: Seq<char>, policy: Seq<char>) -> Seq<char> {
    command_id + " received invalid --input-policy "@ + debug_text(policy)
        + "; expected background-only, background-preferred, or foreground-preferred"@
}

/// The local spelling of a policy, hyphenated or with underscores.
pub open spec fn local_policy(policy: Seq<char>) -> Option<InputPolicy> {
    if policy == "background-only"@ || policy == "background_only"@ {
        Some(InputPolicy::BackgroundOnly)
    } else if policy == "background-preferred"@ || policy == "background_preferred"@ {
        Some(InputPolicy::BackgroundPreferred)
    } else if policy == "foreground-preferred"@ || policy == "foreground_preferred"@ {
        Some(InputPolicy::ForegroundPreferred)
    } else {
        None
    }
}

pub open spec fn invalid_local_number_text(command_id: Seq<char>, name: Seq<char>, raw: Seq<char>, error: Seq<char>) -> Seq<char> {
    command_id + " received invalid --"@ + name + " "@ + debug_text(raw) + ": "@ + error
}

/// The click delivery policy of a local window click, or its error.
pub open spec fn window_click_options_result(inputs: Map<Seq<char>, Seq<char>>, command_id: Seq<char>) -> Result<ClickOptions, Seq<char>> {
    let policy = match lookup(inputs, "input-policy"@) {
        None => Ok(InputPolicy::BackgroundPreferred),
        Some(p) => match local_policy(p) {
            Some(v) => Ok(v),
            None => Err(invalid_policy_text(command_id, p)),
        },
    };
    let count: Result<u8, Seq<char>> = match lookup(inputs, "click-count"@) {
        None => Ok(1u8),
        Some(raw) => if is_unsigned_decimal(raw) && decimal_value(raw) <= u8::MAX {
            Ok(decimal_value(raw) as u8)
        } else {
            Err(invalid_local_number_text(command_id, "click-count"@, raw, u8_parse_error_text(raw)))
        },
    };
    let interval: Result<u64, Seq<char>> = match lookup(inputs, "click-interval-ms"@) {
        None => Ok(DEFAULT_CLICK_INTERVAL_MS),
        Some(raw) => if is_unsigned_decimal(raw) && decimal_value(raw) <= u64::MAX {
            Ok(decimal_value(raw) as u64)
        } else {
            Err(invalid_local_number_text(command_id, "click-interval-ms"@, raw, u64_parse_error_text(raw)))
        },
    };
    match policy {
        Err(e) => Err(e),
        Ok(policy) => match count {
            Err(e) => Err(e),
            Ok(count) => if count == 0 {
                Err(command_id + " requires --click-count to be between 1 and 255"@)
            } else {
                match interval {
                    Err(e) => Err(e),
                    Ok(ms) => Ok(ClickOptions {
                        policy,
                        click: if count == 1 {
                            Click::Single
                        } else if count == 2 {
                            Click::Double { interval: duration_from_millis_spec(ms) }
                        } else {
                            Click::Repeated { count, interval: duration_from_millis_spec(ms) }
                        },
                        window_strategy: WindowClickStrategy::ChromiumCompatible,
                    }),
                }
            },
        },
    }
}

fn invalid_local_number(command_id: &str, name: &str, raw: &str, error: &str) -> (m: String)
    ensures
        m@ == invalid_local_number_text(command_id@, name@, raw@, error@),
{
    let mut m = owned(command_id);
    m.append(" received invalid --");
    m.append(name);
    m.append(" ");
    let quoted = debug_quoted(raw);
    m.append(quoted.as_str());
    m.append(": ");
    m.append(error);
    m
}

/// Decodes the `input-policy`, `click-count` and `click-interval-ms` inputs
/// of a local window click.
pub fn window_click_options(input: &InvokeCommandInput) -> (r: Result<ClickOptions, String>)
    ensures
        viewed(r) == window_click_options_result(input.inputs@, input.command_id@),
{
    proof {
        reveal_strlit("background-only");
        reveal_strlit("background_only");
        reveal_strlit("background-preferred");
        reveal_strlit("background_preferred");
        reveal_strlit("foreground-preferred");
        reveal_strlit("foreground_preferred");
    }
    let mut options = ClickOptions::default();
    match input.inputs.get("input-policy") {
        None => {},
        Some(policy) => {
            let p = policy.as_str();
            if text_eq(p, "background-only") || text_eq(p, "background_only") {
                options.policy = InputPolicy::BackgroundOnly;
            } else if text_eq(p, "background-preferred") || text_eq(p, "background_preferred") {
                options.policy = InputPolicy::BackgroundPreferred;
            } else if text_eq(p, "foreground-preferred") || text_eq(p, "foreground_preferred") {
                options.policy = InputPolicy::ForegroundPreferred;
            } else {
                let mut m = owned(input.command_id.as_str());
                m.append(" received invalid --input-policy ");
                let quoted = debug_quoted(p);
                m.append(quoted.as_str());
                m.append("; expected background-only, background-preferred, or foreground-preferred");
                return Err(m);
            }
        },
    }
    let count: u8 = match input.inputs.get("click-count") {
        None => 1,
        Some(raw) => match parse_u8(raw.as_str()) {
            Ok(v) => v,
            Err(error) => {
                return Err(invalid_local_number(input.command_id.as_str(), "click-count", raw.as_str(), error.as_str()));
            },
        },
    };
    if count == 0 {
        let mut m = owned(input.command_id.as_str());
        m.append(" requires --click-count to be between 1 and 255");
        return Err(m);
    }
    let interval_ms: u64 = match input.inputs.get("click-interval-ms") {
        None => DEFAULT_CLICK_INTERVAL_MS,
        Some(raw) => match parse_u64(raw.as_str()) {
            Ok(v) => v,
            Err(error) => {
                return Err(invalid_local_number(input.command_id.as_str(), "click-interval-ms", raw.as_str(), error.as_str()));
            },
        },
    };
    options.click = if count == 1 {
        Click::Single
    } else if count == 2 {
        Click::Double { interval: duration_from_millis(interval_ms) }
    } else {
        Click::Repeated { count, interval: duration_from_millis(interval_ms) }
    };
    Ok(options)
}

// ---------------------------------------------------------------------------
// Remote decoding: the wire options a selected Runner receives.

/// The wire spelling of a policy; absent means background-preferred except
/// for `screen.clickText`, which prefers the foreground.
pub open spec fn wire_policy(command_id: Seq<char>, policy: Option<Seq<char>>) -> Option<WireInputPolicy> {
    match policy {
        None => if command_id == "screen.clickText"@ {
            Some(WireInputPolicy::ForegroundPreferred)
        } else {
            Some(WireInputPolicy::BackgroundPreferred)
        },
        Some(p) => if p == "background-preferred"@ {
            Some(WireInputPolicy::BackgroundPreferred)
        } else if p == "background-only"@ {
            Some(WireInputPolicy::BackgroundOnly)
        } else if p == "foreground-preferred"@ {
            Some(WireInputPolicy::ForegroundPreferred)
        } else {
            None
        },
    }
}

/// A millisecond count as a protobuf duration.
pub open spec fn wire_millis(ms: u64) -> WireDuration {
    WireDuration { seconds: (ms / 1000) as i64, nanos: ((ms % 1000) * 1_000_000) as i32 }
}

/// The wire click options of a selected remote command, or its error.
pub open spec fn selected_click_options_result(inputs: Map<Seq<char>, Seq<char>>, command_id: Seq<char>) -> Result<WireClickOptions, Seq<char>> {
    let policy_input = lookup(inputs, "input-policy"@);
    let count: Result<u32, Seq<char>> = match lookup(inputs, "click-count"@) {
        None => Ok(1u32),
        Some(raw) => if is_unsigned_decimal(raw) && decimal_value(raw) <= u32::MAX {
            Ok(decimal_value(raw) as u32)
        } else {
            Err(command_id + " has invalid --click-count: "@ + u32_parse_error_text(raw))
        },
    };
    let interval: Result<u64, Seq<char>> = match lookup(inputs, "click-interval-ms"@) {
        None => Ok(DEFAULT_CLICK_INTERVAL_MS),
        Some(raw) => if is_unsigned_decimal(raw) && decimal_value(raw) <= u64::MAX {
            Ok(decimal_value(raw) as u64)
        } else {
            Err(command_id + " has invalid --click-interval-ms: "@ + u64_parse_error_text(raw))
        },
    };
    match wire_policy(command_id, policy_input) {
        None => Err(command_id + " has unknown --input-policy "@ + debug_text(policy_input->0)),
        Some(policy) => match count {
            Err(e) => Err(e),
            Ok(count) => if !(1 <= count && count <= 255) {
                Err(command_id + " requires --click-count within 1..=255"@)
            } else {
                match interval {
                    Err(e) => Err(e),
                    Ok(ms) => if count > 1 && ms == 0 {
                        Err(command_id + " requires a positive --click-interval-ms for repeated clicks"@)
                    } else {
                        Ok(WireClickOptions {
                            policy,
                            click: Some(WireClick { count, interval: if count > 1 { Some(wire_millis(ms)) } else { None } }),
                            window_strategy: WireWindowClickStrategy::ChromiumCompatible,
                        })
                    },
                }
            },
        },
    }
}

/// Decodes the click inputs of a command routed to a selected Runner.
pub fn selected_click_options(input: &InvokeCommandInput) -> (r: Result<WireClickOptions, String>)
    ensures
        viewed(r) == selected_click_options_result(input.inputs@, input.command_id@),
{
    proof {
        reveal_strlit("background-only");
        reveal_strlit("background-preferred");
        reveal_strlit("foreground-preferred");
    }
    let command_id = input.command_id.as_str();
    let policy = match input.inputs.get("input-policy") {
        None => if text_eq(command_id, "screen.clickText") {
            WireInputPolicy::ForegroundPreferred
        } else {
            WireInputPolicy::BackgroundPreferred
        },
        Some(value) => {
            let v = value.as_str();
            if text_eq(v, "background-preferred") {
                WireInputPolicy::BackgroundPreferred
            } else if text_eq(v, "background-only") {
                WireInputPolicy::BackgroundOnly
            } else if text_eq(v, "foreground-preferred") {
                WireInputPolicy::ForegroundPreferred
            } else {
                let mut m = owned(command_id);
                m.append(" has unknown --input-policy ");
                let quoted = debug_quoted(v);
                m.append(quoted.as_str());
                return Err(m);
            }
        },
    };
    let count: u32 = match input.inputs.get("click-count") {
        None => 1,
        Some(raw) => match parse_u32(raw.as_str()) {
            Ok(v) => v,
            Err(error) => {
                let mut m = owned(command_id);
                m.append(" has invalid --click-count: ");
                m.append(error.as_str());
                return Err(m);
            },
        },
    };
    if !(1 <= count && count <= 255) {
        let mut m = owned(command_id);
        m.append(" requires --click-count within 1..=255");
        return Err(m);
    }
    let interval_ms: u64 = match input.inputs.get("click-interval-ms") {
        None => DEFAULT_CLICK_INTERVAL_MS,
        Some(raw) => match parse_u64(raw.as_str()) {
            Ok(v) => v,
            Err(error) => {
                let mut m = owned(command_id);
                m.append(" has invalid --click-interval-ms: ");
                m.append(error.as_str());
                return Err(m);
            },
        },
    };
    let interval = if count > 1 {
        Some(WireDuration { seconds: (interval_ms / 1000) as i64, nanos: ((interval_ms % 1000) * 1_000_000) as i32 })
    } else {
        None
    };
    if count > 1 && interval_ms == 0 {
        let mut m = owned(command_id);
        m.append(" requires a positive --click-interval-ms for repeated clicks");
        return Err(m);
    }
    Ok(WireClickOptions {
        policy,
        click: Some(WireClick { count, interval }),
        window_strategy: WireWindowClickStrategy::ChromiumCompatible,
    })
}

/// The driver click of a wire click, or the error that rejects it.
pub open spec fn driver_click_result(click: Option<WireClick>) -> Result<Click, Seq<char>> {
    match click {
        None => Ok(Click::Single),
        Some(c) => if c.count == 1 {
            Ok(Click::Single)
        } else {
            match c.interval {
                None => Err("repeated click omitted its interval"@),
                Some(i) => if i.seconds < 0 || i.nanos < 0 {
                    Err("click interval must not be negative"@)
                } else if c.count == 2 {
                    Ok(Click::Double { interval: duration_new_spec(i.seconds as u64, i.nanos as u32) })
                } else if 3 <= c.count && c.count <= 255 {
                    Ok(Click::Repeated { count: c.count as u8, interval: duration_new_spec(i.seconds as u64, i.nanos as u32) })
                } else {
                    Err("click count "@ + decimal_text(c.count as nat) + " is outside 1..=255"@)
                },
            }
        },
    }
}

/// The driver policy a wire policy maps to (unspecified means
/// background-preferred), or the error for an unknown one.
pub open spec fn driver_policy(policy: WireInputPolicy) -> Result<InputPolicy, Seq<char>> {
    match policy {
        WireInputPolicy::Unspecified | WireInputPolicy::BackgroundPreferred => Ok(InputPolicy::BackgroundPreferred),
        WireInputPolicy::BackgroundOnly => Ok(InputPolicy::BackgroundOnly),
        WireInputPolicy::ForegroundPreferred => Ok(InputPolicy::ForegroundPreferred),
        WireInputPolicy::Unrecognized(v) => Err("unknown InputPolicy value "@ + signed_decimal_text(v as int)),
    }
}

/// The driver strategy a wire strategy maps to (unspecified means
/// Chromium-compatible), or the error for an unknown one.
pub open spec fn driver_strategy(strategy: WireWindowClickStrategy) -> Result<WindowClickStrategy, Seq<char>> {
    match strategy {
        WireWindowClickStrategy::Unspecified | WireWindowClickStrategy::ChromiumCompatible => Ok(
            WindowClickStrategy::ChromiumCompatible,
        ),
        WireWindowClickStrategy::PidTargeted => Ok(WindowClickStrategy::PidTargeted),
        WireWindowClickStrategy::Unrecognized(v) => Err("unknown WindowClickStrategy value "@ + signed_decimal_text(v as int)),
    }
}

/// The driver click options of wire options, or the error of the first
/// field refused: the policy, then the click, then the window strategy.
pub open spec fn driver_click_options_result(options: WireClickOptions) -> Result<ClickOptions, Seq<char>> {
    match driver_policy(options.policy) {
        Err(e) => Err(e),
        Ok(policy) => match driver_click_result(options.click) {
            Err(e) => Err(e),
            Ok(click) => match driver_strategy(options.window_strategy) {
                Err(e) => Err(e),
                Ok(window_strategy) => Ok(ClickOptions { policy, click, window_strategy }),
            },
        },
    }
}

/// Maps wire click options back to the driver's click policy.
pub fn driver_click_options_from_proto(options: &WireClickOptions) -> (r: Result<ClickOptions, String>)
    ensures
        viewed(r) == driver_click_options_result(*options),
{
    let policy = match options.policy {
        WireInputPolicy::Unspecified | WireInputPolicy::BackgroundPreferred => InputPolicy::BackgroundPreferred,
        WireInputPolicy::BackgroundOnly => InputPolicy::BackgroundOnly,
        WireInputPolicy::ForegroundPreferred => InputPolicy::ForegroundPreferred,
        WireInputPolicy::Unrecognized(v) => {
            let mut m = owned("unknown InputPolicy value ");
            let n = i32_text(v);
            m.append(n.as_str());
            return Err(m);
        },
    };
    let click = match options.click {
        None => Click::Single,
        Some(c) => if c.count == 1 {
            Click::Single
        } else {
            let interval = match c.interval {
                None => return Err(owned("repeated click omitted its interval")),
                Some(i) => i,
            };
            if interval.seconds < 0 || interval.nanos < 0 {
                return Err(owned("click interval must not be negative"));
            }
            let duration = duration_new(interval.seconds as u64, interval.nanos as u32);
            if c.count == 2 {
                Click::Double { interval: duration }
            } else if 3 <= c.count && c.count <= 255 {
                Click::Repeated { count: c.count as u8, interval: duration }
            } else {
                let mut m = owned("click count ");
                let n = u64_text(c.count as u64);
                m.append(n.as_str());
                m.append(" is outside 1..=255");
                return Err(m);
            }
        },
    };
    let window_strategy = match options.window_strategy {
        WireWindowClickStrategy::Unspecified | WireWindowClickStrategy::ChromiumCompatible => {
            WindowClickStrategy::ChromiumCompatible
        },
        WireWindowClickStrategy::PidTargeted => WindowClickStrategy::PidTargeted,
        WireWindowClickStrategy::Unrecognized(v) => {
            let mut m = owned("unknown WindowClickStrategy value ");
            let n = i32_text(v);
            m.append(n.as_str());
            return Err(m);
        },
    };
    Ok(ClickOptions { policy, click, window_strategy })
}

/// The driver policy of the same name as a wire policy a selected remote
/// command sends.
pub open spec fn wire_policy_name(policy: WireInputPolicy) -> InputPolicy {
    match policy {
        WireInputPolicy::BackgroundOnly => InputPolicy::BackgroundOnly,
        WireInputPolicy::ForegroundPreferred => InputPolicy::ForegroundPreferred,
        _ => InputPolicy::BackgroundPreferred,
    }
}

/// The click interval a selected remote command asks for, in milliseconds:
/// the `--click-interval-ms` input, or the default.
pub open spec fn selected_interval_ms(inputs: Map<Seq<char>, Seq<char>>) -> u64 {
    match lookup(inputs, "click-interval-ms"@) {
        None => DEFAULT_CLICK_INTERVAL_MS,
        Some(raw) => decimal_value(raw) as u64,
    }
}

/// Every click policy a selected remote command sends decodes on the Runner
/// side into the click it describes, with the input policy of the same name
/// and Chromium-compatible window delivery: one click stays single, two
/// become a double click and more a repeated click of that count, each at
/// the requested interval in milliseconds.
pub proof fn lemma_selected_click_round_trip(inputs: Map<Seq<char>, Seq<char>>, command_id: Seq<char>)
    requires
        selected_click_options_result(inputs, command_id) is Ok,
    ensures
        ({
            let wire = selected_click_options_result(inputs, command_id)->Ok_0;
            let count = wire.click->0.count;
            let ms = selected_interval_ms(inputs);
            let interval = duration_from_millis_spec(ms);
            &&& 1 <= count <= 255
            &&& (wire.policy is BackgroundPreferred || wire.policy is BackgroundOnly || wire.policy is ForegroundPreferred)
            &&& match driver_click_options_result(wire) {
                Ok(options) => {
                    &&& options.policy == wire_policy_name(wire.policy)
                    &&& options.window_strategy == WindowClickStrategy::ChromiumCompatible
                    &&& count == 1 ==> options.click == Click::Single
                    &&& count == 2 ==> options.click == Click::Double { interval }
                    &&& count > 2 ==> options.click == Click::Repeated { count: count as u8, interval }
                },
                Err(_) => false,
            }
        }),
{
    let wire = selected_click_options_result(inputs, command_id)->Ok_0;
    let c = wire.click->0;
    let ms = selected_interval_ms(inputs);
    if c.count > 1 {
        let i = c.interval->0;
        assert(i == wire_millis(ms));
        assert(ms / 1000 <= u64::MAX / 1000);
        assert((ms % 1000) * 1_000_000 < 1_000_000_000);
        assert(i.seconds as u64 == ms / 1000);
        assert(i.nanos as u32 == ((ms % 1000) * 1_000_000) as u32);
    }
}

/// The policy of a local window click is the one its `--input-policy`
/// names, in either spelling: background-only, background-preferred (also
/// the default) or foreground-preferred; any other spelling is refused. A
/// named policy with no count or interval given is always accepted, as a
/// single click.
pub proof fn lemma_local_policy_is_the_named_one(inputs: Map<Seq<char>, Seq<char>>, command_id: Seq<char>)
    ensures
        window_click_options_result(inputs, command_id) matches Ok(o) ==> match lookup(inputs, "input-policy"@) {
            None => o.policy == InputPolicy::BackgroundPreferred,
            Some(p) => {
                &&& (p == "background-only"@ || p == "background_only"@) ==> o.policy == InputPolicy::BackgroundOnly
                &&& (p == "background-preferred"@ || p == "background_preferred"@) ==> o.policy
                    == InputPolicy::BackgroundPreferred
                &&& (p == "foreground-preferred"@ || p == "foreground_preferred"@) ==> o.policy
                    == InputPolicy::ForegroundPreferred
                &&& (p == "background-only"@ || p == "background_only"@ || p == "background-preferred"@ || p
                    == "background_preferred"@ || p == "foreground-preferred"@ || p == "foreground_preferred"@)
            },
        },
        (lookup(inputs, "click-count"@) is None && lookup(inputs, "click-interval-ms"@) is None && match lookup(
            inputs,
            "input-policy"@,
        ) {
            None => true,
            Some(p) => p == "background-only"@ || p == "background_only"@ || p == "background-preferred"@ || p
                == "background_preferred"@ || p == "foreground-preferred"@ || p == "foreground_preferred"@,
        }) ==> (window_click_options_result(inputs, command_id) matches Ok(o) && o.click == Click::Single),
{
    reveal_strlit("background-only");
    reveal_strlit("background_only");
    reveal_strlit("background-preferred");
    reveal_strlit("background_preferred");
    reveal_strlit("foreground-preferred");
    reveal_strlit("foreground_preferred");
    assert("background-only"@.len() == 15 && "background_only"@.len() == 15);
    assert("background-preferred"@.len() == 20 && "background_preferred"@.len() == 20);
    assert("foreground-preferred"@.len() == 20 && "foreground_preferred"@.len() == 20);
    assert("background-preferred"@[0] != "foreground-preferred"@[0]);
    assert("background-preferred"@[0] != "foreground_preferred"@[0]);
    assert("background_preferred"@[0] != "foreground-preferred"@[0]);
    assert("background_preferred"@[0] != "foreground_preferred"@[0]);
}

/// A local window click is clicked as often as `--click-count` says (once by
/// default, between 1 and 255 times), repeated clicks `--click-interval-ms`
/// apart (75 ms by default), and always with Chromium-compatible delivery.
pub proof fn lemma_local_click_is_the_counted_one(inputs: Map<Seq<char>, Seq<char>>, command_id: Seq<char>)
    ensures
        window_click_options_result(inputs, command_id) matches Ok(o) ==> ({
            let count: int = match lookup(inputs, "click-count"@) {
                None => 1,
                Some(raw) => decimal_value(raw) as int,
            };
            let ms: u64 = match lookup(inputs, "click-interval-ms"@) {
                None => 75u64,
                Some(raw) => decimal_value(raw) as u64,
            };
            &&& 1 <= count <= 255
            &&& o.window_strategy == WindowClickStrategy::ChromiumCompatible
            &&& count == 1 ==> o.click == Click::Single
            &&& count == 2 ==> o.click == Click::Double { interval: duration_from_millis_spec(ms) }
            &&& count > 2 ==> o.click == Click::Repeated { count: count as u8, interval: duration_from_millis_spec(ms) }
        }),
{
}

} // verus!
