//! One typed invocation as the command adapters see it, the report fields
//! they produce, and the decoding of their optional textual inputs.

use std::time::Duration;
use vstd::prelude::*;
use crate::inputs::{InvokeInputs, lookup};
use crate::overlay::{
    duration_from_millis, duration_from_millis_spec, Easing, LifecycleOptions, MotionOptions, Removal,
    ShowOptions,
};
use crate::parse::{
    bool_parse_error_text, debug_quoted, debug_text, decimal_text, decimal_value, is_unsigned_decimal,
    parse_bool, parse_u64, u64_parse_error_text, u64_text,
};
use crate::text::{is_blank, is_blank_text, owned, viewed};

verus! {

/// One invocation of a registered command.
pub struct InvokeCommandInput {
    pub command_id: String,
    pub target_application_id: Option<String>,
    pub inputs: InvokeInputs,
    pub dry_run: bool,
}

/// One labelled line of a human-readable command report.
#[derive(Clone, Debug, PartialEq, Eq)]
pub struct InvokeReportField {
    pub label: String,
    pub value: String,
}

impl InvokeReportField {
    pub fn new(label: &str, value: String) -> (field: Self)
        ensures
            field.label@ == label@,
            field.value@ == value@,
    {
        InvokeReportField { label: owned(label), value }
    }
}

/// A human-readable command report.
#[derive(Clone, Debug, PartialEq, Eq)]
pub struct InvokeReport {
    pub fields: Vec<InvokeReportField>,
}

/// Whether a field carries exactly this label and value.
pub open spec fn field_is(field: InvokeReportField, label: Seq<char>, value: Seq<char>) -> bool {
    field.label@ == label && field.value@ == value
}

/// How a command's visual evidence was presented.
#[derive(Clone, Debug, PartialEq, Eq)]
pub enum OverlayStatus {
    Disabled,
    Shown { layers: usize },
    Unavailable { reason: String },
}

impl OverlayStatus {
    /// The report text of a presentation outcome.
    pub open spec fn report_text(self) -> Seq<char> {
        match self {
            OverlayStatus::Disabled => "disabled"@,
            OverlayStatus::Shown { layers } => "shown ("@ + decimal_text(layers as nat) + " layers)"@,
            OverlayStatus::Unavailable { reason } => "unavailable: "@ + reason@,
        }
    }

    pub fn report_field(&self) -> (field: InvokeReportField)
        ensures
            field_is(field, "Overlay"@, self.report_text()),
    {
        match self {
            OverlayStatus::Disabled => InvokeReportField::new("Overlay", owned("disabled")),
            OverlayStatus::Shown { layers } => {
                let mut value = owned("shown (");
                let count = u64_text(*layers as u64);
                value.append(count.as_str());
                value.append(" layers)");
                InvokeReportField::new("Overlay", value)
            },
            OverlayStatus::Unavailable { reason } => {
                let mut value = owned("unavailable: ");
                value.append(reason.as_str());
                InvokeReportField::new("Overlay", value)
            },
        }
    }
}

/// Foreground input commands act on the active control and refuse an
/// explicit target application.
pub fn reject_target_activation(input: &InvokeCommandInput, command_id: &str) -> (r: Result<(), String>)
    ensures
        r is Err <==> input.target_application_id is Some,
        r matches Err(e) ==> e@ == command_id@ + " cannot use --target until typed input target activation is available"@,
{
    if input.target_application_id.is_some() {
        let mut message = owned(command_id);
        message.append(" cannot use --target until typed input target activation is available");
        return Err(message);
    }
    Ok(())
}

/// The report of a command whose inputs were validated but not delivered.
pub fn validation_only_output() -> (report: InvokeReport)
    ensures
        report.fields@.len() == 2,
        field_is(report.fields@[0], "Delivery"@, "not_performed"@),
        field_is(report.fields@[1], "Verification"@, "validation_only"@),
{
    let mut fields = Vec::new();
    fields.push(InvokeReportField::new("Delivery", owned("not_performed")));
    fields.push(InvokeReportField::new("Verification", owned("validation_only")));
    InvokeReport { fields }
}

/// The error text of an input value that did not decode.
pub open spec fn invalid_value_text(command_id: Seq<char>, name: Seq<char>, raw: Seq<char>, error: Seq<char>) -> Seq<char> {
    command_id + " received invalid --"@ + name + " value "@ + debug_text(raw) + ": "@ + error
}

fn invalid_value_message(command_id: &str, name: &str, raw: &str, error: &str) -> (m: String)
    ensures
        m@ == invalid_value_text(command_id@, name@, raw@, error@),
{
    let mut m = owned(command_id);
    m.append(" received invalid --");
    m.append(name);
    m.append(" value ");
    let quoted = debug_quoted(raw);
    m.append(quoted.as_str());
    m.append(": ");
    m.append(error);
    m
}

/// An optional unsigned input: its default when absent, its decimal value
/// when it is a `u64` literal, an error naming the input otherwise.
pub open spec fn optional_u64_result(inputs: Map<Seq<char>, Seq<char>>, command_id: Seq<char>, name: Seq<char>, default: u64) -> Result<u64, Seq<char>> {
    match lookup(inputs, name) {
        None => Ok(default),
        Some(raw) => if is_unsigned_decimal(raw) && decimal_value(raw) <= u64::MAX {
            Ok(decimal_value(raw) as u64)
        } else {
            Err(invalid_value_text(command_id, name, raw, u64_parse_error_text(raw)))
        },
    }
}

/// An optional boolean input: its default when absent, `true` or `false`
/// when spelled so, an error naming the input otherwise.
pub open spec fn optional_bool_result(inputs: Map<Seq<char>, Seq<char>>, command_id: Seq<char>, name: Seq<char>, default: bool) -> Result<bool, Seq<char>> {
    match lookup(inputs, name) {
        None => Ok(default),
        Some(raw) => if raw == "true"@ {
            Ok(true)
        } else if raw == "false"@ {
            Ok(false)
        } else {
            Err(invalid_value_text(command_id, name, raw, bool_parse_error_text(raw)))
        },
    }
}

pub fn optional_u64(input: &InvokeCommandInput, name: &str, default: u64) -> (r: Result<u64, String>)
    ensures
        viewed(r) == optional_u64_result(input.inputs@, input.command_id@, name@, default),
{
    match input.inputs.get(name) {
        None => Ok(default),
        Some(raw) => match parse_u64(raw.as_str()) {
            Ok(value) => Ok(value),
            Err(error) => Err(invalid_value_message(input.command_id.as_str(), name, raw.as_str(), error.as_str())),
        },
    }
}

pub fn optional_bool(input: &InvokeCommandInput, name: &str, default: bool) -> (r: Result<bool, String>)
    ensures
        viewed(r) == optional_bool_result(input.inputs@, input.command_id@, name@, default),
{
    match input.inputs.get(name) {
        None => Ok(default),
        Some(raw) => match parse_bool(raw.as_str()) {
            Ok(value) => {
                proof {
                    reveal_strlit("true");
                    reveal_strlit("false");
                }
                Ok(value)
            },
            Err(error) => {
                proof {
                    reveal_strlit("true");
                    reveal_strlit("false");
                }
                Err(invalid_value_message(input.command_id.as_str(), name, raw.as_str(), error.as_str()))
            },
        },
    }
}

/// Milliseconds an overlay command animates when the caller names none.
pub const DEFAULT_COMMAND_MOTION_MS: u64 = 320;

/// Milliseconds an overlay command holds its layers when the caller names none.
pub const DEFAULT_COMMAND_HOLD_MS: u64 = 2000;

/// The show policy an overlay command uses: its `motion-duration-ms` and
/// `hold-duration-ms` inputs, with an exponential ease.
pub fn show_options(input: &InvokeCommandInput) -> (r: Result<ShowOptions, String>)
    ensures
        match optional_u64_result(input.inputs@, input.command_id@, "motion-duration-ms"@, DEFAULT_COMMAND_MOTION_MS) {
            Err(e) => r matches Err(m) && m@ == e,
            Ok(motion) => match optional_u64_result(input.inputs@, input.command_id@, "hold-duration-ms"@, DEFAULT_COMMAND_HOLD_MS) {
                Err(e) => r matches Err(m) && m@ == e,
                Ok(hold) => r == Ok::<ShowOptions, String>(ShowOptions::from_parts(
                    MotionOptions::from_parts(duration_from_millis_spec(motion), Easing::EaseInOutExpo),
                    LifecycleOptions::with_removal_spec(Removal::AutoAfter(duration_from_millis_spec(hold))),
                )),
            },
        },
{
    let motion = match optional_u64(input, "motion-duration-ms", DEFAULT_COMMAND_MOTION_MS) {
        Ok(v) => v,
        Err(e) => return Err(e),
    };
    let hold = match optional_u64(input, "hold-duration-ms", DEFAULT_COMMAND_HOLD_MS) {
        Ok(v) => v,
        Err(e) => return Err(e),
    };
    let motion_duration = duration_from_millis(motion);
    let eased = ShowOptions::new().with_motion_ease(motion_duration, Easing::EaseInOutExpo);
    proof {
        broadcast use crate::overlay::group_read_back;
    }
    Ok(eased.with_auto_removal_after(duration_from_millis(hold)))
}

/// How long a show policy holds its layers before removal; a manual
/// policy reports no hold.
pub fn auto_removal_delay(options: ShowOptions) -> (d: Duration)
    ensures
        match options.lifecycle_spec().removal_spec() {
            Removal::AutoAfter(duration) => d == duration,
            Removal::Manual => d == duration_from_millis_spec(0),
        },
{
    match options.lifecycle().removal() {
        Removal::AutoAfter(duration) => duration,
        Removal::Manual => duration_from_millis(0),
    }
}

/// What an accessibility focus delivered: the application, the query it
/// searched for, the element path and role it resolved, and the delivery
/// path it took.
#[derive(Clone, Debug, PartialEq, Eq)]
pub struct AxFocusSummary {
    pub app: String,
    pub query: String,
    pub path: String,
    pub role: String,
    pub selected_path: String,
}

pub open spec fn report_lines(fields: Seq<InvokeReportField>) -> Seq<(Seq<char>, Seq<char>)> {
    fields.map_values(|f: InvokeReportField| (f.label@, f.value@))
}

/// The report of a text focus: the explicit candidate path when one was
/// given (not blank), else the query; the verification is delivery only.
pub open spec fn focus_text_lines(result: AxFocusSummary, candidate: Seq<char>) -> Seq<(Seq<char>, Seq<char>)> {
    seq![("Delivery"@, "delivered"@), ("Target"@, result.app@)] + (if is_blank(candidate) {
        seq![("Query"@, result.query@)]
    } else {
        seq![("Candidate"@, candidate)]
    }) + seq![
        ("Resolved AX path"@, result.path@),
        ("Role"@, result.role@),
        ("Focus method"@, result.selected_path@),
        ("Verification"@, "delivery_only; focused element was not read back after AX delivery"@),
    ]
}

pub fn focus_text_report(result: &AxFocusSummary, candidate: &str) -> (report: InvokeReport)
    ensures
        report_lines(report.fields@) == focus_text_lines(*result, candidate@),
{
    let mut fields: Vec<InvokeReportField> = Vec::new();
    fields.push(InvokeReportField::new("Delivery", owned("delivered")));
    fields.push(InvokeReportField::new("Target", result.app.clone()));
    if is_blank_text(candidate) {
        fields.push(InvokeReportField::new("Query", result.query.clone()));
    } else {
        fields.push(InvokeReportField::new("Candidate", owned(candidate)));
    }
    fields.push(InvokeReportField::new("Resolved AX path", result.path.clone()));
    fields.push(InvokeReportField::new("Role", result.role.clone()));
    fields.push(InvokeReportField::new("Focus method", result.selected_path.clone()));
    fields.push(InvokeReportField::new(
        "Verification",
        owned("delivery_only; focused element was not read back after AX delivery"),
    ));
    assert(report_lines(fields@) =~= focus_text_lines(*result, candidate@));
    InvokeReport { fields }
}

} // verus!
