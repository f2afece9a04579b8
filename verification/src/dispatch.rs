//! The update dispatcher's decision logic.
//!
//! One inbound set-request is processed in two verified steps around the
//! one effect the library cannot perform itself (spawning the configured
//! external command):
//!
//! 1. [`resolve_update`] resolves the request against the registry and
//!    either rejects it — unknown target, not settable, unparsable value —
//!    or yields the [`CommandPlan`] naming the command to run.
//! 2. [`complete_update`] turns what the process runner observed into the
//!    final [`UpdateResult`]: an acknowledgment value on success, a typed
//!    failure otherwise.
//!
//! No state is held between dispatches; each request is processed
//! independently against the shared immutable registry.

use vstd::prelude::*;
use crate::registry::Registry;
use crate::schema::Datatype;

verus! {

/// One inbound set-request: the addressing key and the requested value,
/// still unparsed.
pub struct UpdateRequest {
    pub device_id: String,
    pub property_id: String,
    pub raw_value: String,
}

/// A typed per-dispatch failure. Local to one update event, never fatal to
/// the process.
#[derive(Debug, PartialEq)]
pub enum DispatchError {
    /// The request names no declared (device id, property id) pair.
    UnknownTarget,
    /// The property exists but is not settable.
    NotSettable,
    /// The raw value does not parse under the property's datatype.
    InvalidValue,
    /// The command could not be launched, or exited with a nonzero status;
    /// the payload is the cause text.
    ExecutionFailed(String),
    /// The bounded execution timeout elapsed.
    Timeout,
}

/// A parsed property value. One variant per datatype.
#[derive(Clone, Copy, PartialEq, Eq, Structural, Debug)]
pub enum PropertyValue {
    Boolean(bool),
}

/// How a value of the given datatype is parsed from request text: the
/// parse succeeds exactly on the canonical formatted values.
pub open spec fn parse_value_spec(datatype: Datatype, raw: Seq<char>) -> Option<PropertyValue> {
    match datatype {
        Datatype::Boolean => if raw == "true"@ {
            Some(PropertyValue::Boolean(true))
        } else if raw == "false"@ {
            Some(PropertyValue::Boolean(false))
        } else {
            None
        },
    }
}

/// How a parsed value is formatted for acknowledgment.
pub open spec fn format_value_spec(value: PropertyValue) -> Seq<char> {
    match value {
        PropertyValue::Boolean(b) => if b {
            "true"@
        } else {
            "false"@
        },
    }
}

/// Parses request text under a datatype. Returns `None` exactly when the
/// text is not a value of that datatype.
pub fn parse_value(datatype: Datatype, raw: &String) -> (r: Option<PropertyValue>)
    ensures
        r == parse_value_spec(datatype, raw@),
{
    match datatype {
        Datatype::Boolean => {
            let t = String::from_str("true");
            if *raw == t {
                return Some(PropertyValue::Boolean(true));
            }
            let f = String::from_str("false");
            if *raw == f {
                return Some(PropertyValue::Boolean(false));
            }
            None
        },
    }
}

/// Formats a parsed value as acknowledgment text.
pub fn format_value(value: PropertyValue) -> (r: String)
    ensures
        r@ == format_value_spec(value),
{
    match value {
        PropertyValue::Boolean(b) => if b {
            String::from_str("true")
        } else {
            String::from_str("false")
        },
    }
}

/// The validated outcome of resolving one request: the configured command
/// to run verbatim, whether an acknowledgment must be republished as the
/// property's retained value, and the parsed requested value.
pub struct CommandPlan<'a> {
    pub command: &'a Vec<String>,
    pub retained: bool,
    pub value: PropertyValue,
}

/// Resolves one set-request against the registry.
///
/// Rejects the request — and thereby selects no command at all — with
/// `UnknownTarget` when the addressing key is not declared, `NotSettable`
/// when the property refuses writes, and `InvalidValue` when the raw value
/// does not parse under the property's datatype. Otherwise it yields the
/// plan for exactly the configured command, invoked verbatim: the parsed
/// value is never substituted into the argument list.
pub fn resolve_update<'a>(req: &UpdateRequest, reg: &'a Registry) -> (r: Result<
    CommandPlan<'a>,
    DispatchError,
>)
    requires
        reg.wf(),
    ensures
        (r matches Err(e) && e is UnknownTarget) <==> !reg.has_property(
            req.device_id@,
            req.property_id@,
        ),
        (r matches Err(e) && e is NotSettable) <==> (reg.has_property(
            req.device_id@,
            req.property_id@,
        ) && !reg.property_at(req.device_id@, req.property_id@).settable),
        (r matches Err(e) && e is InvalidValue) <==> (reg.has_property(
            req.device_id@,
            req.property_id@,
        ) && reg.property_at(req.device_id@, req.property_id@).settable && parse_value_spec(
            reg.property_at(req.device_id@, req.property_id@).datatype,
            req.raw_value@,
        ) is None),
        r is Ok <==> (reg.has_property(req.device_id@, req.property_id@) && reg.property_at(
            req.device_id@,
            req.property_id@,
        ).settable && parse_value_spec(
            reg.property_at(req.device_id@, req.property_id@).datatype,
            req.raw_value@,
        ) is Some),
        r matches Ok(plan) ==> *plan.command == reg.property_at(
            req.device_id@,
            req.property_id@,
        ).run_command && plan.retained == reg.property_at(
            req.device_id@,
            req.property_id@,
        ).retained && Some(plan.value) == parse_value_spec(
            reg.property_at(req.device_id@, req.property_id@).datatype,
            req.raw_value@,
        ),
{
    match reg.lookup(&req.device_id, &req.property_id) {
        None => Err(DispatchError::UnknownTarget),
        Some(p) => {
            if !p.settable {
                Err(DispatchError::NotSettable)
            } else {
                match parse_value(p.datatype, &req.raw_value) {
                    None => Err(DispatchError::InvalidValue),
                    Some(value) => Ok(
                        CommandPlan { command: &p.run_command, retained: p.retained, value },
                    ),
                }
            }
        },
    }
}

/// What the process runner observed of one command execution.
pub enum ExecOutcome {
    /// The process ran to completion; `success` is whether it exited with
    /// status zero.
    Completed { success: bool },
    /// The process could not be launched (executable missing, permission
    /// denied); the payload is the cause text.
    LaunchFailed(String),
    /// The bounded execution timeout elapsed and the process was
    /// terminated.
    TimedOut,
}

/// One dispatch's final outcome: an acknowledgment value to report, or a
/// typed failure.
#[derive(Debug, PartialEq)]
pub enum UpdateResult {
    /// The acknowledgment value: the requested value in canonical form,
    /// to be republished as the property's retained value when the
    /// property is retained.
    Ack(String),
    Failed(DispatchError),
}

/// The cause text reported when the command exits with a nonzero status.
pub open spec fn exit_failure_msg() -> Seq<char> {
    "command exited with nonzero status"@
}

/// Turns one observed command execution into the dispatch's final outcome.
///
/// A process that ran and exited with status zero acknowledges the
/// request with the requested value in canonical form. A nonzero exit, a
/// failed launch, and a timeout each become the corresponding typed
/// failure; no acknowledgment is produced and the property's retained
/// value is left unchanged.
pub fn complete_update(value: PropertyValue, outcome: ExecOutcome) -> (r: UpdateResult)
    ensures
        (outcome matches ExecOutcome::Completed { success: true }) <==> (r matches
            UpdateResult::Ack(a) && a@ == format_value_spec(value)),
        (outcome matches ExecOutcome::Completed { success: false }) ==> (r matches
            UpdateResult::Failed(e) && e matches DispatchError::ExecutionFailed(c) && c@
            == exit_failure_msg()),
        outcome matches ExecOutcome::LaunchFailed(cause) ==> (r matches UpdateResult::Failed(e)
            && e matches DispatchError::ExecutionFailed(c) && c == cause),
        (outcome is TimedOut) <==> (r matches UpdateResult::Failed(e) && e is Timeout),
{
    match outcome {
        ExecOutcome::Completed { success } => {
            if success {
                UpdateResult::Ack(format_value(value))
            } else {
                UpdateResult::Failed(
                    DispatchError::ExecutionFailed(
                        String::from_str("command exited with nonzero status"),
                    ),
                )
            }
        },
        ExecOutcome::LaunchFailed(cause) => UpdateResult::Failed(
            DispatchError::ExecutionFailed(cause),
        ),
        ExecOutcome::TimedOut => UpdateResult::Failed(DispatchError::Timeout),
    }
}

} // verus!
