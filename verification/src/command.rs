//! The wire unit: a (name, value) command, its form-urlencoded body,
//! and the classification of a transport response.

use vstd::prelude::*;

verus! {

/// One command as sent to the robot controller: an action name and a
/// value such as `pressed`, `released` or a decimal string.
#[derive(Clone, Debug)]
pub struct Command {
    pub name: String,
    pub value: String,
}

/// Mathematical model of a command: both fields as character strings.
pub struct CommandModel {
    pub name: Seq<char>,
    pub value: Seq<char>,
}

impl View for Command {
    type V = CommandModel;

    open spec fn view(&self) -> CommandModel {
        CommandModel { name: self.name@, value: self.value@ }
    }
}

/// The models of a batch of commands, in order.
pub open spec fn models_of(cs: Seq<Command>) -> Seq<CommandModel> {
    cs.map_values(|c: Command| c@)
}

impl Command {
    /// Build a command from borrowed name and value text.
    pub fn new(name: &str, value: &str) -> (c: Command)
        ensures
            c@.name == name@,
            c@.value == value@,
    {
        Command { name: String::from_str(name), value: String::from_str(value) }
    }
}

/// Body text of the single request that carries a command:
/// two form-urlencoded fields, the action name and the value.
pub open spec fn body_spec(name: Seq<char>, value: Seq<char>) -> Seq<char> {
    "cmd="@ + name + "&status="@ + value
}

/// Encode a command as the form-urlencoded request body.
pub fn encode_body(c: &Command) -> (r: String)
    ensures
        r@ == body_spec(c@.name, c@.value),
{
    let mut s = String::from_str("cmd=");
    s.append(c.name.as_str());
    s.append("&status=");
    s.append(c.value.as_str());
    s
}

/// The canonical success status of the transport.
pub const OK_STATUS: u16 = 200;

/// What became of one dispatched command. A failure is terminal for
/// that command alone: it is logged by the caller, never retried, and
/// never surfaced past the dispatch boundary.
#[derive(Clone, Copy, PartialEq, Eq, Structural, Debug)]
pub enum DispatchOutcome {
    /// The transport answered with the canonical success status.
    Delivered,
    /// The transport answered, but with some other status.
    Rejected(u16),
    /// The transport failed outright: unreachable, timed out, or the
    /// response was malformed.
    TransportFailed,
}

/// Classify a transport response: `None` stands for a transport-level
/// failure, `Some(status)` for an answer with that status code.
pub fn assess_response(status: Option<u16>) -> (o: DispatchOutcome)
    ensures
        status matches Some(s) ==> o == (if s == OK_STATUS {
            DispatchOutcome::Delivered
        } else {
            DispatchOutcome::Rejected(s)
        }),
        status is None ==> o == DispatchOutcome::TransportFailed,
        o == DispatchOutcome::Delivered <==> status == Some(OK_STATUS),
{
    match status {
        Some(s) => {
            if s == OK_STATUS {
                DispatchOutcome::Delivered
            } else {
                DispatchOutcome::Rejected(s)
            }
        },
        None => DispatchOutcome::TransportFailed,
    }
}

} // verus!
