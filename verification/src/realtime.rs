//! The realtime WebSocket protocol: the login that must open a connection,
//! what the connection does with each event, and the commands a client sends.
use vstd::prelude::*;

use crate::json::{json_accepts, json_string_at, parses_as_json, string_at};
use crate::text::{holds_text, opt_view};

verus! {

/// Why a login message is refused.
#[derive(Debug, Clone, Copy, PartialEq, Eq)]
pub enum LoginError {
    /// The message is not a JSON document.
    InvalidJson,
    /// Its `msg_type` is not the string `"login"`.
    NotLogin,
    /// It has no non-empty string `client_id`.
    MissingClientId,
}

/// The outcome of a login, from whether its text is JSON and the strings at
/// `/msg_type` and `/client_id`: the client id, or why the login is refused.
pub open spec fn login_outcome(
    valid: bool,
    msg_type: Option<Seq<char>>,
    client_id: Option<Seq<char>>,
) -> Result<Seq<char>, LoginError> {
    if !valid {
        Err(LoginError::InvalidJson)
    } else if msg_type != Some("login"@) {
        Err(LoginError::NotLogin)
    } else {
        match client_id {
            Some(id) => if id.len() > 0 {
                Ok(id)
            } else {
                Err(LoginError::MissingClientId)
            },
            None => Err(LoginError::MissingClientId),
        }
    }
}

/// A login is accepted only as valid JSON whose `msg_type` is `"login"`, and
/// the client id it gives is its non-empty `client_id`.
pub proof fn law_accepted_login(
    valid: bool,
    msg_type: Option<Seq<char>>,
    client_id: Option<Seq<char>>,
)
    ensures
        login_outcome(valid, msg_type, client_id) matches Ok(id) ==> {
            &&& valid
            &&& msg_type == Some("login"@)
            &&& client_id == Some(id)
            &&& id.len() > 0
        },
{
}

/// Every JSON login whose `msg_type` is `"login"` and whose `client_id` is a
/// non-empty string is accepted, with that very id.
pub proof fn law_login_accepts_every_named_client(
    valid: bool,
    msg_type: Option<Seq<char>>,
    client_id: Option<Seq<char>>,
    id: Seq<char>,
)
    requires
        valid,
        msg_type == Some("login"@),
        client_id == Some(id),
        id.len() > 0,
    ensures
        login_outcome(valid, msg_type, client_id) == Ok::<Seq<char>, LoginError>(id),
{
}

/// The view of a result that carries a string.
pub open spec fn text_result<E>(r: Result<String, E>) -> Result<Seq<char>, E> {
    match r {
        Ok(s) => Ok(s@),
        Err(e) => Err(e),
    }
}

/// Decides a login from what serde_json found in it.
pub fn decide_login(valid: bool, msg_type: Option<String>, client_id: Option<String>) -> (r: Result<
    String,
    LoginError,
>)
    ensures
        text_result(r) == login_outcome(valid, opt_view(msg_type), opt_view(client_id)),
{
    if !valid {
        return Err(LoginError::InvalidJson);
    }
    if !holds_text(&msg_type, "login") {
        return Err(LoginError::NotLogin);
    }
    match client_id {
        Some(id) => if id.as_str().is_empty() {
            Err(LoginError::MissingClientId)
        } else {
            Ok(id)
        },
        None => Err(LoginError::MissingClientId),
    }
}

/// Reads the first message of a realtime connection, which must be
/// `{"msg_type": "login", "client_id": <non-empty string>}`, and gives the
/// client id.
pub fn parse_login(text: &str) -> (r: Result<String, LoginError>)
    ensures
        text_result(r) == login_outcome(
            json_accepts(text@),
            json_string_at(text@, "/msg_type"@),
            json_string_at(text@, "/client_id"@),
        ),
{
    if !parses_as_json(text) {
        return Err(LoginError::InvalidJson);
    }
    let msg_type = string_at(text, "/msg_type");
    let client_id = string_at(text, "/client_id");
    decide_login(true, msg_type, client_id)
}

/// What happens on a logged-in realtime connection.
pub enum RealtimeEvent {
    /// A message for the client was queued.
    OutboundMessage,
    /// Every sender of messages for the client is gone.
    OutboundClosed,
    /// The client sent a text message.
    InboundText(String),
    /// The client sent a ping.
    InboundPing,
    /// The client sent a close frame.
    InboundClose,
    /// The client's stream ended.
    InboundEnd,
    /// The client sent another kind of frame.
    InboundOther,
    /// Reading from the client failed.
    InboundFailed,
}

/// What the connection does about an event.
pub enum RealtimeAction {
    /// Send the queued message to the client.
    Forward,
    /// Hand the client's JSON message to the message handler.
    Dispatch(String),
    /// Drop a client message that is not JSON.
    IgnoreInvalid(String),
    /// Answer a ping with a pong carrying its payload.
    Pong,
    /// Nothing to do; wait for the next event.
    Continue,
    /// End the connection normally.
    Finish,
    /// End the connection with an error.
    Fail,
}

/// The connection's decision on one event.
pub fn realtime_step(event: RealtimeEvent) -> (r: RealtimeAction)
    ensures
        match event {
            RealtimeEvent::OutboundMessage => r is Forward,
            RealtimeEvent::OutboundClosed => r is Finish,
            RealtimeEvent::InboundText(t) => if json_accepts(t@) {
                r matches RealtimeAction::Dispatch(m) && m@ == t@
            } else {
                r matches RealtimeAction::IgnoreInvalid(m) && m@ == t@
            },
            RealtimeEvent::InboundPing => r is Pong,
            RealtimeEvent::InboundClose => r is Finish,
            RealtimeEvent::InboundEnd => r is Finish,
            RealtimeEvent::InboundOther => r is Continue,
            RealtimeEvent::InboundFailed => r is Fail,
        },
{
    match event {
        RealtimeEvent::OutboundMessage => RealtimeAction::Forward,
        RealtimeEvent::OutboundClosed => RealtimeAction::Finish,
        RealtimeEvent::InboundText(t) => if parses_as_json(t.as_str()) {
            RealtimeAction::Dispatch(t)
        } else {
            RealtimeAction::IgnoreInvalid(t)
        },
        RealtimeEvent::InboundPing => RealtimeAction::Pong,
        RealtimeEvent::InboundClose => RealtimeAction::Finish,
        RealtimeEvent::InboundEnd => RealtimeAction::Finish,
        RealtimeEvent::InboundOther => RealtimeAction::Continue,
        RealtimeEvent::InboundFailed => RealtimeAction::Fail,
    }
}

/// What a client's realtime message asks for.
#[derive(Debug, Clone, PartialEq, Eq)]
pub enum ClientCommand {
    /// `msg_type` is `"next_customer"`: the agent greets the next customer.
    NextCustomer,
    /// `msg_type` is another string, which is kept.
    Unknown(String),
    /// The message has no string `msg_type`.
    Untyped,
}

/// The command for a `msg_type` field.
pub fn command_for(msg_type: Option<String>) -> (r: ClientCommand)
    ensures
        match opt_view(msg_type) {
            Some(t) => if t == "next_customer"@ {
                r is NextCustomer
            } else {
                r matches ClientCommand::Unknown(u) && u@ == t
            },
            None => r is Untyped,
        },
{
    if holds_text(&msg_type, "next_customer") {
        return ClientCommand::NextCustomer;
    }
    match msg_type {
        Some(t) => ClientCommand::Unknown(t),
        None => ClientCommand::Untyped,
    }
}

/// The command in a client's realtime message, read from its `msg_type`.
pub fn client_command(text: &str) -> (r: ClientCommand)
    ensures
        match json_string_at(text@, "/msg_type"@) {
            Some(t) => if t == "next_customer"@ {
                r is NextCustomer
            } else {
                r matches ClientCommand::Unknown(u) && u@ == t
            },
            None => r is Untyped,
        },
{
    command_for(string_at(text, "/msg_type"))
}

} // verus!
