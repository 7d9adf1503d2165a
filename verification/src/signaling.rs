//! The WebRTC signaling protocol: the offer that names the client's realtime
//! session, and what the signaling connection does with each later event.
use vstd::prelude::*;

use crate::json::{json_accepts, json_string_at, parses_as_json, string_at};
use crate::realtime::text_result;
use crate::sessions::SessionTable;
use crate::text::opt_view;

verus! {

/// Why a signaling offer is refused before any WebRTC work.
#[derive(Debug, Clone, Copy, PartialEq, Eq)]
pub enum SignalingError {
    /// The offer is not a JSON document.
    InvalidJson,
    /// It has no string `client_id`.
    MissingClientId,
    /// No realtime session is logged in under its `client_id`.
    NoSession,
}

/// The client an offer names, from whether its text is JSON and the string at
/// `/client_id`.
pub open spec fn offer_outcome(valid: bool, client_id: Option<Seq<char>>) -> Result<
    Seq<char>,
    SignalingError,
> {
    if !valid {
        Err(SignalingError::InvalidJson)
    } else {
        match client_id {
            Some(id) => Ok(id),
            None => Err(SignalingError::MissingClientId),
        }
    }
}

/// A JSON offer names exactly the string at its `client_id`, unchanged.
pub proof fn law_offer_names_its_client(text: Seq<char>, client_id: Seq<char>)
    requires
        json_accepts(text),
        json_string_at(text, "/client_id"@) == Some(client_id),
    ensures
        offer_outcome(json_accepts(text), json_string_at(text, "/client_id"@)) == Ok::<
            Seq<char>,
            SignalingError,
        >(client_id),
{
}

/// Decides the client of an offer from what serde_json found in it.
pub fn decide_offer_client(valid: bool, client_id: Option<String>) -> (r: Result<
    String,
    SignalingError,
>)
    ensures
        text_result(r) == offer_outcome(valid, opt_view(client_id)),
{
    if !valid {
        return Err(SignalingError::InvalidJson);
    }
    match client_id {
        Some(id) => Ok(id),
        None => Err(SignalingError::MissingClientId),
    }
}

/// The client id that a signaling offer carries.
pub fn offer_client_id(text: &str) -> (r: Result<String, SignalingError>)
    ensures
        text_result(r) == offer_outcome(json_accepts(text@), json_string_at(text@, "/client_id"@)),
{
    if !parses_as_json(text) {
        return Err(SignalingError::InvalidJson);
    }
    decide_offer_client(true, string_at(text, "/client_id"))
}

/// The logged-in realtime session that a signaling offer belongs to.
pub fn offer_session<'a, S>(sessions: &'a SessionTable<S>, text: &str) -> (r: Result<
    &'a S,
    SignalingError,
>)
    ensures
        match offer_outcome(json_accepts(text@), json_string_at(text@, "/client_id"@)) {
            Err(e) => r == Err::<&S, SignalingError>(e),
            Ok(id) => if sessions.view().contains_key(id) {
                r matches Ok(s) && *s == sessions.view()[id].1
            } else {
                r == Err::<&S, SignalingError>(SignalingError::NoSession)
            },
        },
{
    let id = offer_client_id(text)?;
    match sessions.get(id.as_str()) {
        Some(s) => Ok(s),
        None => Err(SignalingError::NoSession),
    }
}

/// What happens on a signaling connection once the answer is sent.
#[derive(Debug, Clone, Copy, PartialEq, Eq)]
pub enum SignalingEvent {
    /// The client sent a close frame.
    Close,
    /// The client sent a ping.
    Ping,
    /// The client sent another kind of frame.
    Other,
    /// The client's stream ended.
    End,
    /// Reading from the client failed.
    Failed,
}

/// What the signaling connection does about an event.
#[derive(Debug, Clone, Copy, PartialEq, Eq)]
pub enum SignalingAction {
    /// Stop reading and close the peer connection.
    Stop,
    /// Answer the ping with a pong carrying its payload.
    Pong,
    /// Wait for the next event.
    Continue,
    /// End the connection with an error.
    Fail,
}

/// The signaling connection's decision on one event.
pub fn signaling_step(event: SignalingEvent) -> (r: SignalingAction)
    ensures
        r == match event {
            SignalingEvent::Close => SignalingAction::Stop,
            SignalingEvent::Ping => SignalingAction::Pong,
            SignalingEvent::Other => SignalingAction::Continue,
            SignalingEvent::End => SignalingAction::Stop,
            SignalingEvent::Failed => SignalingAction::Fail,
        },
{
    match event {
        SignalingEvent::Close => SignalingAction::Stop,
        SignalingEvent::Ping => SignalingAction::Pong,
        SignalingEvent::Other => SignalingAction::Continue,
        SignalingEvent::End => SignalingAction::Stop,
        SignalingEvent::Failed => SignalingAction::Fail,
    }
}

} // verus!
