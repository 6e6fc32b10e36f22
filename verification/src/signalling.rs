//! The signalling server's handling of client events: chat requests between
//! friends and the relaying of WebRTC offers, answers and ICE candidates.
use vstd::prelude::*;
use vstd::string::*;
use crate::connection_manager::{ConnectionManager, spec_is_online};
use crate::errors::{AppError, ConnectionError, app_error_to_ws_error, ws_error_code, ws_error_message};
use crate::models::{ClientEvent, Id, ServerEvent};

verus! {

/// What the server does with one event from a client.
#[derive(Clone, Debug, PartialEq, Eq)]
pub enum ClientEventPlan {
    /// Check and deliver a chat request to `receiver`; a refusal goes back to
    /// the sender as an error event.
    CreateChatRequest { receiver: Id },
    /// Deliver `event` to every connection of `to`.
    Forward { to: Id, event: ServerEvent },
}

/// The plan for `event` sent by `user_id`: every relayed event carries the
/// sender as its origin.
pub open spec fn spec_plan_client_event(user_id: Id, event: ClientEvent) -> ClientEventPlan {
    match event {
        ClientEvent::ChatRequestSend { to } => ClientEventPlan::CreateChatRequest { receiver: to },
        ClientEvent::ChatRequestAccept { from } => ClientEventPlan::Forward {
            to: from,
            event: ServerEvent::ChatRequestAccepted { from: user_id },
        },
        ClientEvent::WebRtcOffer { to, sdp } => ClientEventPlan::Forward {
            to,
            event: ServerEvent::WebRtcOffer { from: user_id, sdp },
        },
        ClientEvent::WebRtcAnswer { to, sdp } => ClientEventPlan::Forward {
            to,
            event: ServerEvent::WebRtcAnswer { from: user_id, sdp },
        },
        ClientEvent::IceCandidate { to, candidate } => ClientEventPlan::Forward {
            to,
            event: ServerEvent::IceCandidate { from: user_id, candidate },
        },
    }
}

/// Decides what the server does with `event` sent by `user_id`.
pub fn handle_client_event(user_id: Id, event: ClientEvent) -> (plan: ClientEventPlan)
    ensures
        plan == spec_plan_client_event(user_id, event),
{
    match event {
        ClientEvent::ChatRequestSend { to } => ClientEventPlan::CreateChatRequest { receiver: to },
        ClientEvent::ChatRequestAccept { from } => ClientEventPlan::Forward {
            to: from,
            event: ServerEvent::ChatRequestAccepted { from: user_id },
        },
        ClientEvent::WebRtcOffer { to, sdp } => ClientEventPlan::Forward {
            to,
            event: ServerEvent::WebRtcOffer { from: user_id, sdp },
        },
        ClientEvent::WebRtcAnswer { to, sdp } => ClientEventPlan::Forward {
            to,
            event: ServerEvent::WebRtcAnswer { from: user_id, sdp },
        },
        ClientEvent::IceCandidate { to, candidate } => ClientEventPlan::Forward {
            to,
            event: ServerEvent::IceCandidate { from: user_id, candidate },
        },
    }
}

/// Why a chat request is refused before the friendship lookup.
pub open spec fn spec_chat_request_refusal(user_id: Id, receiver_id: Id, receiver_online: bool) -> Option<Seq<char>> {
    if user_id == receiver_id {
        Some("Cannot send chat request to same user!"@)
    } else if !receiver_online {
        Some("Could not send chat request as user is offline!"@)
    } else {
        None
    }
}

/// The first checks of a chat request: not to oneself, and only to an online
/// user. A refusal is a `BadRequest` with the reason.
pub fn check_chat_request(
    user_id: Id,
    receiver_id: Id,
    connections: &ConnectionManager,
) -> (checked: Result<(), AppError>)
    ensures
        ({
            let refusal = spec_chat_request_refusal(
                user_id,
                receiver_id,
                spec_is_online(connections@, receiver_id),
            );
            &&& checked is Ok <==> refusal is None
            &&& checked matches Err(e) ==> (e matches AppError::BadRequest(msg) && Some(msg@)
                == refusal)
        }),
{
    if user_id == receiver_id {
        return Err(AppError::BadRequest(String::from_str("Cannot send chat request to same user!")));
    }
    if !connections.is_online(receiver_id) {
        return Err(
            AppError::BadRequest(String::from_str("Could not send chat request as user is offline!")),
        );
    }
    Ok(())
}

/// The incoming chat request for the receiver, once the sender's username
/// was looked up among the receiver's friends; `None` (not friends) is
/// `Forbidden`.
pub fn chat_request_event(user_id: Id, friend_username: Option<String>) -> (event: Result<
    ServerEvent,
    AppError,
>)
    ensures
        friend_username is None ==> event == Err::<ServerEvent, AppError>(AppError::Forbidden),
        friend_username matches Some(name) ==> event == Ok::<ServerEvent, AppError>(
            ServerEvent::ChatRequestIncoming { from: user_id, username: name },
        ),
{
    match friend_username {
        Some(username) => Ok(ServerEvent::ChatRequestIncoming { from: user_id, username }),
        None => Err(AppError::Forbidden),
    }
}

/// A chat request that could not be delivered is an internal error.
pub fn chat_request_delivered(sent: Result<(), ConnectionError>) -> (outcome: Result<(), AppError>)
    ensures
        sent is Ok ==> outcome is Ok,
        sent is Err ==> outcome == Err::<(), AppError>(AppError::Internal),
{
    match sent {
        Ok(()) => Ok(()),
        Err(_) => Err(AppError::Internal),
    }
}

/// One event for every connection of one user.
#[derive(Clone, Debug, PartialEq, Eq)]
pub struct Delivery {
    pub to: Id,
    pub event: ServerEvent,
}

/// The answer to a chat request of `user_id` that failed with `error`: the
/// error event goes back to the sender alone; the addressed user gets
/// nothing.
pub fn chat_request_refusal(user_id: Id, error: AppError) -> (reply: Delivery)
    ensures
        reply.to == user_id,
        reply.event matches ServerEvent::Error { code, message } && code == ws_error_code(error)
            && message@ == ws_error_message(error),
{
    Delivery { to: user_id, event: app_error_to_ws_error(error) }
}

/// A kind of websocket frame, or a transport error.
#[derive(Clone, Copy, Debug, PartialEq, Eq, Structural)]
pub enum FrameKind {
    Text,
    Binary,
    Ping,
    Pong,
    Close,
    Other,
    TransportError,
}

/// What a reader loop does with a frame.
#[derive(Clone, Copy, Debug, PartialEq, Eq, Structural)]
pub enum FrameStep {
    /// Parse the text as an event and handle it.
    Process,
    /// Skip the frame.
    Ignore,
    /// End the loop.
    Stop,
}

/// Text frames carry events; a close frame or a transport error ends the
/// connection; everything else is skipped.
pub open spec fn spec_frame_step(kind: FrameKind) -> FrameStep {
    match kind {
        FrameKind::Text => FrameStep::Process,
        FrameKind::Close => FrameStep::Stop,
        FrameKind::TransportError => FrameStep::Stop,
        _ => FrameStep::Ignore,
    }
}

/// Decides what a reader loop does with a frame.
pub fn frame_step(kind: FrameKind) -> (step: FrameStep)
    ensures
        step == spec_frame_step(kind),
{
    match kind {
        FrameKind::Text => FrameStep::Process,
        FrameKind::Close => FrameStep::Stop,
        FrameKind::TransportError => FrameStep::Stop,
        _ => FrameStep::Ignore,
    }
}

/// Relayed signalling always names the sending user as its origin and goes
/// to the user the client addressed.
pub proof fn law_relay_names_sender(user_id: Id, event: ClientEvent)
    requires
        !(event is ChatRequestSend),
    ensures
        spec_plan_client_event(user_id, event) matches ClientEventPlan::Forward { to, event: out }
            && match out {
            ServerEvent::ChatRequestAccepted { from } => from == user_id && event
                == (ClientEvent::ChatRequestAccept { from: to }),
            ServerEvent::WebRtcOffer { from, sdp } => from == user_id && event
                == (ClientEvent::WebRtcOffer { to, sdp }),
            ServerEvent::WebRtcAnswer { from, sdp } => from == user_id && event
                == (ClientEvent::WebRtcAnswer { to, sdp }),
            ServerEvent::IceCandidate { from, candidate } => from == user_id && event
                == (ClientEvent::IceCandidate { to, candidate }),
            _ => false,
        },
{
}

/// A chat request to oneself is refused whatever the receiver's presence.
pub proof fn law_no_chat_request_to_self(user_id: Id, online: bool)
    ensures
        spec_chat_request_refusal(user_id, user_id, online) == Some(
            "Cannot send chat request to same user!"@,
        ),
{
}

/// A chat request to another user is refused exactly when that user is
/// offline.
pub proof fn law_chat_request_needs_presence(user_id: Id, receiver_id: Id, online: bool)
    requires
        user_id != receiver_id,
    ensures
        spec_chat_request_refusal(user_id, receiver_id, online) is None <==> online,
{
}

} // verus!
