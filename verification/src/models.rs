//! Wire-level data shared by the signalling server and the desktop client.
//!
//! Identifiers (users, friend requests, connections, peers) are 128-bit
//! UUID values held as `u128`; timestamps are microseconds since the Unix
//! epoch.
use vstd::prelude::*;

verus! {

/// A user, a friend request, a websocket connection or a peer connection id.
pub type Id = u128;

/// Body of `POST /auth/register`.
#[derive(Debug, Clone)]
pub struct RegisterRequest {
    pub username: String,
    pub email: String,
    pub password: String,
    pub display_name: String,
}

/// Body of `POST /auth/login`; `identifier` is an email or a username.
#[derive(Debug, Clone)]
pub struct LoginRequest {
    pub identifier: String,
    pub password: String,
}

/// Public view of a user account.
#[derive(Debug, Clone, PartialEq, Eq)]
pub struct UserDto {
    pub id: Id,
    pub username: String,
    pub email: String,
    pub display_name: String,
}

/// Answer to a successful registration, login or guest creation.
#[derive(Debug, Clone)]
pub struct AuthResponse {
    pub access_token: String,
    pub refresh_token: String,
    pub user: UserDto,
}

/// Body of `POST /auth/refresh`.
#[derive(Debug, Clone)]
pub struct RefreshSessionRequest {
    pub refresh_token: String,
}

/// Answer to a successful session refresh.
#[derive(Debug, Clone)]
pub struct RefreshSessionResponse {
    pub access_token: String,
    pub refresh_token: String,
}

/// The short-lived token that authorises a websocket upgrade.
#[derive(Debug, Clone)]
pub struct WsAuth {
    pub ws_token: String,
}

/// Data-channel notifications forwarded to the desktop front end.
#[derive(Debug, Clone, PartialEq, Eq)]
pub enum DataChannelAppEvent {
    PeerConnected { peer_id: Id },
    PeerDisconnected { peer_id: Id },
    MessageReceived { peer_id: Id, message: Vec<u8> },
}

/// Body of `POST /friend/create_request`.
#[derive(Debug, Clone, Copy, PartialEq, Eq)]
pub struct CreateFriendReqRequest {
    pub receiver_id: Id,
}

/// Body of `POST /friend/accept_request`.
#[derive(Debug, Clone, Copy, PartialEq, Eq)]
pub struct AcceptReqRequest {
    pub request_id: Id,
}

/// One pending friend request as listed to either of its two users.
#[derive(Debug, Clone, PartialEq, Eq)]
pub struct FriendRequestRowDto {
    pub id: Id,
    pub username: String,
    pub created_at: i64,
}

/// One friend of the current user.
#[derive(Debug, Clone, PartialEq, Eq)]
pub struct FriendRowDto {
    pub friend_id: Id,
    pub username: String,
    pub display_name: String,
}

/// One hit of a user search.
#[derive(Debug, Clone, PartialEq, Eq)]
pub struct UserSearchModel {
    pub id: Id,
    pub email: String,
    pub username: String,
}

/// Query of `GET /user/search`.
#[derive(Debug, Clone)]
pub struct UserSearchRequestModel {
    pub query: String,
}

/// Error kinds reported to a websocket client.
#[derive(Debug, Clone, Copy, PartialEq, Eq, Structural)]
pub enum WsErrorCode {
    UserNotFound,
    UserOffline,
    NotFriends,
    Unauthorized,
    InvalidRequest,
}

/// An ICE candidate relayed between two peers.
#[derive(Debug, Clone, PartialEq, Eq)]
pub struct IceCandidate {
    pub candidate: String,
    pub sdp_mid: Option<String>,
    pub sdp_mline_index: Option<u16>,
    pub username_fragment: Option<String>,
}

/// Events that the server pushes to a connected client.
#[derive(Debug, Clone, PartialEq, Eq)]
pub enum ServerEvent {
    ChatRequestIncoming { from: Id, username: String },
    ChatRequestAccepted { from: Id },
    PresenceOnline { id: Id },
    PresenceOffline { id: Id },
    WebRtcOffer { from: Id, sdp: String },
    WebRtcAnswer { from: Id, sdp: String },
    IceCandidate { from: Id, candidate: IceCandidate },
    Error { code: WsErrorCode, message: String },
    GenericMessage { message: String },
}

/// Events that a client sends to the server.
#[derive(Debug, Clone, PartialEq, Eq)]
pub enum ClientEvent {
    ChatRequestSend { to: Id },
    ChatRequestAccept { from: Id },
    WebRtcOffer { to: Id, sdp: String },
    WebRtcAnswer { to: Id, sdp: String },
    IceCandidate { to: Id, candidate: IceCandidate },
}

} // verus!
