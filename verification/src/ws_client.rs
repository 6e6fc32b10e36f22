//! The desktop client's signalling connection: its status, the channel to
//! its writer task, the notifications it raises for the front end, and where
//! each incoming server event is handled.
use vstd::prelude::*;
use vstd::string::*;
use crate::ids::{parse_uuid, uuid_of};
use crate::models::{ClientEvent, IceCandidate, Id, ServerEvent};

verus! {

/// Connection status of the signalling websocket.
#[derive(Clone, Copy, Debug, PartialEq, Eq, Structural)]
pub enum WebSocketStatus {
    Disconnected,
    Connecting,
    Connected,
}

/// The name of a status as the front end sees it.
pub open spec fn spec_status_name(status: WebSocketStatus) -> Seq<char> {
    match status {
        WebSocketStatus::Disconnected => "disconnected"@,
        WebSocketStatus::Connecting => "connecting"@,
        WebSocketStatus::Connected => "connected"@,
    }
}

impl WebSocketStatus {
    /// The name of the status as the front end sees it.
    pub fn as_str(&self) -> (name: &'static str)
        ensures
            name@ == spec_status_name(*self),
    {
        match self {
            WebSocketStatus::Disconnected => "disconnected",
            WebSocketStatus::Connecting => "connecting",
            WebSocketStatus::Connected => "connected",
        }
    }
}

/// A notification for the front end.
#[derive(Clone, Debug, PartialEq, Eq)]
pub enum WsNotice {
    /// `ws-status-changed` with the new status.
    StatusChanged(WebSocketStatus),
    /// `ws-error` with a message.
    Error(String),
}

/// The `?ws_token=` query value: every byte of the token's UTF-8 form
/// except ASCII letters, digits and `-`, `.`, `_`, `~` becomes `%` and two
/// upper-case hex digits.
pub open spec fn spec_percent_encode(bytes: Seq<u8>) -> Seq<char>
    decreases bytes.len(),
{
    if bytes.len() == 0 {
        Seq::empty()
    } else {
        spec_percent_encode_byte(bytes[0]) + spec_percent_encode(bytes.drop_first())
    }
}

/// Whether a byte passes through percent-encoding unchanged.
pub open spec fn is_unreserved(b: u8) -> bool {
    (48 <= b && b <= 57) || (65 <= b && b <= 90) || (97 <= b && b <= 122) || b == 45 || b == 46
        || b == 95 || b == 126
}

/// The upper-case hex digit of `n` (`n < 16`).
pub open spec fn upper_hex_digit(n: u8) -> char {
    if n < 10 {
        (48 + n) as char
    } else {
        (55 + n) as char
    }
}

/// The percent-encoding of one byte.
pub open spec fn spec_percent_encode_byte(b: u8) -> Seq<char> {
    if is_unreserved(b) {
        seq![b as char]
    } else {
        seq!['%', upper_hex_digit(b / 16), upper_hex_digit(b % 16)]
    }
}

/// `urlencoding::encode`: the percent-encoding of the text's UTF-8 bytes.
#[verifier::external_body]
fn url_encode(text: &str) -> (encoded: String)
    ensures
        encoded@ == spec_percent_encode(vstd::utf8::encode_utf8(text@)),
{
    urlencoding::encode(text).into_owned()
}

/// The address the client dials: the server address with the token as the
/// `ws_token` query parameter.
pub open spec fn spec_connect_url(ws_url: Seq<char>, ws_token: Seq<char>) -> Seq<char> {
    ws_url + "?ws_token="@ + spec_percent_encode(vstd::utf8::encode_utf8(ws_token))
}

/// Builds the address the client dials.
pub fn connect_url(ws_url: &str, ws_token: &str) -> (url: String)
    ensures
        url@ == spec_connect_url(ws_url@, ws_token@),
{
    let mut url = String::from_str(ws_url);
    url.append("?ws_token=");
    let token = url_encode(ws_token);
    url.append(token.as_str());
    url
}

/// The text of the failure notice after a failed dial.
pub open spec fn spec_connect_failed_message(cause: Seq<char>) -> Seq<char> {
    "Connection failed: "@ + cause
}

/// The text of the error after the writer task refused an event.
pub open spec fn spec_send_failed_message(cause: Seq<char>) -> Seq<char> {
    "Failed to send event: "@ + cause
}

/// Renders the error after the writer task refused an event.
pub fn send_failed_message(cause: &str) -> (msg: String)
    ensures
        msg@ == spec_send_failed_message(cause@),
{
    let mut msg = String::from_str("Failed to send event: ");
    msg.append(cause);
    msg
}

/// Why an event could not be handed to the writer task.
pub open spec fn spec_send_refusal(status: WebSocketStatus, has_sender: bool) -> Option<Seq<char>> {
    if status != WebSocketStatus::Connected {
        Some("WebSocket not connected"@)
    } else if !has_sender {
        Some("WebSocket sender not available"@)
    } else {
        None
    }
}

/// The request to offer a chat to the user whose id is the text `to`; a
/// text that is not a UUID gives the parser's error text.
pub fn chat_request_send_event(to: &str) -> (e: Result<ClientEvent, String>)
    ensures
        uuid_of(to@) matches Some(v) ==> e == Ok::<ClientEvent, String>(
            ClientEvent::ChatRequestSend { to: v },
        ),
        uuid_of(to@) is None ==> e is Err,
{
    let v = parse_uuid(to)?;
    Ok(ClientEvent::ChatRequestSend { to: v })
}

/// The acceptance of the chat request of the user whose id is the text
/// `from`; a text that is not a UUID gives the parser's error text.
pub fn chat_request_accept_event(from: &str) -> (e: Result<ClientEvent, String>)
    ensures
        uuid_of(from@) matches Some(v) ==> e == Ok::<ClientEvent, String>(
            ClientEvent::ChatRequestAccept { from: v },
        ),
        uuid_of(from@) is None ==> e is Err,
{
    let v = parse_uuid(from)?;
    Ok(ClientEvent::ChatRequestAccept { from: v })
}

/// The status, the writer channel, and the id of the current connection
/// (the one whose reader task counts).
pub type WsState<S> = (WebSocketStatus, Option<S>, Option<Id>);

/// The state after a disconnect.
pub open spec fn spec_disconnect<S>(st: WsState<S>) -> WsState<S> {
    (WebSocketStatus::Disconnected, None, None)
}

/// The state once a dial has started: the status is `Connecting`; a
/// manager that was not disconnected drops its connection first, and no
/// earlier connection is current any more.
pub open spec fn spec_begin_connect<S>(st: WsState<S>) -> WsState<S> {
    if st.0 == WebSocketStatus::Disconnected {
        (WebSocketStatus::Connecting, st.1, None)
    } else {
        (WebSocketStatus::Connecting, None, None)
    }
}

/// The state after a successful dial that produced connection `conn` with
/// writer channel `s`.
pub open spec fn spec_connect_succeeded<S>(st: WsState<S>, s: S, conn: Id) -> WsState<S> {
    (WebSocketStatus::Connected, Some(s), Some(conn))
}

/// The state after a failed dial.
pub open spec fn spec_connect_failed<S>(st: WsState<S>) -> WsState<S> {
    (WebSocketStatus::Disconnected, st.1, st.2)
}

/// The state after the reader task of connection `conn` ended: only the
/// current connection's end disconnects (the writer channel is kept); the
/// end of an earlier connection changes nothing.
pub open spec fn spec_reader_closed<S>(st: WsState<S>, conn: Id) -> WsState<S> {
    if st.2 == Some(conn) {
        (WebSocketStatus::Disconnected, st.1, None)
    } else {
        st
    }
}

/// The connection's status, the channel to its writer task (`S`) and the id
/// of the current connection.
pub struct WebSocketManager<S> {
    status: WebSocketStatus,
    sender: Option<S>,
    current: Option<Id>,
}

impl<S> WebSocketManager<S> {
    /// The current status.
    pub closed spec fn spec_status(&self) -> WebSocketStatus {
        self.status
    }

    /// The channel to the writer task, if one is held.
    pub closed spec fn spec_sender(&self) -> Option<S> {
        self.sender
    }

    /// The id of the current connection, if there is one.
    pub closed spec fn spec_current(&self) -> Option<Id> {
        self.current
    }

    /// The status, the writer channel and the current connection.
    pub open spec fn state(&self) -> WsState<S> {
        (self.spec_status(), self.spec_sender(), self.spec_current())
    }

    /// A manager that is not connected.
    pub fn new() -> (m: Self)
        ensures
            m.state() == (WebSocketStatus::Disconnected, None::<S>, None::<Id>),
    {
        WebSocketManager { status: WebSocketStatus::Disconnected, sender: None, current: None }
    }

    /// The current status.
    pub fn status(&self) -> (status: WebSocketStatus)
        ensures
            status == self.spec_status(),
    {
        self.status
    }

    /// Drops the connection: the status becomes `Disconnected`, the writer
    /// channel is released, and the front end is told.
    pub fn disconnect(&mut self) -> (notices: Vec<WsNotice>)
        ensures
            final(self).state() == spec_disconnect(old(self).state()),
            notices@ == seq![WsNotice::StatusChanged(WebSocketStatus::Disconnected)],
    {
        self.status = WebSocketStatus::Disconnected;
        self.sender = None;
        self.current = None;
        vec![WsNotice::StatusChanged(WebSocketStatus::Disconnected)]
    }

    /// Starts a dial. A manager that was not disconnected is first
    /// disconnected (and the front end told); then the status becomes
    /// `Connecting`.
    pub fn begin_connect(&mut self) -> (notices: Vec<WsNotice>)
        ensures
            final(self).state() == spec_begin_connect(old(self).state()),
            old(self).spec_status() == WebSocketStatus::Disconnected ==> notices@ == seq![
                WsNotice::StatusChanged(WebSocketStatus::Connecting),
            ],
            old(self).spec_status() != WebSocketStatus::Disconnected ==> notices@ == seq![
                WsNotice::StatusChanged(WebSocketStatus::Disconnected),
                WsNotice::StatusChanged(WebSocketStatus::Connecting),
            ],
    {
        let mut notices: Vec<WsNotice> = Vec::new();
        match self.status {
            WebSocketStatus::Disconnected => {},
            _ => {
                notices = self.disconnect();
            },
        }
        self.status = WebSocketStatus::Connecting;
        self.current = None;
        notices.push(WsNotice::StatusChanged(WebSocketStatus::Connecting));
        notices
    }

    /// The dial succeeded: the status becomes `Connected`, `sender` is the
    /// channel to the new writer task and `conn` the current connection.
    pub fn connect_succeeded(&mut self, sender: S, conn: Id) -> (notices: Vec<WsNotice>)
        ensures
            final(self).state() == spec_connect_succeeded(old(self).state(), sender, conn),
            notices@ == seq![WsNotice::StatusChanged(WebSocketStatus::Connected)],
    {
        self.status = WebSocketStatus::Connected;
        self.sender = Some(sender);
        self.current = Some(conn);
        vec![WsNotice::StatusChanged(WebSocketStatus::Connected)]
    }

    /// The dial failed with `cause`: the status becomes `Disconnected` and the
    /// front end is told why.
    pub fn connect_failed(&mut self, cause: &str) -> (notices: Vec<WsNotice>)
        ensures
            final(self).state() == spec_connect_failed(old(self).state()),
            notices.len() == 2,
            notices[0] == WsNotice::StatusChanged(WebSocketStatus::Disconnected),
            notices[1] matches WsNotice::Error(msg) && msg@ == spec_connect_failed_message(cause@),
    {
        self.status = WebSocketStatus::Disconnected;
        let mut msg = String::from_str("Connection failed: ");
        msg.append(cause);
        vec![WsNotice::StatusChanged(WebSocketStatus::Disconnected), WsNotice::Error(msg)]
    }

    /// The reader task of connection `conn` ended. If `conn` is the current
    /// connection the status becomes `Disconnected` (the writer channel is
    /// kept) and the front end is told; the end of an earlier connection
    /// changes nothing and tells nothing.
    pub fn reader_closed(&mut self, conn: Id) -> (notices: Vec<WsNotice>)
        ensures
            final(self).state() == spec_reader_closed(old(self).state(), conn),
            old(self).spec_current() == Some(conn) ==> notices@ == seq![
                WsNotice::StatusChanged(WebSocketStatus::Disconnected),
            ],
            old(self).spec_current() != Some(conn) ==> notices@ == Seq::<WsNotice>::empty(),
    {
        match self.current {
            Some(c) => {
                if c == conn {
                    self.status = WebSocketStatus::Disconnected;
                    self.current = None;
                    return vec![WsNotice::StatusChanged(WebSocketStatus::Disconnected)];
                }
            },
            None => {},
        }
        Vec::new()
    }

    /// The channel an outgoing event goes through, or why there is none:
    /// only a connected manager that holds a writer channel sends.
    pub fn send_channel(&self) -> (channel: Result<&S, String>)
        ensures
            channel is Ok <==> spec_send_refusal(self.spec_status(), self.spec_sender() is Some)
                is None,
            channel matches Ok(s) ==> self.spec_sender() == Some(*s),
            channel matches Err(msg) ==> Some(msg@) == spec_send_refusal(
                self.spec_status(),
                self.spec_sender() is Some,
            ),
    {
        match self.status {
            WebSocketStatus::Connected => {},
            _ => return Err(String::from_str("WebSocket not connected")),
        }
        match &self.sender {
            Some(s) => Ok(s),
            None => Err(String::from_str("WebSocket sender not available")),
        }
    }
}

/// What the client does with an event from the server.
#[derive(Clone, Debug, PartialEq, Eq)]
pub enum IncomingAction {
    /// Answer a peer's offer.
    HandleOffer { from: Id, sdp: String },
    /// Apply a peer's answer.
    HandleAnswer { from: Id, sdp: String },
    /// Apply or hold back a peer's ICE candidate.
    HandleIceCandidate { from: Id, candidate: IceCandidate },
    /// The peer accepted the chat: send it an offer.
    CreateOffer { peer: Id },
    /// Everything else goes to the front end as a `ws-event`.
    EmitToFrontend(ServerEvent),
}

/// Where an event from the server is handled: WebRTC signalling stays in the
/// client, everything else goes to the front end.
pub open spec fn spec_route_server_event(event: ServerEvent) -> IncomingAction {
    match event {
        ServerEvent::WebRtcOffer { from, sdp } => IncomingAction::HandleOffer { from, sdp },
        ServerEvent::WebRtcAnswer { from, sdp } => IncomingAction::HandleAnswer { from, sdp },
        ServerEvent::IceCandidate { from, candidate } => IncomingAction::HandleIceCandidate {
            from,
            candidate,
        },
        ServerEvent::ChatRequestAccepted { from } => IncomingAction::CreateOffer { peer: from },
        other => IncomingAction::EmitToFrontend(other),
    }
}

/// Decides where an event from the server is handled.
pub fn route_server_event(event: ServerEvent) -> (action: IncomingAction)
    ensures
        action == spec_route_server_event(event),
{
    match event {
        ServerEvent::WebRtcOffer { from, sdp } => IncomingAction::HandleOffer { from, sdp },
        ServerEvent::WebRtcAnswer { from, sdp } => IncomingAction::HandleAnswer { from, sdp },
        ServerEvent::IceCandidate { from, candidate } => IncomingAction::HandleIceCandidate {
            from,
            candidate,
        },
        ServerEvent::ChatRequestAccepted { from } => IncomingAction::CreateOffer { peer: from },
        other => IncomingAction::EmitToFrontend(other),
    }
}

/// After a disconnect, nothing can be sent until a new dial succeeds.
pub proof fn law_disconnect_stops_sending<S>(st: WsState<S>)
    ensures
        spec_send_refusal(spec_disconnect(st).0, spec_disconnect(st).1 is Some) == Some(
            "WebSocket not connected"@,
        ),
        spec_send_refusal(
            spec_begin_connect(spec_disconnect(st)).0,
            spec_begin_connect(spec_disconnect(st)).1 is Some,
        ) == Some("WebSocket not connected"@),
{
}

/// Whatever the state before, a dial that succeeds with writer channel `s`
/// leaves a manager that sends through `s`.
pub proof fn law_successful_dial_sends_through_new_channel<S>(st: WsState<S>, s: S, conn: Id)
    ensures
        spec_send_refusal(
            spec_connect_succeeded(spec_begin_connect(st), s, conn).0,
            spec_connect_succeeded(spec_begin_connect(st), s, conn).1 is Some,
        ) is None,
        spec_connect_succeeded(spec_begin_connect(st), s, conn).1 == Some(s),
{
}

/// Starting a dial never reports the connection as up, and a failed dial
/// or the end of the current connection refuses to send whatever channel is
/// still held.
pub proof fn law_only_a_successful_dial_connects<S>(st: WsState<S>, conn: Id)
    requires
        st.2 == Some(conn),
    ensures
        spec_begin_connect(st).0 == WebSocketStatus::Connecting,
        spec_connect_failed(st).0 == WebSocketStatus::Disconnected,
        spec_send_refusal(spec_connect_failed(st).0, spec_connect_failed(st).1 is Some) is Some,
        spec_send_refusal(
            spec_reader_closed(st, conn).0,
            spec_reader_closed(st, conn).1 is Some,
        ) is Some,
{
}

/// After a redial that succeeded with connection `new`, the end of the
/// earlier connection `old` leaves the new connection connected.
pub proof fn law_stale_reader_keeps_new_connection<S>(st: WsState<S>, s: S, old: Id, new: Id)
    requires
        old != new,
    ensures
        ({
            let redialed = spec_connect_succeeded(spec_begin_connect(st), s, new);
            &&& spec_reader_closed(redialed, old) == redialed
            &&& redialed.0 == WebSocketStatus::Connected
            &&& spec_send_refusal(redialed.0, redialed.1 is Some) is None
        }),
{
}

/// The end of any connection other than the current one changes nothing:
/// the status keeps describing the current connection.
pub proof fn law_only_current_reader_disconnects<S>(st: WsState<S>, conn: Id)
    requires
        st.2 != Some(conn),
    ensures
        spec_reader_closed(st, conn) == st,
{
}

/// Every server event is either handled by the client or shown to the front
/// end unchanged; no event is dropped.
pub proof fn law_routing_keeps_other_events(event: ServerEvent)
    requires
        !(event is WebRtcOffer || event is WebRtcAnswer || event is IceCandidate
            || event is ChatRequestAccepted),
    ensures
        spec_route_server_event(event) == IncomingAction::EmitToFrontend(event),
{
}

} // verus!
