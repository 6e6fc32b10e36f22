use p2p_chat::client::ClientState;
use p2p_chat::peers::PeerCleanupEvent;
use p2p_chat::models::{IceCandidate, ServerEvent};
use p2p_chat::ws_client::{
    connect_url, route_server_event, send_failed_message, IncomingAction, WebSocketManager,
    WebSocketStatus, WsNotice,
};

#[test]
fn status_names() {
    assert_eq!(WebSocketStatus::Disconnected.as_str(), "disconnected");
    assert_eq!(WebSocketStatus::Connecting.as_str(), "connecting");
    assert_eq!(WebSocketStatus::Connected.as_str(), "connected");
}

#[test]
fn connect_lifecycle() {
    let mut m: WebSocketManager<u32> = WebSocketManager::new();
    assert_eq!(m.status(), WebSocketStatus::Disconnected);
    assert_eq!(m.send_channel(), Err("WebSocket not connected".to_string()));
    assert_eq!(m.begin_connect(), vec![WsNotice::StatusChanged(WebSocketStatus::Connecting)]);
    assert_eq!(m.status(), WebSocketStatus::Connecting);
    assert_eq!(m.send_channel(), Err("WebSocket not connected".to_string()));
    assert_eq!(m.connect_succeeded(7, 70), vec![WsNotice::StatusChanged(WebSocketStatus::Connected)]);
    assert_eq!(m.send_channel(), Ok(&7));
    assert_eq!(m.reader_closed(70), vec![WsNotice::StatusChanged(WebSocketStatus::Disconnected)]);
    assert_eq!(m.reader_closed(70), vec![]);
    assert_eq!(m.send_channel(), Err("WebSocket not connected".to_string()));
}

#[test]
fn reconnect_disconnects_first() {
    let mut m: WebSocketManager<u32> = WebSocketManager::new();
    m.begin_connect();
    m.connect_succeeded(1, 10);
    assert_eq!(
        m.begin_connect(),
        vec![
            WsNotice::StatusChanged(WebSocketStatus::Disconnected),
            WsNotice::StatusChanged(WebSocketStatus::Connecting)
        ]
    );
    assert_eq!(m.status(), WebSocketStatus::Connecting);
    assert_eq!(
        m.connect_failed("refused"),
        vec![
            WsNotice::StatusChanged(WebSocketStatus::Disconnected),
            WsNotice::Error("Connection failed: refused".to_string())
        ]
    );
    assert_eq!(m.status(), WebSocketStatus::Disconnected);
    assert_eq!(m.disconnect(), vec![WsNotice::StatusChanged(WebSocketStatus::Disconnected)]);
}

#[test]
fn connected_without_channel_reports_missing_sender() {
    let mut m: WebSocketManager<u32> = WebSocketManager::new();
    m.begin_connect();
    m.connect_succeeded(3, 30);
    m.reader_closed(30);
    // The reader ending keeps the writer channel; a new dial that fails keeps it too.
    assert_eq!(m.status(), WebSocketStatus::Disconnected);
    m.disconnect();
    assert_eq!(m.send_channel(), Err("WebSocket not connected".to_string()));
    assert_eq!(send_failed_message("channel closed"), "Failed to send event: channel closed");
}

#[test]
fn connect_url_percent_encodes_token() {
    assert_eq!(connect_url("ws://localhost:8080/ws", "abc.DEF-_~1"), "ws://localhost:8080/ws?ws_token=abc.DEF-_~1");
    assert_eq!(connect_url("ws://h/ws", "a b+c/=é"), "ws://h/ws?ws_token=a%20b%2Bc%2F%3D%C3%A9");
    assert_eq!(connect_url("", ""), "?ws_token=");
}

#[test]
fn server_events_routed() {
    let c = IceCandidate { candidate: "x".into(), sdp_mid: None, sdp_mline_index: None, username_fragment: None };
    assert_eq!(route_server_event(ServerEvent::WebRtcOffer { from: 1, sdp: "o".into() }), IncomingAction::HandleOffer { from: 1, sdp: "o".into() });
    assert_eq!(route_server_event(ServerEvent::WebRtcAnswer { from: 1, sdp: "a".into() }), IncomingAction::HandleAnswer { from: 1, sdp: "a".into() });
    assert_eq!(route_server_event(ServerEvent::IceCandidate { from: 1, candidate: c.clone() }), IncomingAction::HandleIceCandidate { from: 1, candidate: c });
    assert_eq!(route_server_event(ServerEvent::ChatRequestAccepted { from: 2 }), IncomingAction::CreateOffer { peer: 2 });
    let e = ServerEvent::ChatRequestIncoming { from: 3, username: "bob".into() };
    assert_eq!(route_server_event(e.clone()), IncomingAction::EmitToFrontend(e));
    let e = ServerEvent::PresenceOnline { id: 4 };
    assert_eq!(route_server_event(e.clone()), IncomingAction::EmitToFrontend(e));
}

#[test]
fn logout_closes_everything() {
    let mut st: ClientState<u32, &str, &str> = ClientState::new();
    st.websocket_manager.begin_connect();
    st.websocket_manager.connect_succeeded(9, 90);
    st.dc_manager.add_data_channel(5, "dc5");
    assert!(st.webrtc_manager.register(5, "pc5", 50));
    let c = IceCandidate { candidate: "x".into(), sdp_mid: None, sdp_mline_index: None, username_fragment: None };
    assert_eq!(st.webrtc_manager.handle_ice_candidate(5, c, false), Ok(None));
    let out = st.logout_cleanup();
    assert_eq!(out.notices, vec![WsNotice::StatusChanged(WebSocketStatus::Disconnected)]);
    assert_eq!(out.channels.get(&5), Some(&"dc5"));
    assert_eq!(out.peers.get(&5), Some(&("pc5", 50)));
    assert_eq!(st.websocket_manager.send_channel(), Err("WebSocket not connected".to_string()));
    assert!(st.dc_manager.send_message_channel(5).is_err());
    assert_eq!(st.webrtc_manager.get(5), None);
    assert!(st.webrtc_manager.take_pending(5).is_empty());
    assert_eq!(st.webrtc_manager.cleanup_peer_connection(PeerCleanupEvent { peer_id: 5, connection_id: 50 }), None);
    let again = st.logout_cleanup();
    assert!(again.channels.is_empty() && again.peers.is_empty());
}

#[test]
fn stale_reader_does_not_disconnect_redialed_connection() {
    let mut m: WebSocketManager<u32> = WebSocketManager::new();
    m.begin_connect();
    m.connect_succeeded(1, 100);
    m.begin_connect();
    assert_eq!(m.status(), WebSocketStatus::Connecting);
    assert_eq!(m.reader_closed(100), vec![]);
    assert_eq!(m.status(), WebSocketStatus::Connecting);
    m.connect_succeeded(2, 200);
    assert_eq!(m.reader_closed(100), vec![]);
    assert_eq!(m.status(), WebSocketStatus::Connected);
    assert_eq!(m.send_channel(), Ok(&2));
    assert_eq!(m.reader_closed(200), vec![WsNotice::StatusChanged(WebSocketStatus::Disconnected)]);
    assert_eq!(m.status(), WebSocketStatus::Disconnected);
}
