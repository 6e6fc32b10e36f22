use p2p_chat::connection_manager::ConnectionManager;
use p2p_chat::data_channels::{DcEventKind, DcManager};
use p2p_chat::errors::ConnectionError;
use p2p_chat::models::{DataChannelAppEvent, IceCandidate, ServerEvent};
use p2p_chat::peers::{
    PeerAction, PeerCleanupEvent, PeerConnectionState, PeerHandler, WebRtcManager,
};
use p2p_chat::signalling::check_chat_request;
use p2p_chat::errors::AppError;
use p2p_chat::models::ClientEvent;

fn channel() -> tokio::sync::mpsc::Sender<ServerEvent> {
    tokio::sync::mpsc::channel::<ServerEvent>(4).0
}

#[test]
fn connections_track_presence() {
    let mut cm = ConnectionManager::new();
    assert!(!cm.is_online(1));
    cm.connect(1, channel(), 100);
    assert!(cm.is_online(1));
    cm.connect(1, channel(), 101);
    let mut ids: Vec<u128> = cm.send_targets(1).unwrap().iter().map(|t| t.0).collect();
    ids.sort();
    assert_eq!(ids, vec![100, 101]);
    assert!(!cm.disconnect(1, 100));
    assert!(cm.is_online(1));
    assert!(cm.disconnect(1, 101));
    assert!(!cm.is_online(1));
    assert!(!cm.disconnect(1, 101));
    assert_eq!(cm.send_targets(1).err(), Some(ConnectionError::NotConnected));
}

#[test]
fn disconnect_of_unknown_connection_keeps_user_online() {
    let mut cm = ConnectionManager::new();
    cm.connect(2, channel(), 1);
    assert!(!cm.disconnect(2, 99));
    assert!(cm.is_online(2));
    assert!(!cm.disconnect(3, 1));
    assert!(cm.is_online(2));
}

#[test]
fn reconnecting_same_id_replaces_channel() {
    let mut cm = ConnectionManager::new();
    cm.connect(4, channel(), 7);
    cm.connect(4, channel(), 7);
    assert_eq!(cm.send_targets(4).unwrap().len(), 1);
    assert!(cm.disconnect(4, 7));
}

#[test]
fn broadcast_reaches_each_online_user() {
    let mut cm = ConnectionManager::new();
    cm.connect(1, channel(), 10);
    cm.connect(2, channel(), 20);
    cm.connect(2, channel(), 21);
    let t = cm.broadcast_targets(&vec![1, 3, 2]);
    assert_eq!(t.len(), 3);
    assert_eq!(t[0].as_ref().unwrap().len(), 1);
    assert!(t[1].is_err());
    assert_eq!(t[2].as_ref().unwrap().len(), 2);
}

#[test]
fn messages_reach_the_registered_channel() {
    let mut cm = ConnectionManager::new();
    let (tx, mut rx) = tokio::sync::mpsc::channel::<ServerEvent>(4);
    cm.connect(5, tx, 50);
    let targets = cm.send_targets(5).unwrap();
    assert_eq!(targets[0].0, 50);
    targets[0].1.try_send(ServerEvent::GenericMessage { message: "hi".into() }).unwrap();
    assert_eq!(rx.try_recv().unwrap(), ServerEvent::GenericMessage { message: "hi".into() });
}

#[test]
fn chat_request_prechecks() {
    let mut cm = ConnectionManager::new();
    assert_eq!(
        check_chat_request(1, 1, &cm),
        Err(AppError::BadRequest("Cannot send chat request to same user!".into()))
    );
    assert_eq!(
        check_chat_request(1, 2, &cm),
        Err(AppError::BadRequest("Could not send chat request as user is offline!".into()))
    );
    cm.connect(2, channel(), 1);
    assert_eq!(check_chat_request(1, 2, &cm), Ok(()));
}

fn cand(n: u16) -> IceCandidate {
    IceCandidate { candidate: format!("c{}", n), sdp_mid: None, sdp_mline_index: Some(n), username_fragment: None }
}

#[test]
fn stale_cleanup_spares_new_connection() {
    let mut t: WebRtcManager<&str> = WebRtcManager::new();
    assert!(t.register(1, "old", 100));
    assert_eq!(t.cleanup_peer_connection(PeerCleanupEvent { peer_id: 1, connection_id: 100 }), Some("old"));
    assert!(t.register(1, "new", 200));
    assert_eq!(t.cleanup_peer_connection(PeerCleanupEvent { peer_id: 1, connection_id: 100 }), None);
    assert_eq!(t.get(1), Some(&"new"));
    assert_eq!(t.current_connection_id(1), Some(200));
}

#[test]
fn first_registration_wins() {
    let mut t: WebRtcManager<&str> = WebRtcManager::new();
    assert!(t.register(1, "a", 1));
    assert!(!t.register(1, "b", 2));
    assert_eq!(t.get(1), Some(&"a"));
    assert_eq!(t.lookup(2), Err("No peer found!".to_string()));
}

#[test]
fn candidates_wait_for_remote_description() {
    let mut t: WebRtcManager<u8> = WebRtcManager::new();
    assert_eq!(t.handle_ice_candidate(1, cand(0), false), Err("No peer found!".to_string()));
    t.register(1, 0, 11);
    assert_eq!(t.handle_ice_candidate(1, cand(1), false), Ok(None));
    assert_eq!(t.handle_ice_candidate(1, cand(2), false), Ok(None));
    assert_eq!(t.handle_ice_candidate(1, cand(3), true), Ok(Some(cand(3))));
    assert_eq!(t.take_pending(1), vec![cand(1), cand(2)]);
    assert_eq!(t.take_pending(1), Vec::<IceCandidate>::new());
}

#[test]
fn cleanup_drops_held_candidates_and_clear_empties() {
    let mut t: WebRtcManager<u8> = WebRtcManager::new();
    t.register(1, 5, 11);
    t.register(2, 6, 22);
    t.buffer_candidate(1, cand(1));
    assert_eq!(t.close_peer_connection_manual(1), Some(5));
    assert_eq!(t.take_pending(1), vec![]);
    assert_eq!(t.close_peer_connection_manual(1), None);
    t.buffer_candidate(2, cand(2));
    let drained = t.clear();
    assert_eq!(drained.get(&2), Some(&(6, 22)));
    assert_eq!(drained.len(), 1);
    assert_eq!(t.get(2), None);
    assert_eq!(t.take_pending(2), vec![]);
}

#[test]
fn connection_state_reactions() {
    let ev = PeerCleanupEvent { peer_id: 3, connection_id: 33 };
    let h = PeerHandler { peer_id: 3, connection_id: 33 };
    assert_eq!(h.on_connection_state_change(PeerConnectionState::Disconnected), vec![PeerAction::Cleanup(ev), PeerAction::RemoveDataChannel(3)]);
    assert_eq!(h.on_connection_state_change(PeerConnectionState::Failed), vec![PeerAction::Cleanup(ev), PeerAction::RemoveDataChannel(3)]);
    assert_eq!(h.on_connection_state_change(PeerConnectionState::Closed), vec![PeerAction::RemoveDataChannel(3), PeerAction::Cleanup(ev)]);
    for s in [PeerConnectionState::New, PeerConnectionState::Connecting, PeerConnectionState::Connected, PeerConnectionState::Unspecified] {
        assert!(h.on_connection_state_change(s).is_empty());
    }
    assert!(h.on_data_channel(&"chat".to_string()));
    assert!(!h.on_data_channel(&"Chat".to_string()));
    assert_eq!(h.on_ice_candidate(cand(9)), ClientEvent::IceCandidate { to: 3, candidate: cand(9) });
}

#[test]
fn data_channel_events() {
    let mut dc: DcManager<&str> = DcManager::new();
    dc.add_data_channel(1, "ch1");
    assert_eq!(dc.send_message_channel(1), Ok(&"ch1"));
    assert_eq!(dc.send_message_channel(2), Err("No data channel found for peer!".to_string()));
    assert_eq!(dc.handle_dc_events(1, DcEventKind::OnOpen), Some(DataChannelAppEvent::PeerConnected { peer_id: 1 }));
    assert_eq!(
        dc.handle_dc_events(1, DcEventKind::OnMessage(vec![1, 2, 3])),
        Some(DataChannelAppEvent::MessageReceived { peer_id: 1, message: vec![1, 2, 3] })
    );
    assert_eq!(dc.handle_dc_events(1, DcEventKind::OnError), None);
    assert_eq!(dc.handle_dc_events(1, DcEventKind::OnClosing), None);
    assert_eq!(dc.send_message_channel(1), Ok(&"ch1"));
    assert_eq!(dc.handle_dc_events(1, DcEventKind::OnClose), Some(DataChannelAppEvent::PeerDisconnected { peer_id: 1 }));
    assert!(dc.send_message_channel(1).is_err());
    assert_eq!(dc.remove_data_channel(1), (None, DataChannelAppEvent::PeerDisconnected { peer_id: 1 }));
    dc.add_data_channel(2, "ch2");
    assert_eq!(dc.clear().len(), 1);
    assert!(dc.send_message_channel(2).is_err());
}
