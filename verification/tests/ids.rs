use p2p_chat::client::ClientState;
use p2p_chat::errors::AppError;
use p2p_chat::jwt::claims_user_id;
use p2p_chat::models::{ClientEvent, DataChannelAppEvent};
use p2p_chat::refresh_token::refresh_token_from_bytes;
use p2p_chat::ws_client::{chat_request_accept_event, chat_request_send_event};

const TEXT: &str = "67e55044-10b1-426f-9247-bb680e5fe0c8";
const VALUE: u128 = 0x67e5504410b1426f9247bb680e5fe0c8;

#[test]
fn chat_events_from_uuid_text() {
    assert_eq!(chat_request_send_event(TEXT), Ok(ClientEvent::ChatRequestSend { to: VALUE }));
    assert_eq!(
        chat_request_accept_event("67E5504410B1426F9247BB680E5FE0C8"),
        Ok(ClientEvent::ChatRequestAccept { from: VALUE })
    );
    assert!(chat_request_send_event("not-a-uuid").is_err());
    assert!(chat_request_accept_event("").is_err());
}

#[test]
fn token_subject_names_user() {
    assert_eq!(claims_user_id(TEXT), Ok(VALUE));
    assert_eq!(claims_user_id("alice"), Err(AppError::Unauthorized));
}

#[test]
fn close_peer_connection_by_text() {
    let mut st: ClientState<u32, &str, &str> = ClientState::new();
    st.webrtc_manager.register(VALUE, "pc", 1);
    st.dc_manager.add_data_channel(VALUE, "dc");
    assert!(st.close_peer_connection("nope").is_err());
    assert_eq!(st.webrtc_manager.get(VALUE), Some(&"pc"));
    let t = st.close_peer_connection(TEXT).unwrap().unwrap();
    assert_eq!((t.connection, t.channel), (Some("pc"), Some("dc")));
    assert_eq!(t.notice, DataChannelAppEvent::PeerDisconnected { peer_id: VALUE });
    assert_eq!(st.webrtc_manager.get(VALUE), None);
    assert!(st.close_peer_connection(TEXT).unwrap().is_none());
}

#[test]
fn refresh_token_of_known_bytes() {
    let t = refresh_token_from_bytes(&[0u8; 32]);
    assert_eq!(t.refresh_token_client, "00".repeat(32));
    assert_eq!(t.refresh_token_db, "66687aadf862bd776c8fc18b8e9f8e20089714856ee233b3902a591d0d5f2925");
}
