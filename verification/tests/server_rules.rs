use p2p_chat::password::{hash_password, verify_password};
use p2p_chat::auth::{
    access_claims, account_expiry, check_login, check_session, generate_guest_identity,
    guest_email, search_pattern, service_me, session_expiry, user_insert_failure, ws_claims, Session, User,
};
use p2p_chat::config::Config;
use p2p_chat::errors::{app_error_to_ws_error, AppError, ConfigError, ErrorResponse};
use p2p_chat::friends::{
    authorize_accept, authorize_delete, check_friend_request, friend_request_insert_failure,
    lists_by_sender, DbFailure, FriendRequestRowInternal, FriendRequestType,
};
use p2p_chat::models::{ClientEvent, IceCandidate, ServerEvent, UserDto, WsErrorCode};
use p2p_chat::refresh_token::{decode_refresh_token, get_refresh_token};
use p2p_chat::signalling::{
    chat_request_delivered, chat_request_event, frame_step, handle_client_event, ClientEventPlan,
    FrameKind, FrameStep,
};
use p2p_chat::errors::ConnectionError;

fn candidate() -> IceCandidate {
    IceCandidate {
        candidate: "candidate:1 1 udp 2122260223 10.0.0.1 54321 typ host".to_string(),
        sdp_mid: Some("0".to_string()),
        sdp_mline_index: Some(0),
        username_fragment: None,
    }
}

#[test]
fn status_codes_follow_error_kind() {
    assert_eq!(AppError::Conflict("x".into()).status_code(), 409);
    assert_eq!(AppError::Config(ConfigError::InvalidJwtExpiration).status_code(), 500);
    assert_eq!(AppError::Unauthorized.status_code(), 401);
    assert_eq!(AppError::Forbidden.status_code(), 403);
    assert_eq!(AppError::NotFound("x".into()).status_code(), 404);
    assert_eq!(AppError::BadRequest("x".into()).status_code(), 400);
    assert_eq!(AppError::Internal.status_code(), 500);
    assert_eq!(AppError::PasswordHash.status_code(), 500);
    assert_eq!(AppError::Database.status_code(), 500);
    assert_eq!(AppError::Jwt.status_code(), 401);
}

#[test]
fn error_messages_match_display_texts() {
    assert_eq!(AppError::Conflict("Email already registered".into()).message(), "Resource conflict: Email already registered");
    assert_eq!(AppError::NotFound("User not found!".into()).message(), "Resource not found: User not found!");
    assert_eq!(AppError::BadRequest("bad".into()).message(), "bad");
    assert_eq!(AppError::Config(ConfigError::InvalidJwtExpiration).message(), "Configuration Error");
    assert_eq!(AppError::Internal.message(), "Internal server error");
    assert_eq!(AppError::PasswordHash.message(), "Password hashing failed");
    assert_eq!(AppError::Database.message(), "Database error");
    assert_eq!(AppError::Jwt.message(), "Invalid token");
    assert_eq!(AppError::Unauthorized.message(), "Unauthorized");
    assert_eq!(AppError::Forbidden.message(), "Forbidden");
    let (code, body) = AppError::Forbidden.to_response();
    assert_eq!(code, 403);
    assert_eq!(body, ErrorResponse { error: "Forbidden".to_string() });
    assert_eq!(
        ConfigError::MissingVar("environment variable not found".into()).message(),
        "Missing environment variable: environment variable not found"
    );
    assert_eq!(
        ConfigError::InvalidJwtExpiration.message(),
        "JWT_EXPIRATION_HOURS must be a valid integer"
    );
}

#[test]
fn ws_errors_hide_internal_details() {
    let check = |e: AppError, code: WsErrorCode, msg: &str| {
        assert_eq!(app_error_to_ws_error(e), ServerEvent::Error { code, message: msg.to_string() });
    };
    check(AppError::NotFound("whatever".into()), WsErrorCode::UserNotFound, "User not found.");
    check(AppError::Forbidden, WsErrorCode::NotFriends, "You are not allowed to perform this action.");
    check(AppError::BadRequest("Cannot send chat request to same user!".into()), WsErrorCode::InvalidRequest, "Cannot send chat request to same user!");
    check(AppError::Unauthorized, WsErrorCode::Unauthorized, "Unauthorized.");
    check(AppError::Database, WsErrorCode::InvalidRequest, "An internal server error occurred.");
    check(AppError::Internal, WsErrorCode::InvalidRequest, "An internal server error occurred.");
    check(AppError::Conflict("c".into()), WsErrorCode::InvalidRequest, "An internal server error occurred.");
}

#[test]
fn client_events_are_relayed_with_sender() {
    let me = 7u128;
    let peer = 9u128;
    assert_eq!(handle_client_event(me, ClientEvent::ChatRequestSend { to: peer }), ClientEventPlan::CreateChatRequest { receiver: peer });
    assert_eq!(
        handle_client_event(me, ClientEvent::ChatRequestAccept { from: peer }),
        ClientEventPlan::Forward { to: peer, event: ServerEvent::ChatRequestAccepted { from: me } }
    );
    assert_eq!(
        handle_client_event(me, ClientEvent::WebRtcOffer { to: peer, sdp: "v=0".into() }),
        ClientEventPlan::Forward { to: peer, event: ServerEvent::WebRtcOffer { from: me, sdp: "v=0".into() } }
    );
    assert_eq!(
        handle_client_event(me, ClientEvent::WebRtcAnswer { to: peer, sdp: "v=1".into() }),
        ClientEventPlan::Forward { to: peer, event: ServerEvent::WebRtcAnswer { from: me, sdp: "v=1".into() } }
    );
    assert_eq!(
        handle_client_event(me, ClientEvent::IceCandidate { to: peer, candidate: candidate() }),
        ClientEventPlan::Forward { to: peer, event: ServerEvent::IceCandidate { from: me, candidate: candidate() } }
    );
}

#[test]
fn chat_request_needs_friendship_and_delivery() {
    assert_eq!(chat_request_event(3, None), Err(AppError::Forbidden));
    assert_eq!(
        chat_request_event(3, Some("alice".into())),
        Ok(ServerEvent::ChatRequestIncoming { from: 3, username: "alice".into() })
    );
    assert_eq!(chat_request_delivered(Ok(())), Ok(()));
    assert_eq!(chat_request_delivered(Err(ConnectionError::NotConnected)), Err(AppError::Internal));
    // A non-friend learns it through the NotFriends code.
    let err = chat_request_event(3, None).unwrap_err();
    match app_error_to_ws_error(err) {
        ServerEvent::Error { code, .. } => assert_eq!(code, WsErrorCode::NotFriends),
        other => panic!("unexpected {:?}", other),
    }
}

#[test]
fn frames_drive_reader_loops() {
    assert_eq!(frame_step(FrameKind::Text), FrameStep::Process);
    assert_eq!(frame_step(FrameKind::Close), FrameStep::Stop);
    assert_eq!(frame_step(FrameKind::TransportError), FrameStep::Stop);
    assert_eq!(frame_step(FrameKind::Binary), FrameStep::Ignore);
    assert_eq!(frame_step(FrameKind::Ping), FrameStep::Ignore);
    assert_eq!(frame_step(FrameKind::Pong), FrameStep::Ignore);
    assert_eq!(frame_step(FrameKind::Other), FrameStep::Ignore);
}

#[test]
fn friend_request_rules() {
    assert!(check_friend_request(1, 2).is_ok());
    assert_eq!(check_friend_request(4, 4), Err(AppError::BadRequest("Cannot send request to same ID!".into())));
    assert_eq!(
        friend_request_insert_failure(DbFailure::Database { constraint: Some("unique_friend_pair".into()) }),
        AppError::BadRequest("A friend request already exists between these users.".into())
    );
    assert_eq!(friend_request_insert_failure(DbFailure::Database { constraint: Some("other".into()) }), AppError::Database);
    assert_eq!(friend_request_insert_failure(DbFailure::Database { constraint: None }), AppError::Database);
    assert_eq!(friend_request_insert_failure(DbFailure::Other), AppError::Database);

    let req = FriendRequestRowInternal { sender_id: 10, receiver_id: 20 };
    assert_eq!(authorize_accept(Some(req), 20), Ok(10));
    assert_eq!(authorize_accept(Some(req), 10), Err(AppError::Forbidden));
    assert_eq!(authorize_accept(Some(req), 30), Err(AppError::Forbidden));
    assert_eq!(authorize_accept(None, 20), Err(AppError::NotFound("Could not find this friend request!".into())));
    assert_eq!(authorize_delete(Some(req), 10), Ok(()));
    assert_eq!(authorize_delete(Some(req), 20), Ok(()));
    assert_eq!(authorize_delete(Some(req), 30), Err(AppError::Forbidden));
    assert_eq!(authorize_delete(None, 10), Err(AppError::NotFound("Could not find this friend request!".into())));
    assert!(lists_by_sender(FriendRequestType::Sent));
    assert!(!lists_by_sender(FriendRequestType::Received));
}

#[test]
fn registration_conflicts_name_the_taken_field() {
    let db = |c: Option<&str>| DbFailure::Database { constraint: c.map(|s| s.to_string()) };
    assert_eq!(user_insert_failure(db(Some("users_email_key"))), AppError::Conflict("Email already registered".into()));
    assert_eq!(user_insert_failure(db(Some("users_username_key"))), AppError::Conflict("Username already taken".into()));
    assert_eq!(user_insert_failure(db(Some("something_else"))), AppError::Conflict("Duplicate value".into()));
    assert_eq!(user_insert_failure(db(None)), AppError::Conflict("Duplicate value".into()));
    assert_eq!(user_insert_failure(DbFailure::Other), AppError::Database);
}

fn user() -> User {
    User {
        id: 1,
        username: "alice".into(),
        email: "alice@example.com".into(),
        password_hash: "$argon2id$...".into(),
        display_name: "Alice".into(),
        is_guest: false,
    }
}

#[test]
fn login_and_refresh_checks() {
    assert_eq!(check_login(Some(user()), true), Ok(user()));
    assert_eq!(check_login(Some(user()), false), Err(AppError::Unauthorized));
    assert_eq!(check_login(None, true), Err(AppError::Unauthorized));
    let s = Session { id: 5, user_id: 1, refresh_token_hash: "ab".into(), expires_at: 1000, created_at: 0, last_used: 0 };
    assert_eq!(check_session(Some(s.clone()), 999), Ok(s.clone()));
    assert_eq!(check_session(Some(s.clone()), 1000), Ok(s.clone()));
    assert_eq!(check_session(Some(s), 1001), Err(AppError::Unauthorized));
    assert_eq!(check_session(None, 0), Err(AppError::Unauthorized));
    let dto = UserDto { id: 1, username: "alice".into(), email: "alice@example.com".into(), display_name: "Alice".into() };
    assert_eq!(UserDto::from(user()), dto.clone());
    assert_eq!(service_me(Some(user())), Ok(dto));
    assert_eq!(service_me(None), Err(AppError::NotFound("User not found!".into())));
    assert_eq!(search_pattern("ali"), "%ali%");
    assert_eq!(search_pattern(""), "%%");
}

#[test]
fn token_claims_and_expiries() {
    let c = access_claims("u".into(), 1_700_000_000, 3);
    assert_eq!((c.iat, c.exp, c.sub.as_str()), (1_700_000_000, 1_700_010_800, "u"));
    let w = ws_claims("u".into(), 1_700_000_000, 5);
    assert_eq!((w.iat, w.exp, w.token_type.as_str()), (1_700_000_000, 1_700_000_300, "ws_token"));
    assert_eq!(account_expiry(Some(true), 100), Some(86_400_000_100));
    assert_eq!(account_expiry(Some(false), 100), None);
    assert_eq!(account_expiry(None, 100), None);
    assert_eq!(session_expiry(100, 48), 172_800_000_100);
}

#[test]
fn guest_identity_is_derived_from_its_name() {
    assert_eq!(guest_email("brave-otter-0042"), "braveotter0042@p2pchat.com");
    assert_eq!(guest_email(""), "@p2pchat.com");
    assert_eq!(guest_email("---"), "@p2pchat.com");
    let g = generate_guest_identity();
    assert!(g.username.contains('-'));
    let (head, number) = g.username.split_at(g.username.len() - 4);
    assert!(head.ends_with('-'));
    assert!(number.chars().all(|c| c.is_ascii_digit()) && number != "0000");
    assert_eq!(g.email, format!("{}@p2pchat.com", g.username.replace('-', "")));
    assert_eq!(g.password.len(), 10);
    assert!(g.password.chars().all(|c| c.is_ascii_alphanumeric()));
}

#[test]
fn refresh_token_roundtrip() {
    let t = get_refresh_token();
    assert_eq!(t.refresh_token_client.len(), 64);
    assert_eq!(t.refresh_token_db.len(), 64);
    assert!(t.refresh_token_client.chars().all(|c| c.is_ascii_hexdigit() && !c.is_ascii_uppercase()));
    assert_eq!(decode_refresh_token(&t.refresh_token_client), Ok(t.refresh_token_db.clone()));
    // Upper-case hex decodes to the same bytes.
    assert_eq!(decode_refresh_token(&t.refresh_token_client.to_uppercase()), Ok(t.refresh_token_db));
}

#[test]
fn refresh_token_decoding_exact_values() {
    assert_eq!(
        decode_refresh_token(""),
        Ok("e3b0c44298fc1c149afbf4c8996fb92427ae41e4649b934ca495991b7852b855".to_string())
    );
    assert_eq!(
        decode_refresh_token("616263"),
        Ok("ba7816bf8f01cfea414140de5dae2223b00361a396177a9cb410ff61f20015ad".to_string())
    );
    assert_eq!(decode_refresh_token("abc"), Err(AppError::Unauthorized));
    assert_eq!(decode_refresh_token("zz"), Err(AppError::Unauthorized));
    assert_eq!(decode_refresh_token("é1"), Err(AppError::Unauthorized));
}

#[test]
fn config_reads_values_in_order() {
    let ok = |s: &str| -> Result<String, String> { Ok(s.to_string()) };
    let missing = || -> Result<String, String> { Err("environment variable not found".to_string()) };
    let c = Config::from_lookups(ok("postgres://db"), ok("secret"), ok("3"), ok("+48"), ok("http://app")).unwrap();
    assert_eq!(c, Config {
        database_url: "postgres://db".into(),
        jwt_secret: "secret".into(),
        jwt_expiration_hours: 3,
        refresh_expiration_hours: 48,
        client_url: "http://app".into(),
    });
    assert_eq!(
        Config::from_lookups(missing(), ok("s"), ok("x"), ok("1"), ok("u")),
        Err(ConfigError::MissingVar("environment variable not found".into()))
    );
    assert_eq!(Config::from_lookups(ok("d"), ok("s"), ok("x"), missing(), ok("u")), Err(ConfigError::InvalidJwtExpiration));
    assert_eq!(Config::from_lookups(ok("d"), ok("s"), ok("1"), ok("-"), ok("u")), Err(ConfigError::InvalidJwtExpiration));
    assert_eq!(
        Config::from_lookups(ok("d"), ok("s"), ok("1"), ok("2"), missing()),
        Err(ConfigError::MissingVar("environment variable not found".into()))
    );
    assert_eq!(Config::from_lookups(ok("d"), ok("s"), ok("99999999999999999999"), ok("2"), ok("u")), Err(ConfigError::InvalidJwtExpiration));
    assert_eq!(Config::from_lookups(ok("d"), ok("s"), ok("-9223372036854775808"), ok("2"), ok("u")).unwrap().jwt_expiration_hours, i64::MIN);
    assert_eq!(Config::from_lookups(ok("d"), ok("s"), ok(" 1"), ok("2"), ok("u")), Err(ConfigError::InvalidJwtExpiration));
}

#[test]
fn password_checks_against_its_own_hash() {
    let h = hash_password("hunter2").unwrap();
    assert!(h.starts_with("$argon2id$"));
    assert_ne!(h, "hunter2");
    assert_eq!(verify_password("hunter2", &h), Ok(true));
    assert_eq!(verify_password("hunter3", &h), Ok(false));
    let again = hash_password("hunter2").unwrap();
    assert_ne!(again, h);
    assert_eq!(verify_password("hunter2", &again), Ok(true));
}

#[test]
fn password_check_on_malformed_hash_is_an_error() {
    assert_eq!(verify_password("x", "not a phc string"), Err(AppError::PasswordHash));
    assert_eq!(verify_password("x", ""), Err(AppError::PasswordHash));
}
