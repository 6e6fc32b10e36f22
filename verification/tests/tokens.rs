use p2p_chat::auth::{Claims, WsClaims};
use p2p_chat::errors::AppError;
use p2p_chat::jwt::{
    claims_from_fields, create_access_token, create_ws_token, verify_access_token, verify_ws_token,
    ws_claims_from_fields, JwtFields,
};

fn now() -> i64 {
    std::time::SystemTime::now().duration_since(std::time::UNIX_EPOCH).unwrap().as_secs() as i64
}

#[test]
fn access_token_roundtrip() {
    let t = now();
    let token = create_access_token("user-1", t, 3, "secret").unwrap();
    assert_eq!(token.split('.').count(), 3);
    assert_eq!(
        verify_access_token(&token, "secret"),
        Ok(Claims { sub: "user-1".into(), exp: t + 3 * 3600, iat: t })
    );
    assert_eq!(verify_access_token(&token, "other"), Err(AppError::Jwt));
    assert_eq!(verify_access_token("not.a.token", "secret"), Err(AppError::Jwt));
    assert_eq!(verify_ws_token(&token, "secret"), Err(AppError::Jwt));
}

#[test]
fn ws_token_roundtrip() {
    let t = now();
    let token = create_ws_token("user-2", t, 5, "s3").unwrap();
    assert_eq!(
        verify_ws_token(&token, "s3"),
        Ok(WsClaims { sub: "user-2".into(), exp: t + 300, iat: t, token_type: "ws_token".into() })
    );
    assert_eq!(verify_access_token(&token, "s3").map(|c| c.sub), Ok("user-2".to_string()));
}

#[test]
fn expired_token_is_refused() {
    let token = create_access_token("u", 1000, 1, "secret").unwrap();
    assert_eq!(verify_access_token(&token, "secret"), Err(AppError::Jwt));
}

#[test]
fn claims_need_every_field() {
    let f = JwtFields { sub: Some("u".into()), exp: Some(9), iat: Some(1), token_type: None };
    assert_eq!(claims_from_fields(f.clone()), Ok(Claims { sub: "u".into(), exp: 9, iat: 1 }));
    assert_eq!(ws_claims_from_fields(f.clone()), Err(AppError::Jwt));
    let g = JwtFields { token_type: Some("ws_token".into()), ..f.clone() };
    assert_eq!(ws_claims_from_fields(g), Ok(WsClaims { sub: "u".into(), exp: 9, iat: 1, token_type: "ws_token".into() }));
    assert_eq!(claims_from_fields(JwtFields { iat: None, ..f }), Err(AppError::Jwt));
    assert_eq!(verify_access_token("no-separators", "secret"), Err(AppError::Jwt));
}
