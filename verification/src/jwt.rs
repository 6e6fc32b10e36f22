//! Access and websocket tokens: HS256 JSON web tokens signed with the
//! server secret.
use vstd::prelude::*;
use std::collections::BTreeMap;
use jsonwebtoken::{DecodingKey, EncodingKey, Header, Validation};
use serde_json::Value;
use crate::auth::{access_claims, can_add_secs, ws_claims, Claims, WsClaims};
use crate::errors::AppError;
use crate::ids::{parse_uuid, uuid_of};
use crate::models::Id;

verus! {

#[verifier::external_type_specification]
#[verifier::external_body]
pub struct ExJwtError(jsonwebtoken::errors::Error);

/// The claims of a token that the server reads, each absent when the
/// payload lacks it or holds it with another JSON type.
#[derive(Debug, Clone, PartialEq, Eq)]
pub struct JwtFields {
    pub sub: Option<String>,
    pub exp: Option<i64>,
    pub iat: Option<i64>,
    pub token_type: Option<String>,
}

/// The text of an optional string.
pub open spec fn opt_text(s: Option<String>) -> Option<Seq<char>> {
    match s {
        Some(t) => Some(t@),
        None => None,
    }
}

/// The claims as plain values: `sub`, `exp`, `iat`, `token_type`.
pub open spec fn fields_view(f: JwtFields) -> (Option<Seq<char>>, Option<i64>, Option<i64>, Option<Seq<char>>) {
    (opt_text(f.sub), f.exp, f.iat, opt_text(f.token_type))
}

/// How many `.` separators `s` holds.
pub open spec fn dot_count(s: Seq<char>) -> nat
    decreases s.len(),
{
    if s.len() == 0 {
        0
    } else {
        dot_count(s.drop_last()) + if s.last() == '.' {
            1nat
        } else {
            0nat
        }
    }
}

/// What `token` carries when it passes every check of the server's token
/// validation that does not involve the clock: an HS256 signature that
/// checks out under `secret`, a payload that is a JSON object with no
/// registered claim (`exp`, `nbf`, `sub`, `iss`, `aud`) given twice, an
/// `exp` claim, and no audience (an `aud` that is a string or a non-empty
/// list). It is then the payload's `sub`, `exp`, `iat` and `token_type`
/// claims (each absent when missing or of another JSON type); it is `None`
/// for any other text. The clock plays no part in it.
pub uninterp spec fn jwt_payload(token: Seq<char>, secret: Seq<char>) -> Option<
    (Option<Seq<char>>, Option<i64>, Option<i64>, Option<Seq<char>>),
>;

/// A clock reading (Unix seconds) the decoder can make.
pub open spec fn plausible_clock(now: int) -> bool {
    60 <= now <= i64::MAX
}

/// Whether a token expiring at `exp` is still accepted at `now`, with the
/// decoder's 60 s leeway.
pub open spec fn unexpired(exp: i64, now: int) -> bool {
    exp >= now - 60
}

/// The claims `jwt_payload` gives, or none at all for a token it does not
/// describe.
pub open spec fn claimed(token: Seq<char>, secret: Seq<char>) -> (
    Option<Seq<char>>,
    Option<i64>,
    Option<i64>,
    Option<Seq<char>>,
) {
    match jwt_payload(token, secret) {
        Some(p) => p,
        None => (None, None, None, None),
    }
}

/// Whether `accepted` is exactly whether a token expiring at `exp` is still
/// valid at some instant the decoder can read from the clock.
pub open spec fn decided_by_clock(accepted: bool, exp: i64) -> bool {
    exists|now: int| plausible_clock(now) && (accepted <==> #[trigger] unexpired(exp, now))
}

/// Whether `jwt_payload` describes `token` under `secret` with a
/// non-negative integer `exp`: such a token is refused only by the clock.
pub open spec fn signed_with_exp(token: Seq<char>, secret: Seq<char>) -> bool {
    jwt_payload(token, secret) matches Some(p) && p.1 matches Some(e) && e >= 0
}

/// `jsonwebtoken::encode` with the default header (HS256) of a JSON object
/// holding `sub`, `exp`, `iat` and, when given, `token_type`, signed with
/// `secret`. With an HMAC key (of any length) and a JSON object, encoding
/// always succeeds, and the token carries exactly these claims under that
/// secret.
#[verifier::external_body]
fn jwt_encode(sub: &str, exp: i64, iat: i64, token_type: Option<&str>, secret: &str) -> (token: Result<
    String,
    jsonwebtoken::errors::Error,
>)
    ensures
        token is Ok,
        token matches Ok(t) ==> jwt_payload(t@, secret@) == Some(
            (
                Some(sub@),
                Some(exp),
                Some(iat),
                match token_type {
                    Some(k) => Some(k@),
                    None => None::<Seq<char>>,
                },
            ),
        ),
{
    let mut c: BTreeMap<&str, Value> = BTreeMap::new();
    c.insert("sub", Value::from(sub));
    c.insert("exp", Value::from(exp));
    c.insert("iat", Value::from(iat));
    if let Some(k) = token_type {
        c.insert("token_type", Value::from(k));
    }
    jsonwebtoken::encode(&Header::default(), &c, &EncodingKey::from_secret(secret.as_bytes()))
}

/// `jsonwebtoken::decode` with the default validation (HS256, `exp`
/// required, 60 s leeway), the payload read as a JSON object. A text
/// without the two `.` separators of header, payload and signature is
/// refused. A decoded token carries the claims `jwt_payload` names; a token
/// that `jwt_payload` does not describe is refused. A described token whose
/// `exp` is a non-negative integer is decoded exactly when it has not
/// expired (with the 60 s leeway) at the instant the decoder read the clock,
/// in Unix seconds: at least 60 and at most `i64::MAX`, as the system clock
/// counts seconds in an `i64`.
#[verifier::external_body]
fn jwt_decode(token: &str, secret: &str) -> (fields: Result<JwtFields, jsonwebtoken::errors::Error>)
    ensures
        fields matches Ok(f) ==> jwt_payload(token@, secret@) == Some(fields_view(f)),
        jwt_payload(token@, secret@) is None ==> fields is Err,
        dot_count(token@) < 2 ==> fields is Err,
        signed_with_exp(token@, secret@) ==> decided_by_clock(
            fields is Ok,
            claimed(token@, secret@).1->0,
        ),
{
    let key = DecodingKey::from_secret(secret.as_bytes());
    let c = jsonwebtoken::decode::<BTreeMap<String, Value>>(token, &key, &Validation::default())?.claims;
    let text = |k: &str| c.get(k).and_then(Value::as_str).map(String::from);
    let number = |k: &str| c.get(k).and_then(Value::as_i64);
    Ok(JwtFields { sub: text("sub"), exp: number("exp"), iat: number("iat"), token_type: text("token_type") })
}

/// Issues the access token of `sub` at `now` (Unix seconds), valid for
/// `hours`; signing always succeeds.
pub fn create_access_token(sub: &str, now: i64, hours: i64, secret: &str) -> (token: Result<String, AppError>)
    requires
        can_add_secs(now as int, hours * 3600),
    ensures
        token is Ok,
        token matches Ok(t) ==> jwt_payload(t@, secret@) == Some(
            (Some(sub@), Some((now + hours * 3600) as i64), Some(now), None::<Seq<char>>),
        ),
{
    let claims = access_claims(String::from_str(sub), now, hours);
    match jwt_encode(sub, claims.exp, claims.iat, None, secret) {
        Ok(t) => Ok(t),
        Err(_) => Err(AppError::Jwt),
    }
}

/// Issues the websocket token of `sub` at `now`, valid for `minutes`,
/// marked `token_type: ws_token`; signing always succeeds.
pub fn create_ws_token(sub: &str, now: i64, minutes: i64, secret: &str) -> (token: Result<String, AppError>)
    requires
        can_add_secs(now as int, minutes * 60),
    ensures
        token is Ok,
        token matches Ok(t) ==> jwt_payload(t@, secret@) == Some(
            (Some(sub@), Some((now + minutes * 60) as i64), Some(now), Some("ws_token"@)),
        ),
{
    let claims = ws_claims(String::from_str(sub), now, minutes);
    match jwt_encode(sub, claims.exp, claims.iat, Some(claims.token_type.as_str()), secret) {
        Ok(t) => Ok(t),
        Err(_) => Err(AppError::Jwt),
    }
}

/// The user a token's subject names; a subject that is not a UUID is
/// `Unauthorized`.
pub fn claims_user_id(sub: &str) -> (u: Result<Id, AppError>)
    ensures
        uuid_of(sub@) matches Some(v) ==> u == Ok::<Id, AppError>(v),
        uuid_of(sub@) is None ==> u == Err::<Id, AppError>(AppError::Unauthorized),
{
    match parse_uuid(sub) {
        Ok(v) => Ok(v),
        Err(_) => Err(AppError::Unauthorized),
    }
}

/// The access-token claims among `f`: all of `sub`, `exp` and `iat` must be
/// present, else the token is refused as a `Jwt` error.
pub fn claims_from_fields(f: JwtFields) -> (c: Result<Claims, AppError>)
    ensures
        c is Ok <==> (f.sub is Some && f.exp is Some && f.iat is Some),
        c matches Ok(cl) ==> Some(cl.sub@) == opt_text(f.sub) && Some(cl.exp) == f.exp && Some(
            cl.iat,
        ) == f.iat,
        c matches Err(e) ==> e == AppError::Jwt,
{
    match (f.sub, f.exp, f.iat) {
        (Some(sub), Some(exp), Some(iat)) => Ok(Claims { sub, exp, iat }),
        _ => Err(AppError::Jwt),
    }
}

/// The websocket-token claims among `f`: all of `sub`, `exp`, `iat` and
/// `token_type` must be present, else the token is refused as a `Jwt`
/// error.
pub fn ws_claims_from_fields(f: JwtFields) -> (c: Result<WsClaims, AppError>)
    ensures
        c is Ok <==> (f.sub is Some && f.exp is Some && f.iat is Some && f.token_type is Some),
        c matches Ok(cl) ==> Some(cl.sub@) == opt_text(f.sub) && Some(cl.exp) == f.exp && Some(
            cl.iat,
        ) == f.iat && Some(cl.token_type@) == opt_text(f.token_type),
        c matches Err(e) ==> e == AppError::Jwt,
{
    match (f.sub, f.exp, f.iat, f.token_type) {
        (Some(sub), Some(exp), Some(iat), Some(token_type)) => Ok(WsClaims { sub, exp, iat, token_type }),
        _ => Err(AppError::Jwt),
    }
}

/// Reads an access token: its claims when it is signed with `secret`,
/// unexpired and carries `sub`, `exp` and `iat`; otherwise a `Jwt` error.
/// Whether a signed token has expired depends on the clock.
pub fn verify_access_token(token: &str, secret: &str) -> (claims: Result<Claims, AppError>)
    ensures
        claims matches Ok(c) ==> (jwt_payload(token@, secret@) matches Some(p) && p.0 == Some(
            c.sub@,
        ) && p.1 == Some(c.exp) && p.2 == Some(c.iat)),
        jwt_payload(token@, secret@) is None ==> claims is Err,
        dot_count(token@) < 2 ==> claims is Err,
        (jwt_payload(token@, secret@) matches Some(p) && (p.0 is None || p.1 is None || p.2 is None))
            ==> claims is Err,
        claims matches Err(e) ==> e == AppError::Jwt,
        (signed_with_exp(token@, secret@) && claimed(token@, secret@).0 is Some
            && claimed(token@, secret@).2 is Some) ==> decided_by_clock(
            claims is Ok,
            claimed(token@, secret@).1->0,
        ),
{
    let decoded = jwt_decode(token, secret);
    let ghost accepted = decoded is Ok;
    let claims = match decoded {
        Ok(f) => claims_from_fields(f),
        Err(_) => Err(AppError::Jwt),
    };
    proof {
        if signed_with_exp(token@, secret@) && claimed(token@, secret@).0 is Some
            && claimed(token@, secret@).2 is Some {
            let e = claimed(token@, secret@).1->0;
            let now = choose|now: int| plausible_clock(now) && (accepted <==> #[trigger] unexpired(e, now));
            assert(plausible_clock(now) && (claims is Ok <==> unexpired(e, now)));
            assert(decided_by_clock(claims is Ok, e));
        }
    }
    claims
}

/// Reads a websocket token: its claims when it is signed with `secret`,
/// unexpired and carries `sub`, `exp`, `iat` and `token_type`; otherwise a
/// `Jwt` error. Whether a signed token has expired depends on the clock.
pub fn verify_ws_token(token: &str, secret: &str) -> (claims: Result<WsClaims, AppError>)
    ensures
        claims matches Ok(c) ==> (jwt_payload(token@, secret@) matches Some(p) && p.0 == Some(
            c.sub@,
        ) && p.1 == Some(c.exp) && p.2 == Some(c.iat) && p.3 == Some(c.token_type@)),
        jwt_payload(token@, secret@) is None ==> claims is Err,
        dot_count(token@) < 2 ==> claims is Err,
        (jwt_payload(token@, secret@) matches Some(p) && (p.0 is None || p.1 is None || p.2 is None
            || p.3 is None)) ==> claims is Err,
        claims matches Err(e) ==> e == AppError::Jwt,
        (signed_with_exp(token@, secret@) && claimed(token@, secret@).0 is Some
            && claimed(token@, secret@).2 is Some && claimed(token@, secret@).3 is Some)
            ==> decided_by_clock(claims is Ok, claimed(token@, secret@).1->0),
{
    let decoded = jwt_decode(token, secret);
    let ghost accepted = decoded is Ok;
    let claims = match decoded {
        Ok(f) => ws_claims_from_fields(f),
        Err(_) => Err(AppError::Jwt),
    };
    proof {
        if signed_with_exp(token@, secret@) && claimed(token@, secret@).0 is Some
            && claimed(token@, secret@).2 is Some && claimed(token@, secret@).3 is Some {
            let e = claimed(token@, secret@).1->0;
            let now = choose|now: int| plausible_clock(now) && (accepted <==> #[trigger] unexpired(e, now));
            assert(plausible_clock(now) && (claims is Ok <==> unexpired(e, now)));
            assert(decided_by_clock(claims is Ok, e));
        }
    }
    claims
}

/// A signed token is refused only by the clock: when acceptance is decided
/// by the clock alone, a token still valid at the latest instant the clock
/// can show is accepted, and a token already expired at the earliest one is
/// refused; the subject and the other claims play no part.
pub proof fn law_only_the_clock_refuses_a_signed_token(accepted: bool, exp: i64)
    requires
        decided_by_clock(accepted, exp),
    ensures
        exp >= i64::MAX - 60 ==> accepted,
        exp < 0 ==> !accepted,
{
    let now = choose|now: int| plausible_clock(now) && (accepted <==> #[trigger] unexpired(exp, now));
    assert(plausible_clock(now));
}

} // verus!
