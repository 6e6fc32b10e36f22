//! Account rules of the server: what a failed registration means, when a
//! login or a session refresh is refused, guest accounts, and the claims of
//! the tokens the server signs. Timestamps here are Unix seconds.
use vstd::prelude::*;
use vstd::string::*;
use names::{Generator, Name};
use rand::distr::Alphanumeric;
use rand::RngExt;
use crate::errors::AppError;
use crate::friends::DbFailure;
use crate::models::{AuthResponse, Id, RegisterRequest, UserDto};

verus! {

/// A stored user account.
#[derive(Debug, Clone, PartialEq, Eq)]
pub struct User {
    pub id: Id,
    pub username: String,
    pub email: String,
    pub password_hash: String,
    pub display_name: String,
    pub is_guest: bool,
}

/// A stored login session; its instants are Unix microseconds.
#[derive(Debug, Clone, PartialEq, Eq)]
pub struct Session {
    pub id: Id,
    pub user_id: Id,
    pub refresh_token_hash: String,
    pub expires_at: i64,
    pub created_at: i64,
    pub last_used: i64,
}

/// Claims of an access token.
#[derive(Debug, Clone, PartialEq, Eq)]
pub struct Claims {
    /// The user id, hyphenated.
    pub sub: String,
    /// Expiry, Unix seconds.
    pub exp: i64,
    /// Issue time, Unix seconds.
    pub iat: i64,
}

/// Claims of a websocket token.
#[derive(Debug, Clone, PartialEq, Eq)]
pub struct WsClaims {
    pub sub: String,
    pub exp: i64,
    pub iat: i64,
    /// Always `ws_token`.
    pub token_type: String,
}

/// Credentials of a new guest account.
#[derive(Debug, Clone, PartialEq, Eq)]
pub struct GuestIdentity {
    pub username: String,
    pub email: String,
    pub password: String,
}

impl From<User> for UserDto {
    /// The public view of an account.
    fn from(user: User) -> (dto: UserDto) {
        UserDto {
            id: user.id,
            username: user.username,
            email: user.email,
            display_name: user.display_name,
        }
    }
}

impl vstd::std_specs::convert::FromSpecImpl<User> for UserDto {
    open spec fn obeys_from_spec() -> bool {
        true
    }

    open spec fn from_spec(user: User) -> UserDto {
        UserDto {
            id: user.id,
            username: user.username,
            email: user.email,
            display_name: user.display_name,
        }
    }
}

/// The public view of the current user's account, which must exist.
pub fn service_me(user: Option<User>) -> (me: Result<UserDto, AppError>)
    ensures
        user matches Some(u) ==> me == Ok::<UserDto, AppError>(
            UserDto {
                id: u.id,
                username: u.username,
                email: u.email,
                display_name: u.display_name,
            },
        ),
        user is None ==> (me matches Err(AppError::NotFound(msg)) && msg@ == "User not found!"@),
{
    match user {
        Some(u) => Ok(UserDto::from(u)),
        None => Err(AppError::NotFound(String::from_str("User not found!"))),
    }
}

/// The `ILIKE` pattern of a user search: the query anywhere in the name.
pub fn search_pattern(query: &str) -> (pattern: String)
    ensures
        pattern@ == "%"@ + query@ + "%"@,
{
    let mut pattern = String::from_str("%");
    pattern.append(query);
    pattern.append("%");
    pattern
}

/// The largest magnitude, in seconds, of a time span the server can add.
pub open spec fn max_span_secs() -> int {
    9_223_372_036_854_775
}

/// Whether `t` (Unix seconds) lies in the calendar the server can represent,
/// the years -262143 to 262142.
pub open spec fn timestamp_in_range(t: int) -> bool {
    -8_334_601_315_200 <= t <= 8_210_266_876_799
}

/// Whether adding `secs` seconds to `now` stays within what the server can
/// represent.
pub open spec fn can_add_secs(now: int, secs: int) -> bool {
    &&& -max_span_secs() <= secs <= max_span_secs()
    &&& timestamp_in_range(now + secs)
}

/// The claims of an access token for `sub` issued at `now` for `hours`.
pub fn access_claims(sub: String, now: i64, hours: i64) -> (claims: Claims)
    requires
        can_add_secs(now as int, hours * 3600),
    ensures
        claims.sub == sub,
        claims.iat == now,
        claims.exp == now + hours * 3600,
{
    let span = hours * 3600;
    Claims { sub, iat: now, exp: now + span }
}

/// The claims of a websocket token for `sub` issued at `now` for `minutes`.
pub fn ws_claims(sub: String, now: i64, minutes: i64) -> (claims: WsClaims)
    requires
        can_add_secs(now as int, minutes * 60),
    ensures
        claims.sub == sub,
        claims.iat == now,
        claims.exp == now + minutes * 60,
        claims.token_type@ == "ws_token"@,
{
    let span = minutes * 60;
    WsClaims { sub, iat: now, exp: now + span, token_type: String::from_str("ws_token") }
}

/// Whether `t` (Unix microseconds) lies in the calendar the server can
/// represent.
pub open spec fn micros_in_range(t: int) -> bool {
    -8_334_601_315_200_000_000 <= t <= 8_210_266_876_799_999_999
}

/// Whether adding `hours` to `now` (Unix microseconds) stays within what
/// the server can represent.
pub open spec fn can_add_hours_micros(now: int, hours: int) -> bool {
    &&& -max_span_secs() <= hours * 3600 <= max_span_secs()
    &&& micros_in_range(now + hours * 3_600_000_000)
}

/// When a new account created at `now` (Unix microseconds) expires: guests
/// one day later, other accounts never.
pub fn account_expiry(is_guest: Option<bool>, now: i64) -> (expires_at: Option<i64>)
    requires
        is_guest == Some(true) ==> can_add_hours_micros(now as int, 24),
    ensures
        is_guest == Some(true) ==> expires_at == Some((now + 86_400_000_000) as i64),
        is_guest != Some(true) ==> expires_at is None,
{
    match is_guest {
        Some(true) => Some(now + 86_400_000_000),
        _ => None,
    }
}

/// When a session opened or refreshed at `now` (Unix microseconds)
/// expires, in Unix microseconds.
pub fn session_expiry(now: i64, hours: i64) -> (expires_at: i64)
    requires
        can_add_hours_micros(now as int, hours as int),
    ensures
        expires_at == now + hours * 3_600_000_000,
{
    let wide: i128 = now as i128 + hours as i128 * 3_600_000_000;
    wide as i64
}

/// What a refused account insert answers: a taken email or username is a
/// conflict naming it, any other refusal a generic conflict, and a failure
/// that is not a refusal a database error.
pub open spec fn spec_user_insert_conflict(failure: DbFailure) -> Option<Seq<char>> {
    match failure {
        DbFailure::Database { constraint } => Some(
            match constraint {
                Some(c) => if c@ == "users_email_key"@ {
                    "Email already registered"@
                } else if c@ == "users_username_key"@ {
                    "Username already taken"@
                } else {
                    "Duplicate value"@
                },
                None => "Duplicate value"@,
            },
        ),
        DbFailure::Other => None,
    }
}

/// Maps a failed account insert to the answer of the request.
pub fn user_insert_failure(failure: DbFailure) -> (error: AppError)
    ensures
        spec_user_insert_conflict(failure) matches Some(msg) ==> (error matches AppError::Conflict(
            m,
        ) && m@ == msg),
        spec_user_insert_conflict(failure) is None ==> error == AppError::Database,
{
    match failure {
        DbFailure::Database { constraint } => {
            let msg = match constraint {
                Some(c) => {
                    let email = String::from_str("users_email_key");
                    let username = String::from_str("users_username_key");
                    if c == email {
                        String::from_str("Email already registered")
                    } else if c == username {
                        String::from_str("Username already taken")
                    } else {
                        String::from_str("Duplicate value")
                    }
                },
                None => String::from_str("Duplicate value"),
            };
            AppError::Conflict(msg)
        },
        DbFailure::Other => AppError::Database,
    }
}

/// A login needs a known account and a matching password; both failures
/// answer the same `Unauthorized`.
pub fn check_login(user: Option<User>, password_matches: bool) -> (checked: Result<User, AppError>)
    ensures
        checked is Ok <==> (user is Some && password_matches),
        checked matches Ok(u) ==> user == Some(u),
        checked matches Err(e) ==> e == AppError::Unauthorized,
{
    match user {
        Some(u) => {
            if password_matches {
                Ok(u)
            } else {
                Err(AppError::Unauthorized)
            }
        },
        None => Err(AppError::Unauthorized),
    }
}

/// A refresh needs a known session that has not expired at `now`.
pub fn check_session(session: Option<Session>, now: i64) -> (checked: Result<Session, AppError>)
    ensures
        checked is Ok <==> (session matches Some(s) && s.expires_at >= now),
        checked matches Ok(s) ==> session == Some(s),
        checked matches Err(e) ==> e == AppError::Unauthorized,
{
    match session {
        Some(s) => {
            if s.expires_at < now {
                Err(AppError::Unauthorized)
            } else {
                Ok(s)
            }
        },
        None => Err(AppError::Unauthorized),
    }
}

/// The username with every `-` removed.
pub open spec fn strip_dashes(s: Seq<char>) -> Seq<char>
    decreases s.len(),
{
    if s.len() == 0 {
        Seq::empty()
    } else if s.last() == '-' {
        strip_dashes(s.drop_last())
    } else {
        strip_dashes(s.drop_last()).push(s.last())
    }
}

/// The email of a guest: its username without dashes at `p2pchat.com`.
pub open spec fn spec_guest_email(username: Seq<char>) -> Seq<char> {
    strip_dashes(username) + "@p2pchat.com"@
}

/// `String::push`.
#[verifier::external_body]
fn push_char(s: &mut String, c: char)
    ensures
        final(s)@ == old(s)@.push(c),
{
    s.push(c);
}

/// Builds the email of a guest from its username.
pub fn guest_email(username: &str) -> (email: String)
    ensures
        email@ == spec_guest_email(username@),
{
    let n = username.unicode_len();
    let mut out = String::new();
    let mut i: usize = 0;
    while i < n
        invariant
            0 <= i <= n,
            n == username@.len(),
            out@ == strip_dashes(username@.take(i as int)),
        decreases n - i,
    {
        let c = username.get_char(i);
        assert(username@.take(i + 1).drop_last() =~= username@.take(i as int));
        if c != '-' {
            push_char(&mut out, c);
        }
        i = i + 1;
    }
    assert(username@.take(n as int) =~= username@);
    out.append("@p2pchat.com");
    out
}

/// Whether every character is an ASCII letter or digit.
pub open spec fn is_alphanumeric_ascii(s: Seq<char>) -> bool {
    forall|i: int|
        0 <= i < s.len() ==> ('0' <= #[trigger] s[i] <= '9' || 'a' <= s[i] <= 'z' || 'A' <= s[i]
            <= 'Z')
}

/// An account about to be stored.
#[derive(Debug, Clone, PartialEq, Eq)]
pub struct NewAccount {
    pub username: String,
    pub email: String,
    pub password_hash: String,
    pub display_name: String,
    pub is_guest: bool,
    /// Unix microseconds; `None` for an account that does not expire.
    pub expires_at: Option<i64>,
}

/// The account of a guest created at `now` (Unix microseconds): named after
/// its generated username, flagged as a guest and expiring one day later.
pub fn guest_account(guest: GuestIdentity, password_hash: String, now: i64) -> (account: NewAccount)
    requires
        can_add_hours_micros(now as int, 24),
    ensures
        account.username@ == guest.username@,
        account.display_name@ == guest.username@,
        account.email@ == guest.email@,
        account.password_hash@ == password_hash@,
        account.is_guest,
        account.expires_at == Some((now + 86_400_000_000) as i64),
{
    let display_name = String::from_str(guest.username.as_str());
    NewAccount {
        username: guest.username,
        email: guest.email,
        password_hash,
        display_name,
        is_guest: true,
        expires_at: account_expiry(Some(true), now),
    }
}

/// The account a registration asks for: the chosen names, not a guest,
/// never expiring.
pub fn registered_account(request: RegisterRequest, password_hash: String) -> (account: NewAccount)
    ensures
        account.username@ == request.username@,
        account.display_name@ == request.display_name@,
        account.email@ == request.email@,
        account.password_hash@ == password_hash@,
        !account.is_guest,
        account.expires_at is None,
{
    NewAccount {
        username: request.username,
        email: request.email,
        password_hash,
        display_name: request.display_name,
        is_guest: false,
        expires_at: None,
    }
}

/// The answer to a registration, login or guest creation: both tokens and
/// the public view of the account.
pub fn account_response(user: User, access_token: String, refresh_token: String) -> (response: AuthResponse)
    ensures
        response.access_token == access_token,
        response.refresh_token == refresh_token,
        response.user == (UserDto {
            id: user.id,
            username: user.username,
            email: user.email,
            display_name: user.display_name,
        }),
{
    AuthResponse { access_token, refresh_token, user: UserDto::from(user) }
}

/// Whether `s` ends in a dash and a four-digit number from `0001` to `9999`,
/// the tail of a numbered generated name.
pub open spec fn has_number_suffix(s: Seq<char>) -> bool {
    &&& s.len() >= 5
    &&& s[s.len() - 5] == '-'
    &&& forall|i: int| s.len() - 4 <= i < s.len() ==> '0' <= #[trigger] s[i] <= '9'
    &&& exists|i: int| s.len() - 4 <= i < s.len() && #[trigger] s[i] != '0'
}

#[verifier::external_type_specification]
pub struct ExName(names::Name);

/// `Generator::with_naming(naming).next()`: a random name `adjective-noun`,
/// for `Numbered` followed by `-` and a number drawn from 1 to 9999 written
/// with four digits. The generator always yields a name. Which words it
/// picks is not stated.
#[verifier::external_body]
fn random_guest_name(naming: Name) -> (name: Option<String>)
    ensures
        name is Some,
        naming is Numbered ==> has_number_suffix(name->0@),
{
    Generator::with_naming(naming).next()
}

/// `rand::rng().sample_iter(&Alphanumeric).take(n)` collected as text: `n`
/// random ASCII letters and digits.
#[verifier::external_body]
fn random_password(n: usize) -> (password: String)
    ensures
        password@.len() == n,
        is_alphanumeric_ascii(password@),
{
    rand::rng().sample_iter(&Alphanumeric).take(n).map(char::from).collect()
}

/// Draws the credentials of a new guest: a random numbered name, the email
/// derived from it and a random ten-character password.
pub fn generate_guest_identity() -> (guest: GuestIdentity)
    ensures
        has_number_suffix(guest.username@),
        guest.email@ == spec_guest_email(guest.username@),
        guest.password@.len() == 10,
        is_alphanumeric_ascii(guest.password@),
{
    let username = match random_guest_name(Name::Numbered) {
        Some(name) => name,
        None => {
            assert(false);
            String::new()
        },
    };
    let email = guest_email(username.as_str());
    let password = random_password(10);
    GuestIdentity { username, email, password }
}

/// A guest's email holds no dash before the domain.
pub proof fn law_guest_email_has_no_dash(username: Seq<char>)
    ensures
        !strip_dashes(username).contains('-'),
        spec_guest_email(username).len() == strip_dashes(username).len() + 12,
    decreases username.len(),
{
    reveal_strlit("@p2pchat.com");
    if username.len() > 0 {
        law_guest_email_has_no_dash(username.drop_last());
    }
}

} // verus!
