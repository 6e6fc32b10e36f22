//! The server configuration and how it is read from environment values.
use vstd::prelude::*;
use vstd::string::*;
use crate::errors::ConfigError;

verus! {

/// Settings of the signalling server.
#[derive(Clone, Debug, PartialEq, Eq)]
pub struct Config {
    pub database_url: String,
    pub jwt_secret: String,
    pub jwt_expiration_hours: i64,
    pub refresh_expiration_hours: i64,
    pub client_url: String,
}

/// The value of a run of ASCII decimal digits.
pub open spec fn digits_value(s: Seq<char>) -> int
    decreases s.len(),
{
    if s.len() == 0 {
        0
    } else {
        digits_value(s.drop_last()) * 10 + (s.last() as int - 48)
    }
}

/// Whether every character is an ASCII decimal digit.
pub open spec fn all_digits(s: Seq<char>) -> bool {
    forall|i: int| 0 <= i < s.len() ==> '0' <= #[trigger] s[i] <= '9'
}

/// The `i64` that a text denotes: an optional `+` or `-`, then at least one
/// ASCII digit, and a value in range; anything else denotes none.
pub open spec fn spec_parse_i64(s: Seq<char>) -> Option<i64> {
    let negative = s.len() > 0 && s[0] == '-';
    let body = if s.len() > 0 && (s[0] == '-' || s[0] == '+') {
        s.drop_first()
    } else {
        s
    };
    let value = if negative {
        -digits_value(body)
    } else {
        digits_value(body)
    };
    if body.len() == 0 || !all_digits(body) {
        None
    } else if i64::MIN <= value <= i64::MAX {
        Some(value as i64)
    } else {
        None
    }
}

/// `str::parse::<i64>`, its error discarded.
#[verifier::external_body]
fn parse_i64(text: &str) -> (value: Option<i64>)
    ensures
        value == spec_parse_i64(text@),
{
    text.parse::<i64>().ok()
}

/// A configuration value: the variable's text, or the text of why it could
/// not be read.
pub type VarLookup = Result<String, String>;

/// Reads an expiration value: a missing variable keeps its cause, a value
/// that is not an `i64` is `InvalidJwtExpiration`.
pub fn expiration_hours(lookup: VarLookup) -> (hours: Result<i64, ConfigError>)
    ensures
        lookup matches Err(cause) ==> hours == Err::<i64, ConfigError>(
            ConfigError::MissingVar(cause),
        ),
        lookup matches Ok(text) ==> (spec_parse_i64(text@) matches Some(v) ==> hours == Ok::<
            i64,
            ConfigError,
        >(v)),
        lookup matches Ok(text) ==> (spec_parse_i64(text@) is None ==> hours == Err::<
            i64,
            ConfigError,
        >(ConfigError::InvalidJwtExpiration)),
{
    match lookup {
        Err(cause) => Err(ConfigError::MissingVar(cause)),
        Ok(text) => match parse_i64(text.as_str()) {
            Some(v) => Ok(v),
            None => Err(ConfigError::InvalidJwtExpiration),
        },
    }
}

/// Reads a text value: a missing variable keeps its cause.
pub fn text_value(lookup: VarLookup) -> (text: Result<String, ConfigError>)
    ensures
        lookup matches Err(cause) ==> text == Err::<String, ConfigError>(
            ConfigError::MissingVar(cause),
        ),
        lookup matches Ok(t) ==> text == Ok::<String, ConfigError>(t),
{
    match lookup {
        Err(cause) => Err(ConfigError::MissingVar(cause)),
        Ok(t) => Ok(t),
    }
}

/// The configuration that the five values give, or the first failure in
/// the order `DATABASE_URL`, `JWT_SECRET`, `JWT_EXPIRATION_HOURS`,
/// `REFRESH_EXPIRATION_HOURS`, `CLIENT_BASE_URL`.
pub open spec fn spec_from_lookups(
    database_url: VarLookup,
    jwt_secret: VarLookup,
    jwt_expiration_hours: VarLookup,
    refresh_expiration_hours: VarLookup,
    client_url: VarLookup,
) -> Result<Config, ConfigError> {
    match database_url {
        Err(cause) => Err(ConfigError::MissingVar(cause)),
        Ok(database_url) => match jwt_secret {
            Err(cause) => Err(ConfigError::MissingVar(cause)),
            Ok(jwt_secret) => match jwt_expiration_hours {
                Err(cause) => Err(ConfigError::MissingVar(cause)),
                Ok(jwt_text) => match spec_parse_i64(jwt_text@) {
                    None => Err(ConfigError::InvalidJwtExpiration),
                    Some(jwt_hours) => match refresh_expiration_hours {
                        Err(cause) => Err(ConfigError::MissingVar(cause)),
                        Ok(refresh_text) => match spec_parse_i64(refresh_text@) {
                            None => Err(ConfigError::InvalidJwtExpiration),
                            Some(refresh_hours) => match client_url {
                                Err(cause) => Err(ConfigError::MissingVar(cause)),
                                Ok(client_url) => Ok(
                                    Config {
                                        database_url,
                                        jwt_secret,
                                        jwt_expiration_hours: jwt_hours,
                                        refresh_expiration_hours: refresh_hours,
                                        client_url,
                                    },
                                ),
                            },
                        },
                    },
                },
            },
        },
    }
}

impl Config {
    /// Builds the configuration from the values of `DATABASE_URL`,
    /// `JWT_SECRET`, `JWT_EXPIRATION_HOURS`, `REFRESH_EXPIRATION_HOURS` and
    /// `CLIENT_BASE_URL`, read in that order: the first value that is missing
    /// or not a valid number is the error.
    pub fn from_lookups(
        database_url: VarLookup,
        jwt_secret: VarLookup,
        jwt_expiration_hours: VarLookup,
        refresh_expiration_hours: VarLookup,
        client_url: VarLookup,
    ) -> (config: Result<Config, ConfigError>)
        ensures
            config == spec_from_lookups(
                database_url,
                jwt_secret,
                jwt_expiration_hours,
                refresh_expiration_hours,
                client_url,
            ),
    {
        let database_url = text_value(database_url)?;
        let jwt_secret = text_value(jwt_secret)?;
        let jwt_expiration_hours = expiration_hours(jwt_expiration_hours)?;
        let refresh_expiration_hours = expiration_hours(refresh_expiration_hours)?;
        let client_url = text_value(client_url)?;
        Ok(Config {
            database_url,
            jwt_secret,
            jwt_expiration_hours,
            refresh_expiration_hours,
            client_url,
        })
    }
}

} // verus!
