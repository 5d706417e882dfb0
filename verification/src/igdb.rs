//! The game-database client's decisions: token lifetime, acceptance of a
//! freshly fetched token, and the endpoint addresses queries go to.  The
//! transport itself — the identity service and the query calls — stays
//! outside the library.

use vstd::prelude::*;

verus! {

/// An authentication token for the game-database service, as the identity
/// service answers: either a usable token with its expiry, or anything
/// else, which is unusable.
#[derive(Debug, Clone)]
pub enum Token {
    ValidToken { access_token: String, expires_in: u64, token_type: String },
    InvalidToken,
}

impl Token {
    /// Whether the token is unusable at the given time (seconds since the
    /// Unix epoch): an invalid token always is, a valid one from its expiry
    /// on.
    pub open spec fn spec_is_expired_at(&self, timestamp: u64) -> bool {
        match self {
            Token::InvalidToken => true,
            Token::ValidToken { expires_in, .. } => timestamp >= *expires_in,
        }
    }

    /// Whether the token is unusable at the given time.
    pub fn is_expired_at(&self, timestamp: u64) -> (r: bool)
        ensures
            r == self.spec_is_expired_at(timestamp),
    {
        match self {
            Token::InvalidToken => true,
            Token::ValidToken { expires_in, .. } => timestamp >= *expires_in,
        }
    }

    /// Whether the token is unusable now.  The clock is read once; since
    /// nothing is known of its value, only what holds at every time is
    /// promised: an invalid token is expired, and so is one whose expiry
    /// is the epoch itself.
    pub fn is_expired(&self) -> (r: bool)
        ensures
            self is InvalidToken ==> r,
            (self matches Token::ValidToken { expires_in, .. } && expires_in == 0) ==> r,
    {
        let timestamp = now_unix_seconds();
        self.is_expired_at(timestamp)
    }
}

/// Relies on std::time::SystemTime::now: the seconds from the Unix epoch to
/// now, zero for a clock standing before the epoch.  Nothing is assumed of
/// the value.
#[verifier::external_body]
fn now_unix_seconds() -> u64 {
    match std::time::SystemTime::now().duration_since(std::time::UNIX_EPOCH) {
        Ok(d) => d.as_secs(),
        Err(_) => 0,
    }
}

/// The failures of the game-database client.  Transport and decoding
/// failures carry the reporting library's message as plain text.
#[derive(Debug)]
pub enum IGDBClientError {
    BadQueryError { query: String, endpoint: String },
    BadRequestError,
    InternalClientError(String),
    TokenError,
    ResponseDecodeError(String),
}

/// The address queries for the given endpoint are posted to.
pub fn api_endpoint_url(endpoint: &str) -> (r: String)
    ensures
        r@ == "https://api.igdb.com/v4/"@ + endpoint@ + ".pb"@,
{
    let mut s = "https://api.igdb.com/v4/".to_owned();
    s.append(endpoint);
    s.append(".pb");
    s
}

/// Judges a token answer from the identity service: only a valid token is
/// accepted, anything else is the token error.
pub fn accept_token(token: Token) -> (r: Result<Token, IGDBClientError>)
    ensures
        (r is Ok) <==> !(token is InvalidToken),
        r matches Ok(t) ==> t == token,
        r matches Err(e) ==> e is TokenError,
{
    match token {
        Token::InvalidToken => Err(IGDBClientError::TokenError),
        t => Ok(t),
    }
}

} // verus!
