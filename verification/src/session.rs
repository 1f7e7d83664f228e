//! The credential session: an access token with its decoded expiry and a
//! refresh token. The expiry is read from the token's unverified `exp` claim
//! (epoch milliseconds); the session trusts the issuing server and performs
//! no signature check.

use vstd::prelude::*;

use chrono::TimeZone;

verus! {

/// Failures of the credential lifecycle.
#[derive(Clone, Copy, Debug, PartialEq, Eq, Structural)]
pub enum AuthError {
    /// The server rejected the identifier/secret pair at login.
    InvalidCredentials,
    /// An issued access token has no readable in-range `exp` claim.
    MalformedToken,
    /// The refresh call itself failed; the stored session is untouched.
    RefreshFailed,
    /// A network failure outside the refresh path.
    NetworkFailure,
    /// The shared session state could not be read (lock contention or
    /// poisoning in the embedding program).
    SessionUnavailable,
}

/// The `exp` claim that an unverified decode of the given token yields, in
/// epoch milliseconds; `None` when the token, its claims, or the claim value
/// cannot be decoded.
pub uninterp spec fn spec_exp_claim(token: Seq<char>) -> Option<i64>;

/// Whether a millisecond timestamp lies in the range that the calendar
/// library accepts as an instant.
pub uninterp spec fn spec_millis_in_range(ms: i64) -> bool;

/// Whether a token decodes to an expiry instant a session can store.
pub open spec fn token_decodes(token: Seq<char>) -> bool {
    match spec_exp_claim(token) {
        Some(e) => spec_millis_in_range(e),
        None => false,
    }
}

/// Relies on jwt's `Token::parse_unverified` (split at '.', base64url
/// decode, JSON decode of header and claims) and serde_json's `Value::get`
/// and `Value::as_i64` to read the standard `exp` claim: the result depends
/// on the token string alone.
#[verifier::external_body]
fn decode_exp_claim(token: &str) -> (r: Option<i64>)
    ensures
        r == spec_exp_claim(token@),
{
    match jwt::Token::<jwt::Header, serde_json::Value, _>::parse_unverified(token) {
        Ok(t) => t.claims().get("exp").and_then(|v| v.as_i64()),
        Err(_) => None,
    }
}

/// Relies on chrono's `Utc.timestamp_millis_opt`: whether a millisecond
/// timestamp is representable as a calendar instant depends on the value
/// alone.
#[verifier::external_body]
fn millis_in_range(ms: i64) -> (b: bool)
    ensures
        b == spec_millis_in_range(ms),
{
    chrono::Utc.timestamp_millis_opt(ms).earliest().is_some()
}

/// Decode the expiry instant of an access token from its unverified `exp`
/// claim, rejecting a token whose claim is absent, unreadable, or out of
/// calendar range.
pub fn get_token_expiration(jwt_string: &str) -> (r: Result<i64, AuthError>)
    ensures
        match r {
            Ok(e) => spec_exp_claim(jwt_string@) == Some(e) && spec_millis_in_range(e),
            Err(a) => a == AuthError::MalformedToken && !token_decodes(jwt_string@),
        },
{
    match decode_exp_claim(jwt_string) {
        Some(e) => {
            if millis_in_range(e) {
                Ok(e)
            } else {
                Err(AuthError::MalformedToken)
            }
        },
        None => Err(AuthError::MalformedToken),
    }
}

/// The stored credential session.
pub struct BSkySession {
    /// The short-lived access token attached to ordinary requests.
    pub access_jwt: String,
    /// The instant (epoch milliseconds) at which `access_jwt` expires,
    /// decoded from the token's own `exp` claim.
    pub access_jwt_exp: i64,
    /// The longer-lived token attached to the refresh call.
    pub refresh_jwt: String,
}

impl BSkySession {
    /// The stored expiry always reflects the `exp` claim of the currently
    /// stored access token.
    pub open spec fn wf(self) -> bool {
        &&& spec_exp_claim(self.access_jwt@) == Some(self.access_jwt_exp)
        &&& spec_millis_in_range(self.access_jwt_exp)
    }

    /// The fields of two session values agree.
    pub open spec fn same_session(self, other: BSkySession) -> bool {
        &&& self.access_jwt@ == other.access_jwt@
        &&& self.access_jwt_exp == other.access_jwt_exp
        &&& self.refresh_jwt@ == other.refresh_jwt@
    }

    /// Build a session from a freshly issued token pair, decoding the access
    /// token's expiry; a pair whose access token has no readable in-range
    /// `exp` claim yields no session.
    pub fn from_tokens(access_jwt: String, refresh_jwt: String) -> (r: Result<
        BSkySession,
        AuthError,
    >)
        ensures
            match r {
                Ok(s) => s.wf() && s.access_jwt@ == access_jwt@ && s.refresh_jwt@ == refresh_jwt@
                    && spec_exp_claim(access_jwt@) == Some(s.access_jwt_exp),
                Err(a) => a == AuthError::MalformedToken && !token_decodes(access_jwt@),
            },
    {
        match get_token_expiration(access_jwt.as_str()) {
            Ok(exp) => Ok(BSkySession { access_jwt, access_jwt_exp: exp, refresh_jwt }),
            Err(a) => Err(a),
        }
    }

    /// Whether the access token has expired at the given instant.
    pub fn is_expired(&self, now_ms: i64) -> (b: bool)
        ensures
            b == (now_ms > self.access_jwt_exp),
    {
        now_ms > self.access_jwt_exp
    }

    /// The token to attach to an outbound request: the refresh token for the
    /// refresh call itself, the access token for every other call.
    pub fn auth_token(&self, is_refresh: bool) -> (t: &String)
        ensures
            t@ == if is_refresh {
                self.refresh_jwt@
            } else {
                self.access_jwt@
            },
    {
        if is_refresh {
            &self.refresh_jwt
        } else {
            &self.access_jwt
        }
    }

    /// Replace this session with one built from refreshed tokens, as one
    /// atomic step; on a decode failure the stored session is unchanged.
    pub fn install_refreshed(&mut self, access_jwt: String, refresh_jwt: String) -> (r: Result<
        (),
        AuthError,
    >)
        ensures
            match r {
                Ok(()) => {
                    &&& final(self).wf()
                    &&& final(self).access_jwt@ == access_jwt@
                    &&& final(self).refresh_jwt@ == refresh_jwt@
                    &&& spec_exp_claim(access_jwt@) == Some(final(self).access_jwt_exp)
                },
                Err(a) => {
                    &&& a == AuthError::MalformedToken
                    &&& !token_decodes(access_jwt@)
                    &&& final(self).same_session(*old(self))
                },
            },
    {
        match BSkySession::from_tokens(access_jwt, refresh_jwt) {
            Ok(s) => {
                *self = s;
                Ok(())
            },
            Err(a) => Err(a),
        }
    }
}

/// Law: a refresh that installs an access token whose `exp` claim is later
/// than the stored expiry leaves the session with a strictly later expiry
/// and a different access token, since the stored expiry is always decoded
/// from the stored token itself.
pub proof fn lemma_refresh_extends_session(
    pre: BSkySession,
    post: BSkySession,
    access_jwt: Seq<char>,
)
    requires
        pre.wf(),
        post.wf(),
        post.access_jwt@ == access_jwt,
        spec_exp_claim(access_jwt) matches Some(e) && e > pre.access_jwt_exp,
    ensures
        post.access_jwt_exp > pre.access_jwt_exp,
        post.access_jwt@ != pre.access_jwt@,
{
}

} // verus!
