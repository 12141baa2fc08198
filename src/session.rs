//! Session management: credentials, access token lifecycle and the checksum
//! that proves possession of the API secret during token exchange.

use vstd::prelude::*;
use crate::checksum::{checksum, checksum_of};

verus! {

/// Seconds for which an issued access token stays valid (12 hours).
pub const TOKEN_LIFETIME_SECS: i64 = 43200;

/// Relies on chrono::Utc::now: the current Unix time in whole seconds.
/// Nothing is promised about the value: it depends on the clock.
#[verifier::external_body]
fn unix_now() -> (r: i64) {
    chrono::Utc::now().timestamp()
}

/// The brokerage login URL for an API key.
pub open spec fn login_url_of(api_key: Seq<char>) -> Seq<char> {
    "https://kite.trade/connect/login?api_key="@ + api_key + "&v3"@
}

/// Relies on kiteconnect::KiteConnect::login_url, which formats
/// `https://kite.trade/connect/login?api_key={api_key}&v3`.
#[verifier::external_body]
fn kite_login_url(api_key: &str) -> (r: String)
    ensures
        r@ == login_url_of(api_key@),
{
    kiteconnect::connect::KiteConnect::new(api_key, "").login_url()
}

/// Error raised by session operations.
#[derive(Debug, Clone, PartialEq, Eq)]
pub enum AuthError {
    /// The token endpoint answered without a usable `data.access_token`.
    MissingAccessToken,
    /// The token exchange could not be carried out (transport or decoding).
    Transport(String),
}

/// Brokerage credentials and the current session.
pub struct AuthManager {
    pub api_key: String,
    pub api_secret: String,
    pub access_token: Option<String>,
    /// Unix time (seconds) at which `access_token` was issued.
    pub issued_at: Option<i64>,
}

impl AuthManager {
    /// A session holds a token exactly when it records when it was issued.
    pub open spec fn wf(&self) -> bool {
        self.access_token.is_some() == self.issued_at.is_some()
    }

    /// Validity of the session at time `now`.
    pub open spec fn valid_at(&self, now: int) -> bool {
        match self.issued_at {
            Some(t) => now < t + TOKEN_LIFETIME_SECS,
            None => false,
        }
    }

    pub fn new(api_key: String, api_secret: String) -> (r: Self)
        ensures
            r.wf(),
            r.api_key@ == api_key@,
            r.api_secret@ == api_secret@,
            r.access_token.is_none(),
            r.issued_at.is_none(),
    {
        AuthManager { api_key, api_secret, access_token: None, issued_at: None }
    }

    /// The login URL the user visits to obtain a request token.
    pub fn get_login_url(&self) -> (r: String)
        ensures
            r@ == login_url_of(self.api_key@),
    {
        kite_login_url(self.api_key.as_str())
    }

    /// Checksum to send with the exchange of `request_token`.
    pub fn session_checksum(&self, request_token: &str) -> (r: String)
        ensures
            r@ == checksum_of(self.api_key@, request_token@, self.api_secret@),
    {
        checksum(self.api_key.as_str(), request_token, self.api_secret.as_str())
    }

    /// Records `access_token` as issued at time `now`.
    pub fn set_access_token_at(&mut self, access_token: String, now: i64)
        ensures
            final(self).wf(),
            final(self).access_token == Some(access_token),
            final(self).issued_at == Some(now),
            final(self).api_key == old(self).api_key,
            final(self).api_secret == old(self).api_secret,
    {
        self.access_token = Some(access_token);
        self.issued_at = Some(now);
    }

    /// Records `access_token` as issued now.
    pub fn set_access_token(&mut self, access_token: String)
        ensures
            final(self).wf(),
            final(self).access_token == Some(access_token),
            final(self).issued_at.is_some(),
            final(self).api_key == old(self).api_key,
            final(self).api_secret == old(self).api_secret,
    {
        let now = unix_now();
        self.set_access_token_at(access_token, now);
    }

    /// Completes a token exchange with what the token endpoint returned:
    /// `Err(details)` when the exchange itself failed, otherwise the
    /// `data.access_token` field of the answer, if any. A non-empty token
    /// starts a session issued at `now`; on any failure the session is
    /// left exactly as it was.
    pub fn accept_token_response(&mut self, response: Result<Option<String>, String>, now: i64) -> (r: Result<(), AuthError>)
        ensures
            match response {
                Err(d) => r == Err::<(), AuthError>(AuthError::Transport(d)) && *final(self) == *old(self),
                Ok(None) => r == Err::<(), AuthError>(AuthError::MissingAccessToken) && *final(self) == *old(self),
                Ok(Some(t)) => if t@.len() == 0 {
                    r == Err::<(), AuthError>(AuthError::MissingAccessToken) && *final(self) == *old(self)
                } else {
                    r is Ok
                    && final(self).wf()
                    && final(self).access_token == Some(t)
                    && final(self).issued_at == Some(now)
                    && final(self).valid_at(now as int)
                    && final(self).api_key == old(self).api_key
                    && final(self).api_secret == old(self).api_secret
                },
            },
    {
        match response {
            Err(d) => Err(AuthError::Transport(d)),
            Ok(None) => Err(AuthError::MissingAccessToken),
            Ok(Some(t)) => {
                if t.as_str().is_empty() {
                    Err(AuthError::MissingAccessToken)
                } else {
                    self.set_access_token_at(t, now);
                    Ok(())
                }
            },
        }
    }

    /// Whether the session is valid at time `now` (Unix seconds).
    pub fn is_token_valid_at(&self, now: i64) -> (r: bool)
        ensures
            r == self.valid_at(now as int),
    {
        match self.issued_at {
            Some(t) => (now as i128) < (t as i128) + (TOKEN_LIFETIME_SECS as i128),
            None => false,
        }
    }

    /// Whether the session is valid now.
    pub fn is_token_valid(&self) -> (r: bool)
        ensures
            r ==> self.issued_at.is_some(),
            self.issued_at.is_none() ==> !r,
    {
        let now = unix_now();
        self.is_token_valid_at(now)
    }
}

/// Session validity over its lifetime: no session is valid before a token
/// is issued, a token is valid at the moment it is issued, and it stops
/// being valid once twelve hours have passed since its issue.
pub proof fn lemma_session_validity(m: AuthManager, token: String, issued: i64, now: int)
    ensures
        m.issued_at.is_none() ==> !m.valid_at(now),
        (AuthManager { access_token: Some(token), issued_at: Some(issued), ..m }).valid_at(issued as int),
        now >= issued + TOKEN_LIFETIME_SECS ==> !(AuthManager { access_token: Some(token), issued_at: Some(issued), ..m }).valid_at(now),
{
}

} // verus!
