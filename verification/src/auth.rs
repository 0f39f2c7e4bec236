//! The authorization store: the token set obtained at login, replaced
//! wholesale on refresh, and handed out as a snapshot to every component
//! that needs bearer authorization. A refresh that fails leaves the prior
//! token untouched; a reader therefore always sees a complete token set,
//! either the old one or the new one.

use vstd::prelude::*;
use vstd::string::*;
use vstd::utf8::is_ascii_chars;
use crate::session::{spec_session_message, SessionError};
use crate::strings::{append_percent_encoded, spec_pct};

verus! {

/// The OAuth-style token set the authorization endpoint returns.
pub struct GogTokenResponse {
    pub expires_in: i64,
    pub scope: String,
    pub token_type: String,
    pub access_token: String,
    pub user_id: String,
    pub refresh_token: String,
    pub session_id: String,
}

/// The mathematical value of a token set.
pub struct TokenView {
    pub expires_in: i64,
    pub scope: Seq<char>,
    pub token_type: Seq<char>,
    pub access_token: Seq<char>,
    pub user_id: Seq<char>,
    pub refresh_token: Seq<char>,
    pub session_id: Seq<char>,
}

impl View for GogTokenResponse {
    type V = TokenView;

    open spec fn view(&self) -> TokenView {
        TokenView {
            expires_in: self.expires_in,
            scope: self.scope@,
            token_type: self.token_type@,
            access_token: self.access_token@,
            user_id: self.user_id@,
            refresh_token: self.refresh_token@,
            session_id: self.session_id@,
        }
    }
}

/// An authorization failure: no token has ever been installed, or the
/// server rejected a refresh.
#[derive(Debug)]
pub enum AuthError {
    NoAuthToken,
    RefreshTokenError(String),
}

impl AuthError {
    /// A human-readable description of the error.
    pub fn message(&self) -> (r: String)
        ensures
            self is NoAuthToken ==> r@ == "No auth token, have you logged in?"@,
            self matches AuthError::RefreshTokenError(err) ==> r@ == "Failed to refresh token: "@
                + err@,
    {
        match self {
            AuthError::NoAuthToken => "No auth token, have you logged in?".to_owned(),
            AuthError::RefreshTokenError(err) => {
                let mut out = "Failed to refresh token: ".to_owned();
                out.append(err.as_str());
                out
            },
        }
    }
}

/// A complete copy of a token set, field by field.
fn copy_token(t: &GogTokenResponse) -> (r: GogTokenResponse)
    ensures
        r@ == t@,
{
    GogTokenResponse {
        expires_in: t.expires_in,
        scope: t.scope.clone(),
        token_type: t.token_type.clone(),
        access_token: t.access_token.clone(),
        user_id: t.user_id.clone(),
        refresh_token: t.refresh_token.clone(),
        session_id: t.session_id.clone(),
    }
}

/// The query a one-time login code is exchanged with. The fixed client
/// credentials, grant type and redirect target are baked in; the code is
/// percent-encoded at the end.
pub open spec fn spec_login_url(code: Seq<char>) -> Seq<char> {
    "https://auth.gog.com/token?client_id=46899977096215655&client_secret=SECRET-REDACTED&grant_type=authorization_code&redirect_uri=https%3A%2F%2Fembed.gog.com%2Fon_login_success%3Forigin%3Dclient&code="@
        + spec_pct(code)
}

/// The query a refresh token is exchanged with.
pub open spec fn spec_refresh_url(refresh_token: Seq<char>) -> Seq<char> {
    "https://auth.gog.com/token?client_id=46899977096215655&client_secret=SECRET-REDACTED&grant_type=refresh_token&refresh_token="@
        + spec_pct(refresh_token)
}

/// How a completed refresh attempt relates the store's token before and
/// after: a successful exchange installs the response wholesale, a failed
/// one leaves the previous token exactly as it was.
pub open spec fn spec_refresh_transition(
    pre: Option<TokenView>,
    resp: Result<TokenView, SessionError>,
    post: Option<TokenView>,
) -> bool {
    match resp {
        Ok(t) => post == Some(t),
        Err(_) => post == pre,
    }
}

/// The authorization store. It holds at most one current token set and
/// replaces it only wholesale.
pub struct Auth {
    pub token: Option<GogTokenResponse>,
}

impl Auth {
    /// The store's current token, as a mathematical value.
    pub open spec fn token_view(&self) -> Option<TokenView> {
        match self.token {
            Some(ref t) => Some(t@),
            None => None,
        }
    }

    /// A store that has seen no login yet.
    pub fn new() -> (r: Self)
        ensures
            r.token_view() is None,
    {
        Auth { token: None }
    }

    /// A snapshot of the current token set; fails when none has ever been
    /// installed.
    pub fn get_token(&self) -> (r: Result<GogTokenResponse, AuthError>)
        ensures
            r is Ok <==> self.token_view() is Some,
            r matches Ok(t) ==> self.token_view() == Some(t@),
            r matches Err(e) ==> e is NoAuthToken,
    {
        match &self.token {
            Some(t) => Ok(copy_token(t)),
            None => Err(AuthError::NoAuthToken),
        }
    }

    /// Installs an externally restored token set, overwriting any current
    /// one unconditionally.
    pub fn recover_session(&mut self, token: &GogTokenResponse)
        ensures
            final(self).token_view() == Some(token@),
    {
        self.token = Some(copy_token(token));
    }

    /// The URL a one-time login code is exchanged at. Only an ASCII code
    /// has a percent-encoding here, so any other code is rejected.
    pub fn login_url(code: &str) -> (r: Option<String>)
        ensures
            r is Some <==> is_ascii_chars(code@),
            r matches Some(u) ==> u@ == spec_login_url(code@),
    {
        if code.is_ascii() {
            let mut out =
                "https://auth.gog.com/token?client_id=46899977096215655&client_secret=SECRET-REDACTED&grant_type=authorization_code&redirect_uri=https%3A%2F%2Fembed.gog.com%2Fon_login_success%3Forigin%3Dclient&code=".to_owned();
            append_percent_encoded(&mut out, code);
            Some(out)
        } else {
            None
        }
    }

    /// Completes a login attempt: a successful exchange installs the
    /// returned token set, a failed one changes nothing and propagates the
    /// transport error verbatim.
    pub fn complete_login(&mut self, resp: Result<GogTokenResponse, SessionError>) -> (r: Result<
        (),
        SessionError,
    >)
        ensures
            resp matches Ok(t) ==> final(self).token_view() == Some(t@) && r is Ok,
            resp matches Err(e) ==> final(self).token_view() == old(self).token_view() && r
                == Err::<(), SessionError>(e),
    {
        match resp {
            Ok(t) => {
                self.token = Some(t);
                Ok(())
            },
            Err(e) => Err(e),
        }
    }

    /// The URL the current refresh token is exchanged at. Fails with
    /// `NoAuthToken` when no token set is held; a refresh token without a
    /// percent-encoding (non-ASCII) is reported as a refresh failure.
    pub fn refresh_request_url(&self) -> (r: Result<String, AuthError>)
        ensures
            self.token_view() is None <==> r == Err::<String, AuthError>(AuthError::NoAuthToken),
            self.token_view() matches Some(t) ==> {
                &&& is_ascii_chars(t.refresh_token) ==> (r matches Ok(u) && u@ == spec_refresh_url(
                    t.refresh_token,
                ))
                &&& !is_ascii_chars(t.refresh_token) ==> (r matches Err(e)
                    && e is RefreshTokenError)
            },
    {
        match &self.token {
            None => Err(AuthError::NoAuthToken),
            Some(t) => {
                if t.refresh_token.is_ascii() {
                    let mut out =
                        "https://auth.gog.com/token?client_id=46899977096215655&client_secret=SECRET-REDACTED&grant_type=refresh_token&refresh_token=".to_owned();
                    append_percent_encoded(&mut out, t.refresh_token.as_str());
                    Ok(out)
                } else {
                    Err(AuthError::RefreshTokenError("refresh token is not ASCII".to_owned()))
                }
            },
        }
    }

    /// Completes a refresh attempt: a successful exchange replaces the
    /// whole token set, a failed one leaves the prior token untouched and
    /// wraps the underlying error's description.
    pub fn complete_refresh(&mut self, resp: Result<GogTokenResponse, SessionError>) -> (r: Result<
        (),
        AuthError,
    >)
        ensures
            spec_refresh_transition(
                old(self).token_view(),
                match resp {
                    Ok(t) => Ok(t@),
                    Err(e) => Err(e),
                },
                final(self).token_view(),
            ),
            resp is Ok <==> r is Ok,
            resp matches Err(se) ==> (r matches Err(ae) && ae matches
                AuthError::RefreshTokenError(m) && m@ == spec_session_message(se)),
    {
        match resp {
            Ok(t) => {
                self.token = Some(t);
                Ok(())
            },
            Err(e) => Err(AuthError::RefreshTokenError(e.message())),
        }
    }

    /// A reader that takes a snapshot before or after a refresh completes
    /// sees a complete token set: the fully-old one or the fully-new one,
    /// never a mixture of their fields.
    pub proof fn lemma_refresh_atomic(
        pre: Option<TokenView>,
        resp: Result<TokenView, SessionError>,
        post: Option<TokenView>,
    )
        requires
            spec_refresh_transition(pre, resp, post),
        ensures
            post == pre || (resp matches Ok(t) && post == Some(t)),
    {
    }
}

} // verus!
