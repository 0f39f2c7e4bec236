use gogdl::auth::{Auth, AuthError, GogTokenResponse};
use gogdl::session::SessionError;

fn token(access: &str, refresh: &str) -> GogTokenResponse {
    GogTokenResponse {
        expires_in: 3600,
        scope: String::from("openid"),
        token_type: String::from("bearer"),
        access_token: String::from(access),
        user_id: String::from("user-1"),
        refresh_token: String::from(refresh),
        session_id: String::from("sess-1"),
    }
}

#[test]
fn refresh_without_token_fails_with_no_auth_token() {
    let auth = Auth::new();
    match auth.refresh_request_url() {
        Err(AuthError::NoAuthToken) => {}
        Err(AuthError::RefreshTokenError(m)) => panic!("wrong error: {m}"),
        Ok(url) => panic!("refresh without a token produced a request: {url}"),
    }
}

#[test]
fn get_token_without_login_fails_with_no_auth_token() {
    let auth = Auth::new();
    match auth.get_token() {
        Err(AuthError::NoAuthToken) => {}
        _ => panic!("an empty store must report NoAuthToken"),
    }
}

#[test]
fn login_url_embeds_the_encoded_code_last() {
    let url = Auth::login_url("abc").expect("ASCII code");
    assert_eq!(
        url,
        "https://auth.gog.com/token?client_id=46899977096215655&client_secret=SECRET-REDACTED&grant_type=authorization_code&redirect_uri=https%3A%2F%2Fembed.gog.com%2Fon_login_success%3Forigin%3Dclient&code=abc"
    );
}

#[test]
fn login_url_percent_encodes_reserved_characters() {
    let url = Auth::login_url("a b/c=d").expect("ASCII code");
    assert!(url.ends_with("&code=a%20b%2Fc%3Dd"));
}

#[test]
fn login_url_rejects_non_ascii_codes() {
    assert!(Auth::login_url("c\u{00f6}de").is_none());
}

#[test]
fn complete_login_installs_the_returned_token() {
    let mut auth = Auth::new();
    let r = auth.complete_login(Ok(token("acc-1", "ref-1")));
    assert!(r.is_ok());
    let t = auth.get_token().expect("token installed");
    assert_eq!(t.access_token, "acc-1");
    assert_eq!(t.refresh_token, "ref-1");
}

#[test]
fn failed_login_changes_nothing_and_propagates_the_error() {
    let mut auth = Auth::new();
    let r = auth.complete_login(Err(SessionError::HttpError(401)));
    match r {
        Err(SessionError::HttpError(401)) => {}
        _ => panic!("the transport error must come back verbatim"),
    }
    assert!(auth.get_token().is_err());
}

#[test]
fn refresh_request_url_uses_the_current_refresh_token() {
    let mut auth = Auth::new();
    auth.recover_session(&token("acc-1", "ref&1"));
    let url = auth.refresh_request_url().expect("token held");
    assert_eq!(
        url,
        "https://auth.gog.com/token?client_id=46899977096215655&client_secret=SECRET-REDACTED&grant_type=refresh_token&refresh_token=ref%261"
    );
}

#[test]
fn successful_refresh_replaces_the_whole_token_set() {
    let mut auth = Auth::new();
    auth.recover_session(&token("old-access", "old-refresh"));
    let r = auth.complete_refresh(Ok(token("new-access", "new-refresh")));
    assert!(r.is_ok());
    let t = auth.get_token().expect("token held");
    // The observed pair is the fully-new one, never a mixture.
    assert_eq!(
        (t.access_token.as_str(), t.refresh_token.as_str()),
        ("new-access", "new-refresh")
    );
}

#[test]
fn failed_refresh_keeps_the_prior_token_untouched() {
    let mut auth = Auth::new();
    auth.recover_session(&token("old-access", "old-refresh"));
    let r = auth.complete_refresh(Err(SessionError::NetworkError(String::from("timed out"))));
    match r {
        Err(AuthError::RefreshTokenError(m)) => {
            assert_eq!(m, "Network error: timed out");
        }
        _ => panic!("a failed refresh is a RefreshTokenError"),
    }
    let t = auth.get_token().expect("prior token still held");
    // The observed pair is the fully-old one, never a mixture.
    assert_eq!(
        (t.access_token.as_str(), t.refresh_token.as_str()),
        ("old-access", "old-refresh")
    );
}

#[test]
fn recover_session_overwrites_unconditionally() {
    let mut auth = Auth::new();
    auth.recover_session(&token("first", "r1"));
    auth.recover_session(&token("second", "r2"));
    let t = auth.get_token().expect("token held");
    assert_eq!(t.access_token, "second");
    assert_eq!(t.session_id, "sess-1");
    assert_eq!(t.user_id, "user-1");
    assert_eq!(t.scope, "openid");
    assert_eq!(t.token_type, "bearer");
    assert_eq!(t.expires_in, 3600);
}

#[test]
fn auth_error_messages() {
    assert_eq!(AuthError::NoAuthToken.message(), "No auth token, have you logged in?");
    assert_eq!(
        AuthError::RefreshTokenError(String::from("boom")).message(),
        "Failed to refresh token: boom"
    );
}
