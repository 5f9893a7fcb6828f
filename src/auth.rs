//! Credential lifetime. An access token is valid until five minutes before
//! it expires; the token manager keeps the current one and decides when to
//! refresh it and by which flow. The exchanges themselves go through the
//! transport. Times are whole seconds since the Unix epoch.
use crate::error::{SfError, SfResult};
use crate::http::{auth_error, pair_views, HttpMethod, HttpRequest};
use vstd::prelude::*;

verus! {

/// Seconds before expiry at which a token counts as expired.
pub const EXPIRY_MARGIN_SECS: i64 = 300;

/// OAuth 2.0 client credentials, with the secrets of either flow.
#[derive(Debug, Clone)]
pub struct OAuthCredentials {
    /// OAuth client ID (consumer key).
    pub client_id: String,
    /// OAuth client secret (consumer secret).
    pub client_secret: String,
    /// Refresh token of the refresh-token flow.
    pub refresh_token: Option<String>,
    /// Username of the password flow.
    pub username: Option<String>,
    /// Password and security token of the password flow.
    pub password: Option<String>,
}

/// An access token with its expiry.
#[derive(Debug, Clone)]
pub struct AccessToken {
    token: String,
    expires_at: Option<i64>,
    instance_url: String,
}

pub struct TokenView {
    pub token: Seq<char>,
    pub expires_at: Option<i64>,
    pub instance_url: Seq<char>,
}

impl View for AccessToken {
    type V = TokenView;

    closed spec fn view(&self) -> TokenView {
        TokenView { token: self.token@, expires_at: self.expires_at, instance_url: self.instance_url@ }
    }
}

/// Whether a token is to be treated as expired at `now`: it has an expiry
/// and `now` plus the margin has reached it.
pub open spec fn expired_at(t: TokenView, now: int) -> bool {
    match t.expires_at {
        Some(e) => now + EXPIRY_MARGIN_SECS >= e,
        None => false,
    }
}

/// `now + secs`, held to the range of `i64`.
pub open spec fn expiry_from(now: i64, secs: i64) -> i64 {
    let e = now + secs;
    if e > i64::MAX {
        i64::MAX
    } else if e < i64::MIN {
        i64::MIN
    } else {
        e as i64
    }
}

/// Relies on chrono's `Utc::now` and `DateTime::timestamp`: the current time
/// in seconds since the Unix epoch. Nothing is promised of its value.
#[verifier::external_body]
fn unix_now() -> (r: i64) {
    chrono::Utc::now().timestamp()
}

impl AccessToken {
    /// A token that expires `expires_in` seconds after `now`, or never.
    pub fn new_at(token: String, instance_url: String, expires_in: Option<i64>, now: i64) -> (r: Self)
        ensures
            r@.token == token@,
            r@.instance_url == instance_url@,
            r@.expires_at == match expires_in {
                Some(secs) => Some(expiry_from(now, secs)),
                None => None,
            },
    {
        let expires_at = match expires_in {
            Some(secs) => {
                let e: i128 = now as i128 + secs as i128;
                Some(
                    if e > i64::MAX as i128 {
                        i64::MAX
                    } else if e < i64::MIN as i128 {
                        i64::MIN
                    } else {
                        e as i64
                    },
                )
            },
            None => None,
        };
        AccessToken { token, expires_at, instance_url }
    }

    /// A token that expires `expires_in` seconds from now, or never.
    pub fn new(token: String, instance_url: String, expires_in: Option<i64>) -> (r: Self)
        ensures
            r@.token == token@,
            r@.instance_url == instance_url@,
            r@.expires_at is Some <==> expires_in is Some,
    {
        Self::new_at(token, instance_url, expires_in, unix_now())
    }

    /// Whether the token counts as expired at `now`.
    pub fn is_expired_at(&self, now: i64) -> (r: bool)
        ensures
            r == expired_at(self@, now as int),
    {
        match self.expires_at {
            Some(e) => now as i128 + EXPIRY_MARGIN_SECS as i128 >= e as i128,
            None => false,
        }
    }

    /// Whether the token counts as expired now; never, without an expiry.
    pub fn is_expired(&self) -> (r: bool)
        ensures
            exists|now: i64| r == expired_at(self@, now as int),
            self@.expires_at is None ==> !r,
    {
        let now = unix_now();
        self.is_expired_at(now)
    }

    /// The token value.
    pub fn token(&self) -> (r: &str)
        ensures
            r@ == self@.token,
    {
        self.token.as_str()
    }

    /// The instance the token was issued for.
    pub fn instance_url(&self) -> (r: &str)
        ensures
            r@ == self@.instance_url,
    {
        self.instance_url.as_str()
    }

    /// The expiry, in seconds since the Unix epoch.
    pub fn expires_at(&self) -> (r: Option<i64>)
        ensures
            r == self@.expires_at,
    {
        self.expires_at
    }

    fn duplicate(&self) -> (r: Self)
        ensures
            r@ == self@,
    {
        AccessToken {
            token: self.token.clone(),
            expires_at: self.expires_at,
            instance_url: self.instance_url.clone(),
        }
    }
}

/// The two ways of obtaining a token.
#[derive(Debug, Clone, Copy, PartialEq, Eq)]
pub enum AuthFlow {
    /// Exchange the refresh token.
    RefreshToken,
    /// Exchange username and password.
    Password,
}

/// Keeps the current access token and decides when and how to refresh it.
pub struct TokenManager {
    credentials: OAuthCredentials,
    current_token: Option<AccessToken>,
    auth_url: String,
}

pub open spec fn opt_token_view(t: Option<AccessToken>) -> Option<TokenView> {
    match t {
        Some(a) => Some(a@),
        None => None,
    }
}

/// The token that can be used at `now` without a refresh, if any.
pub open spec fn usable_token(current: Option<TokenView>, now: int) -> Option<TokenView> {
    match current {
        Some(t) => if expired_at(t, now) {
            None
        } else {
            Some(t)
        },
        None => None,
    }
}

pub open spec fn password_configured(c: OAuthCredentials) -> bool {
    c.username is Some && c.password is Some
}

/// The flow to try after `failed` failed (or first, for `None`): the
/// refresh-token flow when a refresh token is configured, then the
/// password flow when username and password are.
pub open spec fn flow_after_spec(c: OAuthCredentials, failed: Option<AuthFlow>) -> Option<AuthFlow> {
    match failed {
        None => if c.refresh_token is Some {
            Some(AuthFlow::RefreshToken)
        } else if password_configured(c) {
            Some(AuthFlow::Password)
        } else {
            None
        },
        Some(AuthFlow::RefreshToken) => if password_configured(c) {
            Some(AuthFlow::Password)
        } else {
            None
        },
        Some(AuthFlow::Password) => None,
    }
}

pub open spec fn token_url_text(auth_url: Seq<char>) -> Seq<char> {
    auth_url + "/services/oauth2/token"@
}

fn pair(k: &str, v: &str) -> (r: (String, String))
    ensures
        r.0@ == k@,
        r.1@ == v@,
{
    (k.to_owned(), v.to_owned())
}

impl TokenManager {
    /// A manager for production logins, holding no token yet.
    pub fn new(credentials: OAuthCredentials) -> (r: Self)
        ensures
            r.credentials() == credentials,
            r.auth_url() == "https://login.salesforce.com"@,
            r.current() is None,
    {
        TokenManager { credentials, current_token: None, auth_url: "https://login.salesforce.com".to_owned() }
    }

    /// A manager for sandbox logins, holding no token yet.
    pub fn sandbox(credentials: OAuthCredentials) -> (r: Self)
        ensures
            r.credentials() == credentials,
            r.auth_url() == "https://test.salesforce.com"@,
            r.current() is None,
    {
        let mut manager = Self::new(credentials);
        manager.auth_url = "https://test.salesforce.com".to_owned();
        manager
    }

    pub closed spec fn credentials(&self) -> OAuthCredentials {
        self.credentials
    }

    pub closed spec fn auth_url(&self) -> Seq<char> {
        self.auth_url@
    }

    /// The token held, if any.
    pub closed spec fn current(&self) -> Option<TokenView> {
        opt_token_view(self.current_token)
    }

    /// A copy of the held token when it is still valid at `now`; `None`
    /// means a refresh is due.
    pub fn cached_token_at(&self, now: i64) -> (r: Option<AccessToken>)
        ensures
            opt_token_view(r) == usable_token(self.current(), now as int),
    {
        match &self.current_token {
            Some(t) => {
                if t.is_expired_at(now) {
                    None
                } else {
                    Some(t.duplicate())
                }
            },
            None => None,
        }
    }

    /// A copy of the held token when it is still valid now.
    pub fn cached_token(&self) -> (r: Option<AccessToken>)
        ensures
            exists|now: i64| opt_token_view(r) == usable_token(self.current(), now as int),
    {
        self.cached_token_at(unix_now())
    }

    /// Keeps `token` as the current one.
    pub fn install(&mut self, token: AccessToken)
        ensures
            final(self).current() == Some(token@),
            final(self).credentials() == old(self).credentials(),
            final(self).auth_url() == old(self).auth_url(),
    {
        self.current_token = Some(token);
    }

    /// Drops the current token, so that the next request refreshes.
    pub fn invalidate(&mut self)
        ensures
            final(self).current() is None,
            final(self).credentials() == old(self).credentials(),
            final(self).auth_url() == old(self).auth_url(),
    {
        self.current_token = None;
    }

    /// The flow to try after `failed` failed (first, for `None`), or the
    /// `Auth` error when none is left to try.
    pub fn flow_after(&self, failed: Option<AuthFlow>) -> (r: SfResult<AuthFlow>)
        ensures
            match flow_after_spec(self.credentials(), failed) {
                Some(f) => r == Ok::<AuthFlow, SfError>(f),
                None => auth_error(r, "No valid authentication method available"@),
            },
    {
        let password = self.credentials.username.is_some() && self.credentials.password.is_some();
        let next = match failed {
            None => if self.credentials.refresh_token.is_some() {
                Some(AuthFlow::RefreshToken)
            } else if password {
                Some(AuthFlow::Password)
            } else {
                None
            },
            Some(AuthFlow::RefreshToken) => if password {
                Some(AuthFlow::Password)
            } else {
                None
            },
            Some(AuthFlow::Password) => None,
        };
        match next {
            Some(f) => Ok(f),
            None => Err(SfError::Auth("No valid authentication method available".to_owned())),
        }
    }

    fn token_url(&self) -> (r: String)
        ensures
            r@ == token_url_text(self.auth_url@),
    {
        let mut url = self.auth_url.clone();
        url.append("/services/oauth2/token");
        url
    }

    /// The request of the refresh-token flow: a form POST to the token
    /// endpoint with the client credentials and `refresh_token`.
    pub fn refresh_token_request(&self, refresh_token: &str) -> (r: HttpRequest)
        ensures
            r.method == HttpMethod::Post,
            r.url@ == token_url_text(self.auth_url()),
            r.headers@.len() == 0,
            r.query@.len() == 0,
            pair_views(r.form@) == seq![
                ("grant_type"@, "refresh_token"@),
                ("client_id"@, self.credentials().client_id@),
                ("client_secret"@, self.credentials().client_secret@),
                ("refresh_token"@, refresh_token@),
            ],
    {
        let mut form: Vec<(String, String)> = Vec::new();
        form.push(pair("grant_type", "refresh_token"));
        form.push(pair("client_id", self.credentials.client_id.as_str()));
        form.push(pair("client_secret", self.credentials.client_secret.as_str()));
        form.push(pair("refresh_token", refresh_token));
        proof {
            assert(pair_views(form@) =~= seq![
                ("grant_type"@, "refresh_token"@),
                ("client_id"@, self.credentials().client_id@),
                ("client_secret"@, self.credentials().client_secret@),
                ("refresh_token"@, refresh_token@),
            ]);
        }
        HttpRequest {
            method: HttpMethod::Post,
            url: self.token_url(),
            headers: Vec::new(),
            query: Vec::new(),
            form,
        }
    }

    /// The request of the password flow, or the `Auth` error naming what is
    /// not configured.
    pub fn password_request(&self) -> (r: SfResult<HttpRequest>)
        ensures
            self.credentials().username is None ==> auth_error(r, "Username not provided"@),
            self.credentials().username is Some && self.credentials().password is None
                ==> auth_error(r, "Password not provided"@),
            password_configured(self.credentials()) ==> r is Ok && {
                let q = r.unwrap();
                &&& q.method == HttpMethod::Post
                &&& q.url@ == token_url_text(self.auth_url())
                &&& q.headers@.len() == 0
                &&& q.query@.len() == 0
                &&& pair_views(q.form@) == seq![
                    ("grant_type"@, "password"@),
                    ("client_id"@, self.credentials().client_id@),
                    ("client_secret"@, self.credentials().client_secret@),
                    ("username"@, self.credentials().username.unwrap()@),
                    ("password"@, self.credentials().password.unwrap()@),
                ]
            },
    {
        let username = match &self.credentials.username {
            Some(u) => u,
            None => {
                return Err(SfError::Auth("Username not provided".to_owned()));
            },
        };
        let password = match &self.credentials.password {
            Some(p) => p,
            None => {
                return Err(SfError::Auth("Password not provided".to_owned()));
            },
        };
        let mut form: Vec<(String, String)> = Vec::new();
        form.push(pair("grant_type", "password"));
        form.push(pair("client_id", self.credentials.client_id.as_str()));
        form.push(pair("client_secret", self.credentials.client_secret.as_str()));
        form.push(pair("username", username.as_str()));
        form.push(pair("password", password.as_str()));
        proof {
            assert(pair_views(form@) =~= seq![
                ("grant_type"@, "password"@),
                ("client_id"@, self.credentials().client_id@),
                ("client_secret"@, self.credentials().client_secret@),
                ("username"@, self.credentials().username.unwrap()@),
                ("password"@, self.credentials().password.unwrap()@),
            ]);
        }
        Ok(
            HttpRequest {
                method: HttpMethod::Post,
                url: self.token_url(),
                headers: Vec::new(),
                query: Vec::new(),
                form,
            },
        )
    }

    /// Reads the status of a token exchange: `Ok` on success, else the
    /// `Auth` error of the flow, with the response body appended.
    pub fn check_token_response(flow: AuthFlow, status: u16, body: &str) -> (r: SfResult<()>)
        ensures
            r is Ok <==> crate::http::success_status(status),
            !crate::http::success_status(status) ==> auth_error(
                r,
                match flow {
                    AuthFlow::RefreshToken => "Token refresh failed: "@,
                    AuthFlow::Password => "Authentication failed: "@,
                } + body@,
            ),
    {
        if crate::http::is_success(status) {
            return Ok(());
        }
        let mut message = match flow {
            AuthFlow::RefreshToken => "Token refresh failed: ".to_owned(),
            AuthFlow::Password => "Authentication failed: ".to_owned(),
        };
        message.append(body);
        Err(SfError::Auth(message))
    }
}

/// A token handed out at `expiry - 6 min` is still valid and needs no
/// refresh; at `expiry - 4 min` it is due for one.
pub proof fn lemma_refresh_margin(t: TokenView, expiry: i64)
    requires
        t.expires_at == Some(expiry),
    ensures
        usable_token(Some(t), expiry - 360) == Some(t),
        usable_token(Some(t), expiry - 240) is None,
{
}

/// A token without expiry never needs a refresh.
pub proof fn lemma_no_expiry_never_refreshes(t: TokenView, now: int)
    requires
        t.expires_at is None,
    ensures
        usable_token(Some(t), now) == Some(t),
{
}

/// One refresh serves every caller that re-checks after it: once a
/// refreshed token expiring at `expiry` is installed, a re-check at any time
/// before its margin is reached finds it, so no second refresh is made.
pub proof fn lemma_refresh_serves_rechecks(t: TokenView, expiry: i64, later: int)
    requires
        t.expires_at == Some(expiry),
        later + EXPIRY_MARGIN_SECS < expiry,
    ensures
        usable_token(Some(t), later) == Some(t),
{
}

} // verus!
