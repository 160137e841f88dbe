//! Credential and authorization-method types: what a client authorizes
//! with, and what it holds once authorized.

use vstd::prelude::*;

use crate::scopes::Scopes;

verus! {

/// What a script app authorizes with: its app id and secret, and the
/// account to log in as.
#[derive(Debug, Clone)]
pub struct ScriptAuthMethod {
    /// The id of the app, as issued by the provider.
    pub id: String,
    /// The secret of the app, as issued by the provider.
    pub secret: String,
    /// The username of the account to log in as.
    pub username: String,
    /// The password of the account to log in as.
    pub password: String,
}

/// The mathematical value of a `ScriptAuthMethod`.
pub struct ScriptAuthMethodV {
    /// The app id.
    pub id: Seq<char>,
    /// The app secret.
    pub secret: Seq<char>,
    /// The account's username.
    pub username: Seq<char>,
    /// The account's password.
    pub password: Seq<char>,
}

impl View for ScriptAuthMethod {
    type V = ScriptAuthMethodV;

    open spec fn view(&self) -> ScriptAuthMethodV {
        ScriptAuthMethodV {
            id: self.id@,
            secret: self.secret@,
            username: self.username@,
            password: self.password@,
        }
    }
}

/// What an installed app authorizes with: its app id, its registered
/// redirect URI, and the scopes it requests. The page shown to the user's
/// browser is rendered by the embedding application, which may use
/// `default_response_body` or a generator of its own.
#[derive(Debug, Clone)]
pub struct InstalledAppAuthMethod {
    /// The id of the app, as issued by the provider.
    pub id: String,
    /// The redirect URI, exactly as registered with the provider.
    pub redirect: String,
    /// The scopes the app requests permission for.
    pub scopes: Scopes,
}

/// The mathematical value of an `InstalledAppAuthMethod`.
pub struct InstalledAppAuthMethodV {
    /// The app id.
    pub id: Seq<char>,
    /// The redirect URI.
    pub redirect: Seq<char>,
    /// The requested scopes.
    pub scopes: Scopes,
}

impl View for InstalledAppAuthMethod {
    type V = InstalledAppAuthMethodV;

    open spec fn view(&self) -> InstalledAppAuthMethodV {
        InstalledAppAuthMethodV { id: self.id@, redirect: self.redirect@, scopes: self.scopes }
    }
}

/// A first authorization, by one of the two supported grant flows.
#[derive(Debug, Clone)]
pub enum AuthMethod {
    /// Authorize as a script app.
    Script(ScriptAuthMethod),
    /// Authorize as an installed app.
    InstalledApp(InstalledAppAuthMethod),
}

/// The authorization state of a script app: a long-lived bearer token,
/// with the identity it was derived from retained so the grant could be
/// repeated.
#[derive(Debug, Clone)]
pub struct ScriptOAuth {
    /// The method the token was obtained with.
    pub method: ScriptAuthMethod,
    /// The current bearer token.
    pub token: String,
}

/// The mathematical value of a `ScriptOAuth`.
pub struct ScriptOAuthV {
    /// The method the token was obtained with.
    pub method: ScriptAuthMethodV,
    /// The bearer token.
    pub token: Seq<char>,
}

impl View for ScriptOAuth {
    type V = ScriptOAuthV;

    open spec fn view(&self) -> ScriptOAuthV {
        ScriptOAuthV { method: self.method@, token: self.token@ }
    }
}

/// The authorization state of an installed app: a bearer token with an
/// optional expiry and an optional refresh token. A token with an expiry
/// but no refresh token cannot be renewed: its expiry is terminal.
#[derive(Debug, Clone)]
pub struct InstalledAppOAuth {
    /// The id of the app, as issued by the provider.
    pub id: String,
    /// The redirect URI, exactly as registered with the provider.
    pub redirect: String,
    /// The current bearer token.
    pub token: String,
    /// The token used to renew the bearer token, when the grant allows it.
    pub refresh_token: Option<String>,
    /// When the bearer token expires, in milliseconds on the caller's
    /// clock, or `None` for a token without expiry.
    pub expires_at: Option<u64>,
}

/// The mathematical value of an `InstalledAppOAuth`.
pub struct InstalledAppOAuthV {
    /// The app id.
    pub id: Seq<char>,
    /// The redirect URI.
    pub redirect: Seq<char>,
    /// The bearer token.
    pub token: Seq<char>,
    /// The refresh token, if the grant allows renewal.
    pub refresh_token: Option<Seq<char>>,
    /// The expiry instant, if the token expires.
    pub expires_at: Option<u64>,
}

impl View for InstalledAppOAuth {
    type V = InstalledAppOAuthV;

    open spec fn view(&self) -> InstalledAppOAuthV {
        InstalledAppOAuthV {
            id: self.id@,
            redirect: self.redirect@,
            token: self.token@,
            refresh_token: match self.refresh_token {
                Some(ref t) => Some(t@),
                None => None,
            },
            expires_at: self.expires_at,
        }
    }
}

/// The authorization state of a client that holds a credential.
#[derive(Debug, Clone)]
pub enum OAuth {
    /// A script app's authorization state.
    Script(ScriptOAuth),
    /// An installed app's authorization state.
    InstalledApp(InstalledAppOAuth),
}

/// The mathematical value of an `OAuth`.
pub enum OAuthV {
    /// A script app's authorization state.
    Script(ScriptOAuthV),
    /// An installed app's authorization state.
    InstalledApp(InstalledAppOAuthV),
}

impl View for OAuth {
    type V = OAuthV;

    open spec fn view(&self) -> OAuthV {
        match self {
            OAuth::Script(s) => OAuthV::Script(s@),
            OAuth::InstalledApp(i) => OAuthV::InstalledApp(i@),
        }
    }
}

/// True when a credential must be treated as expired at time `now`: only
/// an installed-app token with an expiry in the past is expired.
pub open spec fn oauth_expired(a: OAuthV, now: u64) -> bool {
    match a {
        OAuthV::Script(_) => false,
        OAuthV::InstalledApp(i) => match i.expires_at {
            Some(e) => now > e,
            None => false,
        },
    }
}

/// The bearer token a credential presents.
pub open spec fn oauth_token(a: OAuthV) -> Seq<char> {
    match a {
        OAuthV::Script(s) => s.token,
        OAuthV::InstalledApp(i) => i.token,
    }
}

/// The refresh token of an installed-app credential, if it has one.
pub open spec fn oauth_refresh_token(a: OAuthV) -> Option<Seq<char>> {
    match a {
        OAuthV::Script(_) => None,
        OAuthV::InstalledApp(i) => i.refresh_token,
    }
}

/// Copies a string, preserving its characters.
pub fn clone_string(s: &String) -> (r: String)
    ensures
        r@ == s@,
{
    s.clone()
}

/// Copies an optional string, preserving its characters.
pub fn clone_opt_string(s: &Option<String>) -> (r: Option<String>)
    ensures
        match s {
            Some(v) => r matches Some(rv) && rv@ == v@,
            None => r is None,
        },
{
    match s {
        Some(v) => Some(v.clone()),
        None => None,
    }
}

impl ScriptAuthMethod {
    /// A copy of this method with the same value.
    pub fn snapshot(&self) -> (r: ScriptAuthMethod)
        ensures
            r@ == self@,
    {
        ScriptAuthMethod {
            id: self.id.clone(),
            secret: self.secret.clone(),
            username: self.username.clone(),
            password: self.password.clone(),
        }
    }
}

impl OAuth {
    /// A copy of this credential with the same value.
    pub fn snapshot(&self) -> (r: OAuth)
        ensures
            r@ == self@,
    {
        match self {
            OAuth::Script(s) => OAuth::Script(
                ScriptOAuth { method: s.method.snapshot(), token: s.token.clone() },
            ),
            OAuth::InstalledApp(i) => OAuth::InstalledApp(
                InstalledAppOAuth {
                    id: i.id.clone(),
                    redirect: i.redirect.clone(),
                    token: i.token.clone(),
                    refresh_token: clone_opt_string(&i.refresh_token),
                    expires_at: i.expires_at,
                },
            ),
        }
    }
}

} // verus!
