//! The credential store: holds at most one credential, decides before each
//! authorized request whether the held token can be attached, and guards
//! the refresh exchange so that of two callers who both observe an expired
//! token, only one performs the exchange.
//!
//! The store is actor-owned: one owner serializes all access to it, and
//! the embedding application keeps it behind its own lock when requests
//! are issued concurrently. The decision functions here are total, so any
//! interleaving of calls observes the stated contracts.

use vstd::prelude::*;

use crate::credential::InstalledAppOAuth;
use crate::credential::OAuth;
use crate::credential::OAuthV;
use crate::credential::InstalledAppOAuthV;
use crate::credential::clone_opt_string;
use crate::credential::oauth_expired;
use crate::credential::oauth_refresh_token;
use crate::credential::oauth_token;
use crate::engine::TokenExchangeEvent;
use crate::engine::TokenExchangeEventV;
use crate::engine::spec_refresh_outcome;
use crate::engine::status_success;
use crate::errors::AuthError;
use crate::outside::read_token_fields;
use crate::outside::token_fields_of;

verus! {

/// Holds at most one credential, and whether a refresh exchange is in
/// flight.
pub struct CredentialStore {
    auth: Option<OAuth>,
    refreshing: bool,
}

/// The mathematical value of a `CredentialStore`.
pub struct CredentialStoreV {
    /// The held credential.
    pub auth: Option<OAuthV>,
    /// True while a refresh exchange is in flight.
    pub refreshing: bool,
}

impl View for CredentialStore {
    type V = CredentialStoreV;

    closed spec fn view(&self) -> CredentialStoreV {
        CredentialStoreV {
            auth: match self.auth {
                Some(ref a) => Some(a@),
                None => None,
            },
            refreshing: self.refreshing,
        }
    }
}

/// What one authorized request must do next, as decided by the store.
pub enum AuthStep {
    /// Attach this bearer token and send.
    Bearer(String),
    /// Perform a refresh exchange with this app id and refresh token, then
    /// report its outcome through `finish_refresh`.
    RefreshNeeded { id: String, refresh_token: String },
    /// Another caller's refresh exchange is in flight: wait for it and ask
    /// again.
    Busy,
    /// No credential is held.
    NoCredential,
    /// The credential is expired and has no refresh token: terminal until
    /// a full re-authorization.
    Expired,
}

/// The mathematical value of an `AuthStep`.
pub enum AuthStepV {
    /// Attach this bearer token and send.
    Bearer(Seq<char>),
    /// Perform a refresh exchange with this app id and refresh token.
    RefreshNeeded { id: Seq<char>, refresh_token: Seq<char> },
    /// A refresh exchange is already in flight.
    Busy,
    /// No credential is held.
    NoCredential,
    /// Expired with no refresh path.
    Expired,
}

impl View for AuthStep {
    type V = AuthStepV;

    open spec fn view(&self) -> AuthStepV {
        match self {
            AuthStep::Bearer(t) => AuthStepV::Bearer(t@),
            AuthStep::RefreshNeeded { id, refresh_token } => AuthStepV::RefreshNeeded {
                id: id@,
                refresh_token: refresh_token@,
            },
            AuthStep::Busy => AuthStepV::Busy,
            AuthStep::NoCredential => AuthStepV::NoCredential,
            AuthStep::Expired => AuthStepV::Expired,
        }
    }
}

/// The app id a credential belongs to.
pub open spec fn oauth_id(a: OAuthV) -> Seq<char> {
    match a {
        OAuthV::Script(s) => s.method.id,
        OAuthV::InstalledApp(i) => i.id,
    }
}

/// The store's decision for one authorized request at time `now`, and the
/// store it leaves behind. A valid token is attached; an expired token
/// with a refresh token starts the one refresh exchange, and while that
/// exchange is in flight every further caller is told to wait; an expired
/// token without a refresh path, or an empty store, denies the request.
pub open spec fn spec_begin_auth(s: CredentialStoreV, now: u64) -> (CredentialStoreV, AuthStepV) {
    match s.auth {
        None => (s, AuthStepV::NoCredential),
        Some(a) => {
            if !oauth_expired(a, now) {
                (s, AuthStepV::Bearer(oauth_token(a)))
            } else if s.refreshing {
                (s, AuthStepV::Busy)
            } else {
                match oauth_refresh_token(a) {
                    Some(rt) => (
                        CredentialStoreV { auth: s.auth, refreshing: true },
                        AuthStepV::RefreshNeeded { id: oauth_id(a), refresh_token: rt },
                    ),
                    None => (s, AuthStepV::Expired),
                }
            }
        },
    }
}

/// The store after a refresh exchange reported its outcome at time `now`,
/// and the result handed back. A successful exchange overwrites the token
/// and expiry in place and keeps the refresh token; any failure leaves the
/// credential untouched. Either way the in-flight marker is cleared. For a
/// script credential the refresh is a no-op success; for an empty store it
/// fails as expired.
pub open spec fn spec_finish_refresh(
    s: CredentialStoreV,
    e: TokenExchangeEventV,
    now: u64,
) -> (CredentialStoreV, Result<(), AuthError>) {
    match s.auth {
        None => (CredentialStoreV { auth: s.auth, refreshing: false }, Err(AuthError::Expired)),
        Some(OAuthV::Script(_)) => (CredentialStoreV { auth: s.auth, refreshing: false }, Ok(())),
        Some(OAuthV::InstalledApp(i)) => {
            let cleared = CredentialStoreV { auth: s.auth, refreshing: false };
            match e {
                TokenExchangeEventV::TransportFailed => (cleared, Err(AuthError::Transport)),
                TokenExchangeEventV::Response { status, body } => {
                    if !status_success(status) {
                        (cleared, Err(AuthError::Rejected))
                    } else {
                        match spec_refresh_outcome(token_fields_of(body)) {
                            Ok((t, secs)) => (
                                CredentialStoreV {
                                    auth: Some(
                                        OAuthV::InstalledApp(
                                            InstalledAppOAuthV {
                                                token: t,
                                                expires_at: Some(
                                                    crate::codec::spec_ms_horizon(now, secs),
                                                ),
                                                ..i
                                            },
                                        ),
                                    ),
                                    refreshing: false,
                                },
                                Ok(()),
                            ),
                            Err(err) => (cleared, Err(err)),
                        }
                    }
                },
            }
        },
    }
}

impl CredentialStore {
    /// An empty store: no credential, no refresh in flight.
    pub fn new() -> (r: CredentialStore)
        ensures
            r@.auth is None,
            !r@.refreshing,
    {
        CredentialStore { auth: None, refreshing: false }
    }

    /// Replaces the held credential unconditionally. Subsequent requests
    /// immediately see the new identity; any in-flight refresh marker is
    /// cleared, since it concerned the replaced credential.
    pub fn set(&mut self, credential: Option<OAuth>)
        ensures
            final(self)@.auth == match credential {
                Some(c) => Some(c@),
                None => None::<OAuthV>,
            },
            !final(self)@.refreshing,
    {
        self.auth = credential;
        self.refreshing = false;
    }

    /// A snapshot of the held credential.
    pub fn get(&self) -> (r: Option<OAuth>)
        ensures
            self@.auth == match r {
                Some(c) => Some(c@),
                None => None::<OAuthV>,
            },
    {
        match &self.auth {
            Some(a) => Some(a.snapshot()),
            None => None,
        }
    }

    /// Decides what one authorized request must do at time `now`, exactly
    /// as `spec_begin_auth` describes. When the decision is
    /// `RefreshNeeded`, the in-flight marker is set, and every further
    /// caller is told to wait until `finish_refresh` reports the
    /// exchange's outcome.
    pub fn begin_auth(&mut self, now: u64) -> (r: AuthStep)
        ensures
            (final(self)@, r@) == spec_begin_auth(old(self)@, now),
    {
        match &self.auth {
            None => AuthStep::NoCredential,
            Some(OAuth::Script(s)) => AuthStep::Bearer(s.token.clone()),
            Some(OAuth::InstalledApp(i)) => {
                let is_expired = match i.expires_at {
                    Some(e) => now > e,
                    None => false,
                };
                if !is_expired {
                    AuthStep::Bearer(i.token.clone())
                } else if self.refreshing {
                    AuthStep::Busy
                } else {
                    match &i.refresh_token {
                        Some(rt) => {
                            let step = AuthStep::RefreshNeeded {
                                id: i.id.clone(),
                                refresh_token: rt.clone(),
                            };
                            self.refreshing = true;
                            step
                        },
                        None => AuthStep::Expired,
                    }
                }
            },
        }
    }

    /// Applies the outcome of a refresh exchange at time `now`, exactly as
    /// `spec_finish_refresh` describes: success overwrites the token and
    /// expiry in place; failure leaves the known-stale credential
    /// untouched, and the caller must treat requests as unauthorized until
    /// a later refresh succeeds.
    pub fn finish_refresh(&mut self, event: &TokenExchangeEvent, now: u64) -> (r: Result<
        (),
        AuthError,
    >)
        ensures
            (final(self)@, r) == spec_finish_refresh(old(self)@, event@, now),
    {
        self.refreshing = false;
        match &self.auth {
            None => Err(AuthError::Expired),
            Some(OAuth::Script(_)) => Ok(()),
            Some(OAuth::InstalledApp(i)) => {
                match event {
                    TokenExchangeEvent::TransportFailed => Err(AuthError::Transport),
                    TokenExchangeEvent::Response { status, body } => {
                        if !(200 <= *status && *status < 300) {
                            Err(AuthError::Rejected)
                        } else {
                            let fields = read_token_fields(body.as_str());
                            match (fields.access_token, fields.expires_in) {
                                (Some(token), Some(secs)) => {
                                    let updated = InstalledAppOAuth {
                                        id: i.id.clone(),
                                        redirect: i.redirect.clone(),
                                        token,
                                        refresh_token: clone_opt_string(&i.refresh_token),
                                        expires_at: Some(crate::codec::ms_horizon(now, secs)),
                                    };
                                    self.auth = Some(OAuth::InstalledApp(updated));
                                    Ok(())
                                },
                                _ => Err(AuthError::Rejected),
                            }
                        }
                    },
                }
            },
        }
    }
}

/// Of two consecutive authorization decisions with no refresh outcome
/// reported in between, at most one demands a refresh exchange: once a
/// decision starts the exchange, every later decision on the resulting
/// store is told to wait (or hands out a token), never to start a second
/// exchange.
pub proof fn lemma_single_refresh_exchange(s: CredentialStoreV, now1: u64, now2: u64)
    requires
        spec_begin_auth(s, now1).1 is RefreshNeeded,
    ensures
        !(spec_begin_auth(spec_begin_auth(s, now1).0, now2).1 is RefreshNeeded),
{
}

} // verus!
