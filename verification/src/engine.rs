//! The authorization engine: builds the exact token-endpoint requests of
//! the two grant flows, interprets the provider's responses, and drives
//! one installed-app authorization attempt as a state machine. The
//! embedding application performs the HTTP exchanges and hands their
//! outcomes back as events.

use vstd::prelude::*;
use vstd::string::StrSliceExecFns;
use vstd::string::StringExecFns;

use crate::callback::CallbackListener;
use crate::callback::CallbackListenerV;
use crate::callback::spec_callback_outcome;
use crate::callback::reply_view;
use crate::codec::copy_bytes_into;
use crate::codec::form_enc;
use crate::codec::ms_horizon;
use crate::codec::push_form_enc_str;
use crate::codec::push_str_bytes;
use crate::codec::spec_ms_horizon;
use crate::codec::str_to_bytes;
use crate::codec::utf8_bytes;
use crate::credential::AuthMethod;
use crate::credential::InstalledAppAuthMethod;
use crate::credential::InstalledAppAuthMethodV;
use crate::credential::InstalledAppOAuth;
use crate::credential::InstalledAppOAuthV;
use crate::credential::OAuth;
use crate::credential::OAuthV;
use crate::credential::ScriptAuthMethod;
use crate::credential::ScriptAuthMethodV;
use crate::credential::ScriptOAuth;
use crate::credential::ScriptOAuthV;
use crate::errors::AuthError;
use crate::errors::InstalledAppError;
use crate::errors::InstalledAppErrorV;
use crate::outside::base64_encode;
use crate::outside::base64_of;
use crate::outside::is_alnum_char;
use crate::outside::random_alphanumeric;
use crate::outside::read_token_fields;
use crate::outside::token_fields_of;
use crate::scopes::spec_scopes_string;
use crate::store::CredentialStore;
use crate::store::CredentialStoreV;

verus! {

/// The token endpoint all three grants POST to.
pub const TOKEN_URL: &'static str = "https://ssl.reddit.com/api/v1/access_token/.json";

/// The four fields a token-endpoint JSON response may carry; each is
/// absent when the response does not carry it with the expected type.
#[derive(Debug, Clone)]
pub struct TokenFields {
    /// The new bearer token.
    pub access_token: Option<String>,
    /// The refresh token, handed out by installed-app grants.
    pub refresh_token: Option<String>,
    /// The token's lifetime in seconds.
    pub expires_in: Option<u64>,
    /// The granted scopes.
    pub scope: Option<String>,
}

/// The mathematical value of a `TokenFields`.
pub struct TokenFieldsV {
    /// The new bearer token.
    pub access_token: Option<Seq<char>>,
    /// The refresh token.
    pub refresh_token: Option<Seq<char>>,
    /// The token's lifetime in seconds.
    pub expires_in: Option<u64>,
    /// The granted scopes.
    pub scope: Option<Seq<char>>,
}

impl View for TokenFields {
    type V = TokenFieldsV;

    open spec fn view(&self) -> TokenFieldsV {
        TokenFieldsV {
            access_token: match self.access_token {
                Some(ref t) => Some(t@),
                None => None,
            },
            refresh_token: match self.refresh_token {
                Some(ref t) => Some(t@),
                None => None,
            },
            expires_in: self.expires_in,
            scope: match self.scope {
                Some(ref t) => Some(t@),
                None => None,
            },
        }
    }
}

/// An HTTP POST to the token endpoint, ready for the transport: the
/// application sends `body` to `url` with the `Authorization` and
/// `User-Agent` headers given here, form-encoded.
#[derive(Debug, Clone)]
pub struct TokenRequest {
    /// Where to POST.
    pub url: &'static str,
    /// The full `Authorization` header value.
    pub authorization: String,
    /// The `User-Agent` header value.
    pub user_agent: String,
    /// The form-encoded request body.
    pub body: Vec<u8>,
}

/// The mathematical value of a `TokenRequest`.
pub struct TokenRequestV {
    /// Where to POST.
    pub url: Seq<char>,
    /// The `Authorization` header value.
    pub authorization: Seq<char>,
    /// The `User-Agent` header value.
    pub user_agent: Seq<char>,
    /// The request body.
    pub body: Seq<u8>,
}

impl View for TokenRequest {
    type V = TokenRequestV;

    open spec fn view(&self) -> TokenRequestV {
        TokenRequestV {
            url: self.url@,
            authorization: self.authorization@,
            user_agent: self.user_agent@,
            body: self.body@,
        }
    }
}

/// What a token exchange came back as: a transport failure, or a response
/// with its status and body.
#[derive(Debug, Clone)]
pub enum TokenExchangeEvent {
    /// The provider could not be reached.
    TransportFailed,
    /// The provider answered.
    Response {
        /// The HTTP status code.
        status: u16,
        /// The response body.
        body: String,
    },
}

/// The mathematical value of a `TokenExchangeEvent`.
pub enum TokenExchangeEventV {
    /// The provider could not be reached.
    TransportFailed,
    /// The provider answered with this status and body.
    Response { status: u16, body: Seq<char> },
}

impl View for TokenExchangeEvent {
    type V = TokenExchangeEventV;

    open spec fn view(&self) -> TokenExchangeEventV {
        match self {
            TokenExchangeEvent::TransportFailed => TokenExchangeEventV::TransportFailed,
            TokenExchangeEvent::Response { status, body } => TokenExchangeEventV::Response {
                status: *status,
                body: body@,
            },
        }
    }
}

/// True for the HTTP status codes that count as success.
pub open spec fn status_success(s: u16) -> bool {
    200 <= s < 300
}

/// The value of an HTTP Basic `Authorization` header for the given user
/// and secret.
pub open spec fn basic_auth_value(user: Seq<char>, secret: Seq<char>) -> Seq<char> {
    "Basic "@ + base64_of(utf8_bytes(user) + seq![58u8] + utf8_bytes(secret))
}

/// The form-encoded body of a password-grant token request.
pub open spec fn script_grant_body(username: Seq<char>, password: Seq<char>) -> Seq<u8> {
    utf8_bytes("grant_type=password&username="@) + form_enc(utf8_bytes(username)) + utf8_bytes(
        "&password="@,
    ) + form_enc(utf8_bytes(password))
}

/// The form-encoded body of an authorization-code token request.
pub open spec fn code_grant_body(code: Seq<u8>, redirect: Seq<char>) -> Seq<u8> {
    utf8_bytes("grant_type=authorization_code&code="@) + form_enc(code) + utf8_bytes(
        "&redirect_uri="@,
    ) + form_enc(utf8_bytes(redirect))
}

/// The form-encoded body of a refresh-token request.
pub open spec fn refresh_grant_body(refresh_token: Seq<char>) -> Seq<u8> {
    utf8_bytes("grant_type=refresh_token&refresh_token="@) + form_enc(utf8_bytes(refresh_token))
}

/// The authorization URL the user's browser is sent to: the provider's
/// authorize endpoint with the app id, the `code` response type, the
/// fresh state token, the redirect URI, a permanent grant, and the
/// requested scopes, each form-encoded.
pub open spec fn authorize_url_bytes(
    id: Seq<char>,
    redirect: Seq<char>,
    scopes: crate::scopes::Scopes,
    state: Seq<char>,
) -> Seq<u8> {
    utf8_bytes("https://www.reddit.com/api/v1/authorize?client_id="@) + form_enc(utf8_bytes(id))
        + utf8_bytes("&response_type=code&state="@) + form_enc(utf8_bytes(state)) + utf8_bytes(
        "&redirect_uri="@,
    ) + form_enc(utf8_bytes(redirect)) + utf8_bytes("&duration=permanent&scope="@) + form_enc(
        utf8_bytes(spec_scopes_string(scopes)),
    )
}

/// The HTTP Basic `Authorization` header value for the given user and
/// secret.
pub fn basic_auth_header(user: &str, secret: &str) -> (r: String)
    ensures
        r@ == basic_auth_value(user@, secret@),
{
    let mut creds = str_to_bytes(user);
    creds.push(58);
    push_str_bytes(&mut creds, secret);
    proof {
        assert(creds@ =~= utf8_bytes(user@) + seq![58u8] + utf8_bytes(secret@));
    }
    let encoded = base64_encode(&creds);
    let mut header = String::new();
    header.append("Basic ");
    header.append(encoded.as_str());
    proof {
        assert(header@ =~= "Basic "@ + base64_of(creds@));
    }
    header
}

/// The password-grant token request for a script app: a POST to the token
/// endpoint with the app's Basic credentials and the account's username
/// and password in the body.
pub fn script_token_request(method: &ScriptAuthMethod, user_agent: &str) -> (r: TokenRequest)
    ensures
        r@.url == TOKEN_URL@,
        r@.authorization == basic_auth_value(method@.id, method@.secret),
        r@.user_agent == user_agent@,
        r@.body == script_grant_body(method@.username, method@.password),
{
    let mut body: Vec<u8> = Vec::new();
    push_str_bytes(&mut body, "grant_type=password&username=");
    push_form_enc_str(&mut body, method.username.as_str());
    push_str_bytes(&mut body, "&password=");
    push_form_enc_str(&mut body, method.password.as_str());
    proof {
        assert(body@ =~= script_grant_body(method@.username, method@.password));
    }
    TokenRequest {
        url: TOKEN_URL,
        authorization: basic_auth_header(method.id.as_str(), method.secret.as_str()),
        user_agent: user_agent.to_owned(),
        body,
    }
}

/// The authorization-code token request of an installed app: a POST to
/// the token endpoint with the app id and an empty secret as Basic
/// credentials, and the received code and the redirect URI in the body.
pub fn code_token_request(id: &str, redirect: &str, code: &Vec<u8>, user_agent: &str) -> (r:
    TokenRequest)
    ensures
        r@.url == TOKEN_URL@,
        r@.authorization == basic_auth_value(id@, Seq::<char>::empty()),
        r@.user_agent == user_agent@,
        r@.body == code_grant_body(code@, redirect@),
{
    let mut body: Vec<u8> = Vec::new();
    push_str_bytes(&mut body, "grant_type=authorization_code&code=");
    let enc_code = crate::codec::form_urlencode(code);
    copy_bytes_into(&mut body, &enc_code);
    push_str_bytes(&mut body, "&redirect_uri=");
    push_form_enc_str(&mut body, redirect);
    proof {
        assert(body@ =~= code_grant_body(code@, redirect@));
    }
    let auth = basic_auth_header(id, "");
    proof {
        reveal_strlit("");
        assert(""@ =~= Seq::<char>::empty());
    }
    TokenRequest { url: TOKEN_URL, authorization: auth, user_agent: user_agent.to_owned(), body }
}

/// The refresh-token request of an installed app: a POST to the token
/// endpoint with the app id and an empty secret as Basic credentials, and
/// the refresh token in the body.
pub fn refresh_token_request(id: &str, refresh_token: &str, user_agent: &str) -> (r: TokenRequest)
    ensures
        r@.url == TOKEN_URL@,
        r@.authorization == basic_auth_value(id@, Seq::<char>::empty()),
        r@.user_agent == user_agent@,
        r@.body == refresh_grant_body(refresh_token@),
{
    let mut body: Vec<u8> = Vec::new();
    push_str_bytes(&mut body, "grant_type=refresh_token&refresh_token=");
    push_form_enc_str(&mut body, refresh_token);
    proof {
        assert(body@ =~= refresh_grant_body(refresh_token@));
    }
    let auth = basic_auth_header(id, "");
    proof {
        reveal_strlit("");
        assert(""@ =~= Seq::<char>::empty());
    }
    TokenRequest { url: TOKEN_URL, authorization: auth, user_agent: user_agent.to_owned(), body }
}

/// What a script-grant response yields: a credential whose token is the
/// response's `access_token`, or rejection when the field is missing.
pub open spec fn spec_script_outcome(m: ScriptAuthMethodV, f: TokenFieldsV) -> Result<
    ScriptOAuthV,
    AuthError,
> {
    match f.access_token {
        Some(t) => Ok(ScriptOAuthV { method: m, token: t }),
        None => Err(AuthError::Rejected),
    }
}

/// Turns the fields of a script-grant response into a credential: for
/// every response carrying `access_token`, a `ScriptOAuth` whose token
/// equals that field; for every response without it, rejection.
pub fn script_outcome(method: ScriptAuthMethod, fields: &TokenFields) -> (r: Result<
    ScriptOAuth,
    AuthError,
>)
    ensures
        match r {
            Ok(c) => spec_script_outcome(method@, fields@) == Ok::<ScriptOAuthV, AuthError>(c@),
            Err(e) => spec_script_outcome(method@, fields@) == Err::<ScriptOAuthV, AuthError>(e),
        },
{
    match &fields.access_token {
        Some(t) => Ok(ScriptOAuth { method, token: t.clone() }),
        None => Err(AuthError::Rejected),
    }
}

/// What an installed-app code exchange yields: a credential with the
/// response's token, refresh token, and expiry anchored at `now`, or
/// rejection when any of the four fields is missing.
pub open spec fn spec_installed_outcome(
    id: Seq<char>,
    redirect: Seq<char>,
    f: TokenFieldsV,
    now: u64,
) -> Result<InstalledAppOAuthV, AuthError> {
    match (f.access_token, f.refresh_token, f.expires_in, f.scope) {
        (Some(t), Some(rt), Some(secs), Some(_)) => Ok(
            InstalledAppOAuthV {
                id,
                redirect,
                token: t,
                refresh_token: Some(rt),
                expires_at: Some(spec_ms_horizon(now, secs)),
            },
        ),
        _ => Err(AuthError::Rejected),
    }
}

/// Turns the fields of an installed-app code exchange into a credential:
/// every response carrying all of `access_token`, `refresh_token`,
/// `expires_in` and `scope` yields an `InstalledAppOAuth` with that token
/// and refresh token and an expiry of `now` plus `expires_in` seconds;
/// a response missing any of them is rejected.
pub fn installed_outcome(id: String, redirect: String, fields: TokenFields, now: u64) -> (r: Result<
    InstalledAppOAuth,
    AuthError,
>)
    ensures
        match r {
            Ok(c) => spec_installed_outcome(id@, redirect@, fields@, now) == Ok::<
                InstalledAppOAuthV,
                AuthError,
            >(c@),
            Err(e) => spec_installed_outcome(id@, redirect@, fields@, now) == Err::<
                InstalledAppOAuthV,
                AuthError,
            >(e),
        },
{
    match (fields.access_token, fields.refresh_token, fields.expires_in, fields.scope) {
        (Some(t), Some(rt), Some(secs), Some(_)) => Ok(
            InstalledAppOAuth {
                id,
                redirect,
                token: t,
                refresh_token: Some(rt),
                expires_at: Some(ms_horizon(now, secs)),
            },
        ),
        _ => Err(AuthError::Rejected),
    }
}

/// What a refresh response yields: the new token and its lifetime in
/// seconds, or rejection when either field is missing. The refresh token
/// itself is not rotated.
pub open spec fn spec_refresh_outcome(f: TokenFieldsV) -> Result<(Seq<char>, u64), AuthError> {
    match (f.access_token, f.expires_in) {
        (Some(t), Some(secs)) => Ok((t, secs)),
        _ => Err(AuthError::Rejected),
    }
}

/// The store and result after a script-grant exchange reported its
/// outcome: a transport failure or non-success status or missing token
/// leaves the store untouched; a success stores the new credential.
pub open spec fn spec_script_exchange(
    m: ScriptAuthMethodV,
    e: TokenExchangeEventV,
    s: CredentialStoreV,
) -> (CredentialStoreV, Result<(), AuthError>) {
    match e {
        TokenExchangeEventV::TransportFailed => (s, Err(AuthError::Transport)),
        TokenExchangeEventV::Response { status, body } => {
            if !status_success(status) {
                (s, Err(AuthError::Rejected))
            } else {
                match spec_script_outcome(m, token_fields_of(body)) {
                    Ok(c) => (
                        CredentialStoreV { auth: Some(OAuthV::Script(c)), refreshing: false },
                        Ok(()),
                    ),
                    Err(err) => (s, Err(err)),
                }
            }
        },
    }
}

/// Applies the outcome of a script-grant exchange to the store, exactly
/// as `spec_script_exchange` describes: on success the store holds the
/// new script credential; on any failure the store is left unchanged.
pub fn handle_script_exchange(
    method: ScriptAuthMethod,
    event: &TokenExchangeEvent,
    store: &mut CredentialStore,
) -> (r: Result<(), AuthError>)
    ensures
        (final(store)@, r) == spec_script_exchange(method@, event@, old(store)@),
{
    match event {
        TokenExchangeEvent::TransportFailed => Err(AuthError::Transport),
        TokenExchangeEvent::Response { status, body } => {
            if !(200 <= *status && *status < 300) {
                Err(AuthError::Rejected)
            } else {
                let fields = read_token_fields(body.as_str());
                match script_outcome(method, &fields) {
                    Ok(c) => {
                        store.set(Some(OAuth::Script(c)));
                        Ok(())
                    },
                    Err(e) => Err(e),
                }
            }
        },
    }
}

/// The store and result after an installed-app code exchange reported its
/// outcome: a transport failure, a non-success status, or a response
/// missing any required field leaves the store untouched; a success
/// stores the new credential.
pub open spec fn spec_installed_exchange(
    id: Seq<char>,
    redirect: Seq<char>,
    e: TokenExchangeEventV,
    now: u64,
    s: CredentialStoreV,
) -> (CredentialStoreV, Result<(), AuthError>) {
    match e {
        TokenExchangeEventV::TransportFailed => (s, Err(AuthError::Transport)),
        TokenExchangeEventV::Response { status, body } => {
            if !status_success(status) {
                (s, Err(AuthError::Rejected))
            } else {
                match spec_installed_outcome(id, redirect, token_fields_of(body), now) {
                    Ok(c) => (
                        CredentialStoreV { auth: Some(OAuthV::InstalledApp(c)), refreshing: false },
                        Ok(()),
                    ),
                    Err(err) => (s, Err(err)),
                }
            }
        },
    }
}

/// Applies the outcome of an installed-app code exchange to the store,
/// exactly as `spec_installed_exchange` describes: on success the store
/// holds the new installed-app credential; on any failure, including a
/// response missing any of the four required fields, the store is left
/// unchanged.
pub fn handle_installed_exchange(
    id: String,
    redirect: String,
    event: &TokenExchangeEvent,
    now: u64,
    store: &mut CredentialStore,
) -> (r: Result<(), AuthError>)
    ensures
        (final(store)@, r) == spec_installed_exchange(id@, redirect@, event@, now, old(store)@),
{
    match event {
        TokenExchangeEvent::TransportFailed => Err(AuthError::Transport),
        TokenExchangeEvent::Response { status, body } => {
            if !(200 <= *status && *status < 300) {
                Err(AuthError::Rejected)
            } else {
                let fields = read_token_fields(body.as_str());
                match installed_outcome(id, redirect, fields, now) {
                    Ok(c) => {
                        store.set(Some(OAuth::InstalledApp(c)));
                        Ok(())
                    },
                    Err(e) => Err(e),
                }
            }
        },
    }
}

/// The stage one installed-app authorization attempt is at.
#[derive(Debug, Copy, Clone, PartialEq, Eq, Structural)]
pub enum FlowStage {
    /// The browser has been sent off and the listener is armed.
    AwaitingCallback,
    /// A callback delivered the code.
    CodeReceived,
    /// The code exchange has been handed to the transport.
    ExchangingToken,
    /// The exchange succeeded and the credential is stored.
    Authorized,
    /// The attempt failed; a retry is a whole new attempt with a fresh
    /// state token.
    Failed,
}

/// One installed-app authorization attempt: the method it runs for, the
/// fresh state token binding the browser redirect to the callback, the
/// armed listener, and the stage reached.
#[derive(Debug)]
pub struct InstalledAppFlow {
    method: InstalledAppAuthMethod,
    state_token: String,
    listener: CallbackListener,
    code: Option<Vec<u8>>,
    stage: FlowStage,
}

/// The mathematical value of an `InstalledAppFlow`.
pub struct InstalledAppFlowV {
    /// The method the attempt runs for.
    pub method: InstalledAppAuthMethodV,
    /// The state token of this attempt.
    pub state_token: Seq<char>,
    /// The listener's value.
    pub listener: CallbackListenerV,
    /// The code received, once one arrived.
    pub code: Option<Seq<u8>>,
    /// The stage reached.
    pub stage: FlowStage,
}

impl View for InstalledAppFlow {
    type V = InstalledAppFlowV;

    closed spec fn view(&self) -> InstalledAppFlowV {
        InstalledAppFlowV {
            method: self.method@,
            state_token: self.state_token@,
            listener: self.listener@,
            code: match self.code {
                Some(ref c) => Some(c@),
                None => None,
            },
            stage: self.stage,
        }
    }
}

impl InstalledAppFlow {
    /// Starts one installed-app authorization attempt: draws a fresh
    /// random state token of sixteen ASCII letters and digits, arms the
    /// listener with it, and hands back the authorization URL the
    /// application must open in the user's browser (fire-and-forget: a
    /// failure to open the browser only means the attempt will time out).
    pub fn begin(method: InstalledAppAuthMethod) -> (r: (InstalledAppFlow, Vec<u8>))
        ensures
            r.0@.method == method@,
            r.0@.state_token.len() == 16,
            forall|i: int| 0 <= i < 16 ==> is_alnum_char(#[trigger] r.0@.state_token[i]),
            r.0@.listener.expected_state == utf8_bytes(r.0@.state_token),
            r.0@.listener.slot is None,
            r.0@.code is None,
            r.0@.stage == FlowStage::AwaitingCallback,
            r.1@ == authorize_url_bytes(method@.id, method@.redirect, method@.scopes, r.0@.state_token),
    {
        let state = random_alphanumeric(16);
        let listener = CallbackListener::arm(state.as_str());
        let scopes_str = method.scopes.to_string();
        let mut url: Vec<u8> = Vec::new();
        push_str_bytes(&mut url, "https://www.reddit.com/api/v1/authorize?client_id=");
        push_form_enc_str(&mut url, method.id.as_str());
        push_str_bytes(&mut url, "&response_type=code&state=");
        push_form_enc_str(&mut url, state.as_str());
        push_str_bytes(&mut url, "&redirect_uri=");
        push_form_enc_str(&mut url, method.redirect.as_str());
        push_str_bytes(&mut url, "&duration=permanent&scope=");
        push_form_enc_str(&mut url, scopes_str.as_str());
        proof {
            assert(url@ =~= authorize_url_bytes(method@.id, method@.redirect, method@.scopes, state@));
        }
        let flow = InstalledAppFlow {
            method,
            state_token: state,
            listener,
            code: None,
            stage: FlowStage::AwaitingCallback,
        };
        (flow, url)
    }

    /// The stage this attempt is at.
    pub fn stage(&self) -> (r: FlowStage)
        ensures
            r == self@.stage,
    {
        self.stage
    }

    /// The state token of this attempt.
    pub fn state_token(&self) -> (r: &str)
        ensures
            r@ == self@.state_token,
    {
        self.state_token.as_str()
    }

    /// Takes one incoming callback. The listener's one-shot slot decides:
    /// the first meaningful callback resolves the attempt — a code moves
    /// it to `CodeReceived`, an error fails it — and every later callback
    /// is answered `AlreadyReceived` and changes nothing. The returned
    /// outcome is what this request's HTTP response should be rendered
    /// from, with `default_response_body` or the application's own
    /// generator.
    pub fn on_callback(&mut self, query: &str) -> (r: Result<Vec<u8>, InstalledAppError>)
        ensures
            final(self)@.method == old(self)@.method,
            final(self)@.state_token == old(self)@.state_token,
            final(self)@.listener.expected_state == old(self)@.listener.expected_state,
            old(self)@.listener.slot is Some ==> final(self)@ == old(self)@ && reply_view(r)
                == Err::<Seq<u8>, InstalledAppErrorV>(InstalledAppErrorV::AlreadyReceived),
            old(self)@.listener.slot is None ==> {
                let o = spec_callback_outcome(
                    utf8_bytes(query@),
                    old(self)@.listener.expected_state,
                );
                &&& reply_view(r) == o
                &&& final(self)@.listener.slot == Some(o)
                &&& match o {
                    Ok(code) => final(self)@.code == Some(code) && final(self)@.stage == (
                    if old(self)@.stage == FlowStage::AwaitingCallback {
                        FlowStage::CodeReceived
                    } else {
                        old(self)@.stage
                    }),
                    Err(_) => final(self)@.code == old(self)@.code && final(self)@.stage == (
                    if old(self)@.stage == FlowStage::AwaitingCallback {
                        FlowStage::Failed
                    } else {
                        old(self)@.stage
                    }),
                }
            },
    {
        if self.listener.is_completed() {
            return self.listener.handle_callback(query);
        }
        let reply = self.listener.handle_callback(query);
        match &reply {
            Ok(code) => {
                let mut copy: Vec<u8> = Vec::new();
                copy_bytes_into(&mut copy, code);
                self.code = Some(copy);
                if matches!(self.stage, FlowStage::AwaitingCallback) {
                    self.stage = FlowStage::CodeReceived;
                }
            },
            Err(_) => {
                if matches!(self.stage, FlowStage::AwaitingCallback) {
                    self.stage = FlowStage::Failed;
                }
            },
        }
        reply
    }

    /// Hands out the code exchange request once a code has been received,
    /// moving the attempt to `ExchangingToken`; at any other stage it
    /// hands out nothing and changes nothing.
    pub fn take_exchange_request(&mut self, user_agent: &str) -> (r: Option<TokenRequest>)
        ensures
            old(self)@.stage == FlowStage::CodeReceived && old(self)@.code is Some ==> {
                &&& r matches Some(tr) && tr@.url == TOKEN_URL@ && tr@.authorization
                    == basic_auth_value(old(self)@.method.id, Seq::<char>::empty())
                    && tr@.user_agent == user_agent@ && tr@.body == code_grant_body(
                    old(self)@.code.unwrap(),
                    old(self)@.method.redirect,
                )
                &&& final(self)@ == (InstalledAppFlowV {
                    stage: FlowStage::ExchangingToken,
                    ..old(self)@
                })
            },
            !(old(self)@.stage == FlowStage::CodeReceived && old(self)@.code is Some) ==> r
                is None && final(self)@ == old(self)@,
    {
        if matches!(self.stage, FlowStage::CodeReceived) {
            match &self.code {
                Some(code) => {
                    let req = code_token_request(
                        self.method.id.as_str(),
                        self.method.redirect.as_str(),
                        code,
                        user_agent,
                    );
                    self.stage = FlowStage::ExchangingToken;
                    Some(req)
                },
                None => None,
            }
        } else {
            None
        }
    }

    /// Applies the outcome of the code exchange, exactly as
    /// `spec_installed_exchange` describes, and moves the attempt to
    /// `Authorized` or `Failed`. At any other stage nothing changes and
    /// the call is rejected.
    pub fn on_exchange_response(
        &mut self,
        event: &TokenExchangeEvent,
        now: u64,
        store: &mut CredentialStore,
    ) -> (r: Result<(), AuthError>)
        ensures
            old(self)@.stage == FlowStage::ExchangingToken ==> {
                &&& (final(store)@, r) == spec_installed_exchange(
                    old(self)@.method.id,
                    old(self)@.method.redirect,
                    event@,
                    now,
                    old(store)@,
                )
                &&& final(self)@ == (InstalledAppFlowV {
                    stage: if r is Ok {
                        FlowStage::Authorized
                    } else {
                        FlowStage::Failed
                    },
                    ..old(self)@
                })
            },
            old(self)@.stage != FlowStage::ExchangingToken ==> final(self)@ == old(self)@
                && final(store)@ == old(store)@ && r == Err::<(), AuthError>(AuthError::Rejected),
    {
        if !matches!(self.stage, FlowStage::ExchangingToken) {
            return Err(AuthError::Rejected);
        }
        let outcome = handle_installed_exchange(
            self.method.id.clone(),
            self.method.redirect.clone(),
            event,
            now,
            store,
        );
        match &outcome {
            Ok(_) => {
                self.stage = FlowStage::Authorized;
            },
            Err(_) => {
                self.stage = FlowStage::Failed;
            },
        }
        outcome
    }

    /// Gives the attempt up, as a caller does when its external timeout
    /// elapses with no callback: the attempt fails and the caller
    /// observes that no callback was ever received. The credential store
    /// is untouched by an abandoned attempt.
    pub fn abandon(&mut self) -> (r: AuthError)
        ensures
            final(self)@ == (InstalledAppFlowV { stage: FlowStage::Failed, ..old(self)@ }),
            r == AuthError::TimedOut,
    {
        self.stage = FlowStage::Failed;
        AuthError::TimedOut
    }
}

/// The beginning of one authorization attempt, by grant flow.
pub enum AuthStart {
    /// A script attempt: POST the request, then hand the outcome with the
    /// method to `handle_script_exchange`.
    Script {
        /// The method, retained for `handle_script_exchange`.
        method: ScriptAuthMethod,
        /// The token request to POST.
        request: TokenRequest,
    },
    /// An installed-app attempt: open the URL in the browser and drive
    /// the flow.
    InstalledApp {
        /// The attempt's state machine.
        flow: InstalledAppFlow,
        /// The authorization URL to open in the browser.
        browser_url: Vec<u8>,
    },
}

/// Starts one authorization attempt with the given method: the one
/// dispatch point over the two grant flows.
pub fn authorize(method: AuthMethod, user_agent: &str) -> (r: AuthStart)
    ensures
        match method {
            AuthMethod::Script(m) => r matches AuthStart::Script { method: rm, request } && rm@
                == m@ && request@.url == TOKEN_URL@ && request@.authorization == basic_auth_value(
                m@.id,
                m@.secret,
            ) && request@.user_agent == user_agent@ && request@.body == script_grant_body(
                m@.username,
                m@.password,
            ),
            AuthMethod::InstalledApp(m) => r matches AuthStart::InstalledApp { flow, browser_url }
                && flow@.method == m@ && flow@.stage == FlowStage::AwaitingCallback
                && flow@.listener.slot is None && flow@.state_token.len() == 16 && browser_url@
                == authorize_url_bytes(m@.id, m@.redirect, m@.scopes, flow@.state_token),
        },
{
    match method {
        AuthMethod::Script(m) => {
            let request = script_token_request(&m, user_agent);
            AuthStart::Script { method: m, request }
        },
        AuthMethod::InstalledApp(m) => {
            let (flow, browser_url) = InstalledAppFlow::begin(m);
            AuthStart::InstalledApp { flow, browser_url }
        },
    }
}

} // verus!
