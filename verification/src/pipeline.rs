//! The request pipeline: the single choke point through which every
//! outbound API call passes. It paces the call against the rate budget,
//! attaches the user-agent and bearer-token headers, classifies the
//! response, and parses its body as JSON. The embedding application
//! performs the sleep and the HTTP exchange it is told to.

use vstd::prelude::*;
use vstd::string::StringExecFns;

use crate::credential::clone_string;
use crate::errors::RequestError;
use crate::errors::RequestErrorV;
use crate::outside::json_accepts;
use crate::outside::parse_json_value;
use crate::rate::LimitMethod;
use crate::rate::RateBudget;
use crate::rate::spec_observe;
use crate::rate::spec_throttle_delay;
use crate::store::AuthStep;
use crate::store::AuthStepV;
use crate::store::CredentialStore;
use crate::store::spec_begin_auth;

verus! {

/// The HTTP method of an API request.
#[derive(Debug, Copy, Clone, PartialEq, Eq, Structural)]
pub enum HttpMethod {
    /// GET
    Get,
    /// POST
    Post,
}

/// An API request as a collaborator hands it in: where to send what.
#[derive(Debug)]
pub struct ApiRequest {
    /// The HTTP method.
    pub method: HttpMethod,
    /// The full URL.
    pub url: String,
    /// The request body; empty for GET.
    pub body: Vec<u8>,
}

/// The mathematical value of an `ApiRequest`.
pub struct ApiRequestV {
    /// The HTTP method.
    pub method: HttpMethod,
    /// The full URL.
    pub url: Seq<char>,
    /// The request body.
    pub body: Seq<u8>,
}

impl View for ApiRequest {
    type V = ApiRequestV;

    open spec fn view(&self) -> ApiRequestV {
        ApiRequestV { method: self.method, url: self.url@, body: self.body@ }
    }
}

/// An API request ready for the transport, with its headers decided.
#[derive(Debug)]
pub struct PreparedRequest {
    /// The HTTP method.
    pub method: HttpMethod,
    /// The full URL.
    pub url: String,
    /// The `User-Agent` header value.
    pub user_agent: String,
    /// The `Authorization` header value, when the call is authorized.
    pub authorization: Option<String>,
    /// The request body.
    pub body: Vec<u8>,
}

/// The mathematical value of a `PreparedRequest`.
pub struct PreparedRequestV {
    /// The HTTP method.
    pub method: HttpMethod,
    /// The full URL.
    pub url: Seq<char>,
    /// The `User-Agent` header value.
    pub user_agent: Seq<char>,
    /// The `Authorization` header value, if any.
    pub authorization: Option<Seq<char>>,
    /// The request body.
    pub body: Seq<u8>,
}

impl View for PreparedRequest {
    type V = PreparedRequestV;

    open spec fn view(&self) -> PreparedRequestV {
        PreparedRequestV {
            method: self.method,
            url: self.url@,
            user_agent: self.user_agent@,
            authorization: match self.authorization {
                Some(ref a) => Some(a@),
                None => None,
            },
            body: self.body@,
        }
    }
}

/// What one call must do next, as decided by the pipeline before any
/// network traffic.
pub enum SendStep {
    /// Fail now, without any network call.
    Reject(RequestError),
    /// Perform a refresh exchange first (the store's in-flight marker is
    /// set), report it through `CredentialStore::finish_refresh`, then ask
    /// again.
    Refresh {
        /// The app id to authenticate the exchange with.
        id: String,
        /// The refresh token to exchange.
        refresh_token: String,
    },
    /// Another caller's refresh exchange is in flight: wait for it and
    /// ask again.
    AwaitRefresh,
    /// Sleep `delay_ms` milliseconds, then send the prepared request.
    Send {
        /// How long to sleep first, in milliseconds.
        delay_ms: u64,
        /// The request, with its headers decided.
        request: PreparedRequest,
    },
}

/// The mathematical value of a `SendStep`.
pub enum SendStepV {
    /// Fail now, without any network call.
    Reject(RequestErrorV),
    /// Perform a refresh exchange first.
    Refresh { id: Seq<char>, refresh_token: Seq<char> },
    /// Wait for the in-flight refresh exchange.
    AwaitRefresh,
    /// Sleep, then send.
    Send { delay_ms: u64, request: PreparedRequestV },
}

impl View for SendStep {
    type V = SendStepV;

    open spec fn view(&self) -> SendStepV {
        match self {
            SendStep::Reject(e) => SendStepV::Reject(e@),
            SendStep::Refresh { id, refresh_token } => SendStepV::Refresh {
                id: id@,
                refresh_token: refresh_token@,
            },
            SendStep::AwaitRefresh => SendStepV::AwaitRefresh,
            SendStep::Send { delay_ms, request } => SendStepV::Send {
                delay_ms: *delay_ms,
                request: request@,
            },
        }
    }
}

/// What one API exchange came back as: a transport failure, or a response
/// with its status, its three rate-limit headers as raw bytes, and its
/// body.
#[derive(Debug)]
pub enum HttpResponseEvent {
    /// The server could not be reached.
    TransportFailed,
    /// The server answered.
    Response {
        /// The HTTP status code.
        status: u16,
        /// The used-count rate-limit header, if present.
        rate_used: Option<Vec<u8>>,
        /// The remaining-count rate-limit header, if present.
        rate_remaining: Option<Vec<u8>>,
        /// The seconds-until-reset rate-limit header, if present.
        rate_reset: Option<Vec<u8>>,
        /// The response body.
        body: String,
    },
}

/// The pipeline: the rate budget, the pacing strategy, and the constant
/// user agent.
#[derive(Debug)]
pub struct RequestPipeline {
    /// The server-declared rate budget.
    pub budget: RateBudget,
    /// How to pace requests.
    pub limit: LimitMethod,
    /// The constant `User-Agent` header value.
    pub user_agent: String,
}

/// The mathematical value of a `RequestPipeline`.
pub struct RequestPipelineV {
    /// The rate budget.
    pub budget: RateBudget,
    /// The pacing strategy.
    pub limit: LimitMethod,
    /// The `User-Agent` header value.
    pub user_agent: Seq<char>,
}

impl View for RequestPipeline {
    type V = RequestPipelineV;

    open spec fn view(&self) -> RequestPipelineV {
        RequestPipelineV {
            budget: self.budget,
            limit: self.limit,
            user_agent: self.user_agent@,
        }
    }
}

/// The user-agent string for an API client: platform, app id, version,
/// and author, in the provider's recommended form.
pub fn user_agent_string(platform: &str, app_id: &str, app_version: &str, app_author: &str) -> (r:
    String)
    ensures
        r@ == platform@ + ":"@ + app_id@ + ":"@ + app_version@ + " (by "@ + app_author@ + ")"@,
{
    let mut out = String::new();
    out.append(platform);
    out.append(":");
    out.append(app_id);
    out.append(":");
    out.append(app_version);
    out.append(" (by ");
    out.append(app_author);
    out.append(")");
    proof {
        assert(out@ =~= platform@ + ":"@ + app_id@ + ":"@ + app_version@ + " (by "@ + app_author@
            + ")"@);
    }
    out
}

/// The pipeline's decision for one call at time `now`, and the store it
/// leaves behind. An unauthorized call is prepared outright; an
/// authorized call follows the store's decision: a valid token is
/// attached, a refresh is started or awaited, and a missing or terminally
/// expired credential rejects the call as `Unauthorized` with no network
/// traffic.
pub open spec fn spec_begin_send(
    p: RequestPipelineV,
    s: crate::store::CredentialStoreV,
    req: ApiRequestV,
    require_auth: bool,
    now: u64,
) -> (crate::store::CredentialStoreV, SendStepV) {
    let delay = spec_throttle_delay(p.budget, now, p.limit);
    if !require_auth {
        (
            s,
            SendStepV::Send {
                delay_ms: delay,
                request: PreparedRequestV {
                    method: req.method,
                    url: req.url,
                    user_agent: p.user_agent,
                    authorization: None,
                    body: req.body,
                },
            },
        )
    } else {
        let (s2, step) = spec_begin_auth(s, now);
        match step {
            AuthStepV::Bearer(token) => (
                s2,
                SendStepV::Send {
                    delay_ms: delay,
                    request: PreparedRequestV {
                        method: req.method,
                        url: req.url,
                        user_agent: p.user_agent,
                        authorization: Some("Bearer "@ + token),
                        body: req.body,
                    },
                },
            ),
            AuthStepV::RefreshNeeded { id, refresh_token } => (
                s2,
                SendStepV::Refresh { id, refresh_token },
            ),
            AuthStepV::Busy => (s2, SendStepV::AwaitRefresh),
            AuthStepV::NoCredential => (s2, SendStepV::Reject(RequestErrorV::Unauthorized)),
            AuthStepV::Expired => (s2, SendStepV::Reject(RequestErrorV::Unauthorized)),
        }
    }
}

/// The budget after one response's rate-limit headers, and the result of
/// classifying the response: a transport failure, a non-success status
/// with its body, a body that is not JSON, or success. The budget is
/// updated from every response, whatever its status.
pub open spec fn spec_finish_outcome(body: Seq<char>, status: u16) -> Result<(), RequestErrorV> {
    if !crate::engine::status_success(status) {
        Err(RequestErrorV::ServerRejected { status, body })
    } else if !json_accepts(body) {
        Err(RequestErrorV::MalformedResponse { body })
    } else {
        Ok(())
    }
}

impl RequestPipeline {
    /// A pipeline with the given user agent, a fresh budget, and the
    /// steady pacing strategy.
    pub fn new(user_agent: String) -> (r: RequestPipeline)
        ensures
            r@.budget == (RateBudget { used: 0, remaining: None::<i32>, reset_at: 0u64 }),
            r@.limit == LimitMethod::Steady,
            r@.user_agent == user_agent@,
    {
        RequestPipeline { budget: RateBudget::new(), limit: LimitMethod::Steady, user_agent }
    }

    /// Sets the pacing strategy.
    pub fn set_limit(&mut self, limit: LimitMethod)
        ensures
            final(self)@ == (RequestPipelineV { limit, ..old(self)@ }),
    {
        self.limit = limit;
    }

    /// Decides what one call must do at time `now`, exactly as
    /// `spec_begin_send` describes. A rejected call performs no network
    /// traffic: in particular, with authorization required and no
    /// credential held, the decision is `Reject(Unauthorized)` outright.
    pub fn begin_send(
        &self,
        store: &mut CredentialStore,
        request: &ApiRequest,
        require_auth: bool,
        now: u64,
    ) -> (r: SendStep)
        ensures
            (final(store)@, r@) == spec_begin_send(
                self@,
                old(store)@,
                request@,
                require_auth,
                now,
            ),
    {
        let delay_ms = self.budget.throttle_delay(now, self.limit);
        if !require_auth {
            return SendStep::Send {
                delay_ms,
                request: PreparedRequest {
                    method: request.method,
                    url: clone_string(&request.url),
                    user_agent: clone_string(&self.user_agent),
                    authorization: None,
                    body: clone_bytes(&request.body),
                },
            };
        }
        match store.begin_auth(now) {
            AuthStep::Bearer(token) => {
                let mut header = String::new();
                header.append("Bearer ");
                header.append(token.as_str());
                proof {
                    assert(header@ =~= "Bearer "@ + token@);
                }
                SendStep::Send {
                    delay_ms,
                    request: PreparedRequest {
                        method: request.method,
                        url: clone_string(&request.url),
                        user_agent: clone_string(&self.user_agent),
                        authorization: Some(header),
                        body: clone_bytes(&request.body),
                    },
                }
            },
            AuthStep::RefreshNeeded { id, refresh_token } => SendStep::Refresh {
                id,
                refresh_token,
            },
            AuthStep::Busy => SendStep::AwaitRefresh,
            AuthStep::NoCredential => SendStep::Reject(RequestError::Unauthorized),
            AuthStep::Expired => SendStep::Reject(RequestError::Unauthorized),
        }
    }

    /// Takes what one exchange came back as, at time `now`: updates the
    /// budget from the rate-limit headers of every response whatever its
    /// status, then classifies it — a non-success status is
    /// `ServerRejected` with the body, a body that is not JSON is
    /// `MalformedResponse`, and otherwise the parsed JSON value is
    /// returned. A transport failure is `Transport` and leaves the budget
    /// unchanged.
    pub fn finish_send(&mut self, event: HttpResponseEvent, now: u64) -> (r: Result<
        serde_json::Value,
        RequestError,
    >)
        ensures
            final(self)@.limit == old(self)@.limit,
            final(self)@.user_agent == old(self)@.user_agent,
            match event {
                HttpResponseEvent::TransportFailed => final(self)@.budget == old(self)@.budget
                    && (r matches Err(e) && e@ == RequestErrorV::Transport),
                HttpResponseEvent::Response {
                    status,
                    rate_used,
                    rate_remaining,
                    rate_reset,
                    body,
                } => {
                    &&& final(self)@.budget == spec_observe(
                        old(self)@.budget,
                        match rate_used {
                            Some(h) => Some(h@),
                            None => None,
                        },
                        match rate_remaining {
                            Some(h) => Some(h@),
                            None => None,
                        },
                        match rate_reset {
                            Some(h) => Some(h@),
                            None => None,
                        },
                        now,
                    )
                    &&& match spec_finish_outcome(body@, status) {
                        Ok(_) => r is Ok && json_accepts(body@),
                        Err(e) => r matches Err(re) && re@ == e,
                    }
                },
            },
    {
        match event {
            HttpResponseEvent::TransportFailed => Err(RequestError::Transport),
            HttpResponseEvent::Response { status, rate_used, rate_remaining, rate_reset, body } => {
                self.budget.observe(
                    match &rate_used {
                        Some(h) => Some(h),
                        None => None,
                    },
                    match &rate_remaining {
                        Some(h) => Some(h),
                        None => None,
                    },
                    match &rate_reset {
                        Some(h) => Some(h),
                        None => None,
                    },
                    now,
                );
                if !(200 <= status && status < 300) {
                    return Err(RequestError::ServerRejected { status, body });
                }
                match parse_json_value(body.as_str()) {
                    Some(v) => Ok(v),
                    None => Err(RequestError::MalformedResponse { body }),
                }
            },
        }
    }
}

/// Copies a byte string, preserving its bytes.
fn clone_bytes(v: &Vec<u8>) -> (r: Vec<u8>)
    ensures
        r@ == v@,
{
    let mut out: Vec<u8> = Vec::new();
    crate::codec::copy_bytes_into(&mut out, v);
    out
}

} // verus!
