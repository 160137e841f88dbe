use orca::credential::{InstalledAppOAuth, OAuth};
use orca::errors::RequestError;
use orca::pipeline::{
    user_agent_string, ApiRequest, HttpMethod, HttpResponseEvent, RequestPipeline, SendStep,
};
use orca::rate::LimitMethod;
use orca::store::CredentialStore;

fn pipeline() -> RequestPipeline {
    RequestPipeline::new("test-agent".to_string())
}

fn get_request() -> ApiRequest {
    ApiRequest {
        method: HttpMethod::Get,
        url: "https://oauth.reddit.com/api/v1/me/.json".to_string(),
        body: Vec::new(),
    }
}

#[test]
fn unauthorized_without_credential_and_no_network_call() {
    let mut store = CredentialStore::new();
    let step = pipeline().begin_send(&mut store, &get_request(), true, 0);
    match step {
        SendStep::Reject(e) => assert_eq!(e, RequestError::Unauthorized),
        SendStep::Send { .. } => panic!("no request may be prepared without a credential"),
        _ => panic!("no refresh may be attempted without a credential"),
    }
}

#[test]
fn unauthenticated_send_carries_no_bearer() {
    let mut store = CredentialStore::new();
    let step = pipeline().begin_send(&mut store, &get_request(), false, 0);
    match step {
        SendStep::Send { delay_ms, request } => {
            assert_eq!(delay_ms, 0);
            assert_eq!(request.user_agent, "test-agent");
            assert_eq!(request.authorization, None);
            assert_eq!(request.url, "https://oauth.reddit.com/api/v1/me/.json");
        }
        _ => panic!("an unauthenticated call is sent outright"),
    }
}

#[test]
fn valid_credential_gets_a_bearer_header() {
    let mut store = CredentialStore::new();
    store.set(Some(OAuth::InstalledApp(InstalledAppOAuth {
        id: "appid".to_string(),
        redirect: "r".to_string(),
        token: "tok".to_string(),
        refresh_token: None,
        expires_at: None,
    })));
    let step = pipeline().begin_send(&mut store, &get_request(), true, 0);
    match step {
        SendStep::Send { request, .. } => {
            assert_eq!(request.authorization, Some("Bearer tok".to_string()));
        }
        _ => panic!("a valid credential must be attached"),
    }
}

#[test]
fn expired_credential_triggers_the_refresh_path() {
    let mut store = CredentialStore::new();
    store.set(Some(OAuth::InstalledApp(InstalledAppOAuth {
        id: "appid".to_string(),
        redirect: "r".to_string(),
        token: "tok".to_string(),
        refresh_token: Some("refr".to_string()),
        expires_at: Some(1_000),
    })));
    let p = pipeline();
    match p.begin_send(&mut store, &get_request(), true, 2_000) {
        SendStep::Refresh { id, refresh_token } => {
            assert_eq!(id, "appid");
            assert_eq!(refresh_token, "refr");
        }
        _ => panic!("an expired refreshable credential must refresh"),
    }
    // A concurrent caller waits instead of starting a second exchange.
    match p.begin_send(&mut store, &get_request(), true, 2_000) {
        SendStep::AwaitRefresh => {}
        _ => panic!("the second caller must wait"),
    }
}

#[test]
fn throttle_delay_is_applied_after_an_observed_budget() {
    let mut p = pipeline();
    let mut store = CredentialStore::new();
    let response = HttpResponseEvent::Response {
        status: 200,
        rate_used: Some(b"1".to_vec()),
        rate_remaining: Some(b"4".to_vec()),
        rate_reset: Some(b"8".to_vec()),
        body: "{}".to_string(),
    };
    p.finish_send(response, 0).unwrap();
    match p.begin_send(&mut store, &get_request(), false, 0) {
        SendStep::Send { delay_ms, .. } => assert_eq!(delay_ms, 2_000),
        _ => panic!("expected a send"),
    }
}

#[test]
fn burst_strategy_changes_the_delay() {
    let mut p = pipeline();
    p.set_limit(LimitMethod::Burst);
    let mut store = CredentialStore::new();
    let response = HttpResponseEvent::Response {
        status: 200,
        rate_used: Some(b"600".to_vec()),
        rate_remaining: Some(b"0".to_vec()),
        rate_reset: Some(b"5".to_vec()),
        body: "{}".to_string(),
    };
    p.finish_send(response, 0).unwrap();
    match p.begin_send(&mut store, &get_request(), false, 0) {
        SendStep::Send { delay_ms, .. } => assert_eq!(delay_ms, 5_000),
        _ => panic!("expected a send"),
    }
}

#[test]
fn transport_failure_is_classified() {
    let mut p = pipeline();
    let r = p.finish_send(HttpResponseEvent::TransportFailed, 0);
    assert_eq!(r.unwrap_err(), RequestError::Transport);
}

#[test]
fn server_rejection_carries_status_and_body() {
    let mut p = pipeline();
    let response = HttpResponseEvent::Response {
        status: 403,
        rate_used: None,
        rate_remaining: None,
        rate_reset: None,
        body: "forbidden".to_string(),
    };
    let r = p.finish_send(response, 0);
    assert_eq!(
        r.unwrap_err(),
        RequestError::ServerRejected { status: 403, body: "forbidden".to_string() }
    );
}

#[test]
fn malformed_body_is_classified() {
    let mut p = pipeline();
    let response = HttpResponseEvent::Response {
        status: 200,
        rate_used: None,
        rate_remaining: None,
        rate_reset: None,
        body: "not json {".to_string(),
    };
    let r = p.finish_send(response, 0);
    assert_eq!(
        r.unwrap_err(),
        RequestError::MalformedResponse { body: "not json {".to_string() }
    );
}

#[test]
fn successful_response_parses_as_json() {
    let mut p = pipeline();
    let response = HttpResponseEvent::Response {
        status: 200,
        rate_used: None,
        rate_remaining: None,
        rate_reset: None,
        body: "{\"name\": \"alice\", \"karma\": 7}".to_string(),
    };
    let v = p.finish_send(response, 0).unwrap();
    assert_eq!(v["name"], serde_json::Value::String("alice".to_string()));
    assert_eq!(v["karma"], serde_json::Value::from(7u64));
}

#[test]
fn rate_headers_update_the_budget_even_on_errors() {
    let mut p = pipeline();
    let response = HttpResponseEvent::Response {
        status: 500,
        rate_used: Some(b"9".to_vec()),
        rate_remaining: Some(b"591".to_vec()),
        rate_reset: Some(b"100".to_vec()),
        body: "err".to_string(),
    };
    let _ = p.finish_send(response, 50);
    assert_eq!(p.budget.used, 9);
    assert_eq!(p.budget.remaining, Some(591));
    assert_eq!(p.budget.reset_at, 50 + 100_000);
}

#[test]
fn user_agent_has_the_recommended_form() {
    assert_eq!(
        user_agent_string("linux", "myapp", "v0.4.0", "/u/somebody"),
        "linux:myapp:v0.4.0 (by /u/somebody)"
    );
}

#[test]
fn listing_pops_from_the_front() {
    let mut listing: orca::listing::Listing<u32> = orca::listing::Listing::new();
    assert_eq!(listing.next(), None);
    listing.children.push_back(1);
    listing.children.push_back(2);
    assert_eq!(listing.next(), Some(1));
    assert_eq!(listing.next(), Some(2));
    assert_eq!(listing.next(), None);
}
