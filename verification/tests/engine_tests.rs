use orca::credential::{
    AuthMethod, InstalledAppAuthMethod, OAuth, ScriptAuthMethod,
};
use orca::engine::{
    authorize, script_token_request, refresh_token_request, AuthStart, FlowStage,
    InstalledAppFlow, TokenExchangeEvent, handle_script_exchange, TOKEN_URL,
};
use orca::errors::AuthError;
use orca::scopes::Scopes;
use orca::store::{AuthStep, CredentialStore};

fn script_method() -> ScriptAuthMethod {
    ScriptAuthMethod {
        id: "user".to_string(),
        secret: "pass".to_string(),
        username: "alice".to_string(),
        password: "p w&d".to_string(),
    }
}

#[test]
fn script_request_is_built_exactly() {
    let req = script_token_request(&script_method(), "test-agent");
    assert_eq!(req.url, TOKEN_URL);
    assert_eq!(req.url, "https://ssl.reddit.com/api/v1/access_token/.json");
    // base64 of "user:pass" under the standard alphabet
    assert_eq!(req.authorization, "Basic dXNlcjpwYXNz");
    assert_eq!(req.user_agent, "test-agent");
    assert_eq!(
        req.body,
        b"grant_type=password&username=alice&password=p+w%26d".to_vec()
    );
}

#[test]
fn refresh_request_uses_empty_secret() {
    let req = refresh_token_request("appid", "refr0k3n", "agent");
    // base64 of "appid:"
    assert_eq!(req.authorization, "Basic YXBwaWQ6");
    assert_eq!(req.body, b"grant_type=refresh_token&refresh_token=refr0k3n".to_vec());
}

#[test]
fn script_exchange_stores_the_access_token() {
    let mut store = CredentialStore::new();
    let event = TokenExchangeEvent::Response {
        status: 200,
        body: "{\"access_token\": \"tok123\", \"token_type\": \"bearer\"}".to_string(),
    };
    let r = handle_script_exchange(script_method(), &event, &mut store);
    assert!(r.is_ok());
    match store.get() {
        Some(OAuth::Script(s)) => {
            assert_eq!(s.token, "tok123");
            assert_eq!(s.method.username, "alice");
        }
        _ => panic!("expected a script credential"),
    }
}

#[test]
fn script_exchange_without_token_is_rejected_and_store_untouched() {
    let mut store = CredentialStore::new();
    let event = TokenExchangeEvent::Response {
        status: 200,
        body: "{\"error\": \"invalid_grant\"}".to_string(),
    };
    let r = handle_script_exchange(script_method(), &event, &mut store);
    assert_eq!(r, Err(AuthError::Rejected));
    assert!(store.get().is_none());
}

#[test]
fn script_exchange_on_http_error_is_rejected() {
    let mut store = CredentialStore::new();
    let event = TokenExchangeEvent::Response {
        status: 401,
        body: "{\"access_token\": \"tok123\"}".to_string(),
    };
    let r = handle_script_exchange(script_method(), &event, &mut store);
    assert_eq!(r, Err(AuthError::Rejected));
    assert!(store.get().is_none());
}

#[test]
fn script_exchange_on_transport_failure() {
    let mut store = CredentialStore::new();
    let r = handle_script_exchange(script_method(), &TokenExchangeEvent::TransportFailed, &mut store);
    assert_eq!(r, Err(AuthError::Transport));
    assert!(store.get().is_none());
}

fn installed_method() -> InstalledAppAuthMethod {
    let mut scopes = Scopes::empty();
    scopes.identity = true;
    scopes.read = true;
    InstalledAppAuthMethod {
        id: "appid".to_string(),
        redirect: "http://127.0.0.1:7878/".to_string(),
        scopes,
    }
}

#[test]
fn installed_flow_runs_to_an_authorized_credential() {
    let (mut flow, url) = InstalledAppFlow::begin(installed_method());
    assert_eq!(flow.stage(), FlowStage::AwaitingCallback);
    let state = flow.state_token().to_string();
    assert_eq!(state.len(), 16);
    assert!(state.chars().all(|c| c.is_ascii_alphanumeric()));
    let url = String::from_utf8(url).unwrap();
    assert_eq!(
        url,
        format!(
            "https://www.reddit.com/api/v1/authorize?client_id=appid&response_type=code\
             &state={}&redirect_uri=http%3A%2F%2F127.0.0.1%3A7878%2F\
             &duration=permanent&scope=identity%2Cread",
            state
        )
    );

    let query = format!("state={}&code=thec0de", state);
    let reply = flow.on_callback(query.as_str());
    assert_eq!(reply, Ok(b"thec0de".to_vec()));
    assert_eq!(flow.stage(), FlowStage::CodeReceived);

    let req = flow.take_exchange_request("agent").expect("an exchange request");
    assert_eq!(flow.stage(), FlowStage::ExchangingToken);
    assert_eq!(
        req.body,
        b"grant_type=authorization_code&code=thec0de&redirect_uri=http%3A%2F%2F127.0.0.1%3A7878%2F"
            .to_vec()
    );
    assert_eq!(req.authorization, "Basic YXBwaWQ6");

    let mut store = CredentialStore::new();
    let event = TokenExchangeEvent::Response {
        status: 200,
        body: "{\"access_token\": \"newtok\", \"refresh_token\": \"refr\", \
               \"expires_in\": 3600, \"scope\": \"identity read\"}"
            .to_string(),
    };
    let r = flow.on_exchange_response(&event, 1_000, &mut store);
    assert!(r.is_ok());
    assert_eq!(flow.stage(), FlowStage::Authorized);
    match store.get() {
        Some(OAuth::InstalledApp(i)) => {
            assert_eq!(i.id, "appid");
            assert_eq!(i.token, "newtok");
            assert_eq!(i.refresh_token, Some("refr".to_string()));
            assert_eq!(i.expires_at, Some(1_000 + 3_600_000));
        }
        _ => panic!("expected an installed-app credential"),
    }
}

#[test]
fn installed_exchange_missing_any_field_is_rejected_and_store_untouched() {
    let bodies = [
        "{\"refresh_token\": \"r\", \"expires_in\": 60, \"scope\": \"s\"}",
        "{\"access_token\": \"t\", \"expires_in\": 60, \"scope\": \"s\"}",
        "{\"access_token\": \"t\", \"refresh_token\": \"r\", \"scope\": \"s\"}",
        "{\"access_token\": \"t\", \"refresh_token\": \"r\", \"expires_in\": 60}",
    ];
    for body in bodies {
        let (mut flow, _url) = InstalledAppFlow::begin(installed_method());
        let query = format!("state={}&code=c", flow.state_token());
        flow.on_callback(query.as_str()).unwrap();
        flow.take_exchange_request("agent").unwrap();
        let mut store = CredentialStore::new();
        let event = TokenExchangeEvent::Response { status: 200, body: body.to_string() };
        let r = flow.on_exchange_response(&event, 0, &mut store);
        assert_eq!(r, Err(AuthError::Rejected));
        assert!(store.get().is_none(), "store must stay unchanged for {}", body);
        assert_eq!(flow.stage(), FlowStage::Failed);
    }
}

#[test]
fn failed_callback_fails_the_flow_and_gives_no_exchange() {
    let (mut flow, _url) = InstalledAppFlow::begin(installed_method());
    let reply = flow.on_callback("state=wrong&code=c");
    assert!(reply.is_err());
    assert_eq!(flow.stage(), FlowStage::Failed);
    assert!(flow.take_exchange_request("agent").is_none());
}

#[test]
fn abandoned_flow_times_out() {
    let (mut flow, _url) = InstalledAppFlow::begin(installed_method());
    assert_eq!(flow.abandon(), AuthError::TimedOut);
    assert_eq!(flow.stage(), FlowStage::Failed);
}

#[test]
fn authorize_dispatches_by_grant_type() {
    match authorize(AuthMethod::Script(script_method()), "agent") {
        AuthStart::Script { method, request } => {
            assert_eq!(method.username, "alice");
            assert_eq!(request.authorization, "Basic dXNlcjpwYXNz");
        }
        _ => panic!("expected the script flow"),
    }
    match authorize(AuthMethod::InstalledApp(installed_method()), "agent") {
        AuthStart::InstalledApp { flow, browser_url } => {
            assert_eq!(flow.stage(), FlowStage::AwaitingCallback);
            assert!(!browser_url.is_empty());
        }
        _ => panic!("expected the installed-app flow"),
    }
}

#[test]
fn fresh_state_tokens_differ_between_attempts() {
    let (flow1, _) = InstalledAppFlow::begin(installed_method());
    let (flow2, _) = InstalledAppFlow::begin(installed_method());
    assert_ne!(flow1.state_token(), flow2.state_token());
}

#[test]
fn expired_credential_refreshes_once_and_both_callers_succeed() {
    // An installed-app credential already expired, with a valid refresh
    // token: of two callers, exactly one is told to perform the exchange;
    // after it completes, both see the refreshed token.
    let mut store = CredentialStore::new();
    store.set(Some(OAuth::InstalledApp(orca::credential::InstalledAppOAuth {
        id: "appid".to_string(),
        redirect: "http://127.0.0.1:7878/".to_string(),
        token: "oldtok".to_string(),
        refresh_token: Some("refr".to_string()),
        expires_at: Some(1_000),
    })));

    let first = store.begin_auth(2_000);
    let (id, refresh_token) = match first {
        AuthStep::RefreshNeeded { id, refresh_token } => (id, refresh_token),
        _ => panic!("the first caller must be told to refresh"),
    };
    assert_eq!((id.as_str(), refresh_token.as_str()), ("appid", "refr"));

    // The second caller arrives while the exchange is in flight.
    let second = store.begin_auth(2_000);
    assert!(matches!(second, AuthStep::Busy), "no second exchange may start");

    // The one exchange completes.
    let event = TokenExchangeEvent::Response {
        status: 200,
        body: "{\"access_token\": \"freshtok\", \"expires_in\": 3600}".to_string(),
    };
    assert!(store.finish_refresh(&event, 2_000).is_ok());

    // Both callers now get the refreshed token.
    match store.begin_auth(2_500) {
        AuthStep::Bearer(t) => assert_eq!(t, "freshtok"),
        _ => panic!("expected a bearer token"),
    }
    match store.begin_auth(2_500) {
        AuthStep::Bearer(t) => assert_eq!(t, "freshtok"),
        _ => panic!("expected a bearer token"),
    }
    // The refresh token itself is not rotated.
    match store.get() {
        Some(OAuth::InstalledApp(i)) => {
            assert_eq!(i.refresh_token, Some("refr".to_string()));
            assert_eq!(i.expires_at, Some(2_000 + 3_600_000));
        }
        _ => panic!("expected an installed-app credential"),
    }
}

#[test]
fn failed_refresh_leaves_the_stale_token_and_later_refresh_can_succeed() {
    let mut store = CredentialStore::new();
    store.set(Some(OAuth::InstalledApp(orca::credential::InstalledAppOAuth {
        id: "appid".to_string(),
        redirect: "r".to_string(),
        token: "oldtok".to_string(),
        refresh_token: Some("refr".to_string()),
        expires_at: Some(1_000),
    })));
    assert!(matches!(store.begin_auth(2_000), AuthStep::RefreshNeeded { .. }));
    let bad = TokenExchangeEvent::Response { status: 500, body: "oops".to_string() };
    assert_eq!(store.finish_refresh(&bad, 2_000), Err(AuthError::Rejected));
    match store.get() {
        Some(OAuth::InstalledApp(i)) => assert_eq!(i.token, "oldtok"),
        _ => panic!("expected the stale credential to remain"),
    }
    // The guard is cleared, so a later attempt may refresh again.
    assert!(matches!(store.begin_auth(2_000), AuthStep::RefreshNeeded { .. }));
}

#[test]
fn expired_without_refresh_token_is_terminal() {
    let mut store = CredentialStore::new();
    store.set(Some(OAuth::InstalledApp(orca::credential::InstalledAppOAuth {
        id: "appid".to_string(),
        redirect: "r".to_string(),
        token: "oldtok".to_string(),
        refresh_token: None,
        expires_at: Some(1_000),
    })));
    assert!(matches!(store.begin_auth(2_000), AuthStep::Expired));
}

#[test]
fn script_credentials_never_expire() {
    let mut store = CredentialStore::new();
    let event = TokenExchangeEvent::Response {
        status: 200,
        body: "{\"access_token\": \"tok\"}".to_string(),
    };
    handle_script_exchange(script_method(), &event, &mut store).unwrap();
    match store.begin_auth(u64::MAX) {
        AuthStep::Bearer(t) => assert_eq!(t, "tok"),
        _ => panic!("a script token must remain valid"),
    }
    // Refresh is a no-op success for a script credential.
    assert!(store.finish_refresh(&TokenExchangeEvent::TransportFailed, 0).is_ok());
}
