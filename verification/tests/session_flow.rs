use launcher_core::error::{AuthError, Hop};
use launcher_core::model::{
    classify_status, DeviceCodeResponse, HttpReply, LauncherAccount, MSAuthStatus, PollReply,
    ReplyKind, TokenResponse,
};
use launcher_core::request::FormField;
use launcher_core::session::{AuthState, PollProgress};

fn fixture_code() -> DeviceCodeResponse {
    DeviceCodeResponse {
        user_code: "ABC-123".to_string(),
        device_code: "dc1".to_string(),
        verification_uri: "https://example/verify".to_string(),
        expires_in: 900,
        interval: 5,
    }
}

fn refused(code: &str) -> PollReply {
    PollReply::Refused { error: Some(code.to_string()) }
}

fn settled(progress: Result<PollProgress, AuthError>) -> MSAuthStatus {
    match progress {
        Ok(PollProgress::Settled(status)) => status,
        other => panic!("not settled: {:?}", other),
    }
}

fn field(name: &str, value: &str) -> FormField {
    FormField { name: name.to_string(), value: value.to_string() }
}

#[test]
fn new_state_has_nothing_pending() {
    let state = AuthState::new();
    assert!(state.pending_auth.is_none());
    assert!(matches!(state.poll_request(), Err(AuthError::NoPendingAuth)));
}

#[test]
fn start_returns_the_device_code_verbatim_and_keeps_it() {
    let mut state = AuthState::new();
    let got = state.finish_start(HttpReply::Body(fixture_code())).unwrap();
    assert_eq!(got, fixture_code());
    assert_eq!(state.pending_auth, Some(fixture_code()));
}

#[test]
fn pending_poll_reports_pending_and_keeps_the_session() {
    let mut state = AuthState::new();
    state.finish_start(HttpReply::Body(fixture_code())).unwrap();
    let status = settled(state.finish_poll(refused("authorization_pending")));
    assert_eq!(
        status,
        MSAuthStatus { status: "pending".to_string(), account: None, error: None }
    );
    assert_eq!(state.pending_auth, Some(fixture_code()));
    let again = state.poll_request().unwrap();
    assert_eq!(again.url, "https://login.microsoftonline.com/consumers/oauth2/v2.0/token");
    assert_eq!(
        again.fields,
        vec![
            field("client_id", "c36a9fb6-4f2a-41ff-90bd-ae7cc92031eb"),
            field("grant_type", "urn:ietf:params:oauth:grant-type:device_code"),
            field("device_code", "dc1"),
        ]
    );
    let status = settled(state.finish_poll(refused("authorization_pending")));
    assert_eq!(status.status, "pending");
}

#[test]
fn expired_poll_reports_expired_and_clears_the_session() {
    let mut state = AuthState::new();
    state.finish_start(HttpReply::Body(fixture_code())).unwrap();
    let status = settled(state.finish_poll(refused("expired_token")));
    assert_eq!(
        status,
        MSAuthStatus {
            status: "expired".to_string(),
            account: None,
            error: Some("Device code expired".to_string()),
        }
    );
    assert!(state.pending_auth.is_none());
    let next = state.poll_request().unwrap_err();
    assert!(matches!(next, AuthError::NoPendingAuth));
    assert_eq!(next.message(), "No pending auth");
}

#[test]
fn other_refusal_reports_the_provider_code_and_clears_the_session() {
    let mut state = AuthState::new();
    state.finish_start(HttpReply::Body(fixture_code())).unwrap();
    let status = settled(state.finish_poll(refused("authorization_declined")));
    assert_eq!(
        status,
        MSAuthStatus {
            status: "error".to_string(),
            account: None,
            error: Some("Auth error: authorization_declined".to_string()),
        }
    );
    assert!(state.pending_auth.is_none());
}

#[test]
fn refusal_without_a_code_is_unknown() {
    let mut state = AuthState::new();
    state.finish_start(HttpReply::Body(fixture_code())).unwrap();
    let status = settled(state.finish_poll(PollReply::Refused { error: None }));
    assert_eq!(status.status, "error");
    assert_eq!(status.error, Some("Auth error: unknown".to_string()));
    assert!(state.pending_auth.is_none());
}

#[test]
fn unexpected_status_and_unreadable_body_are_hard_failures() {
    let mut state = AuthState::new();
    state.finish_start(HttpReply::Body(fixture_code())).unwrap();
    let err = state
        .finish_poll(PollReply::Status { code: 503, body: "busy".to_string() })
        .unwrap_err();
    assert!(matches!(&err, AuthError::Protocol { hop: Hop::TokenPoll, detail } if detail == "busy"));
    assert_eq!(err.message(), "token poll response rejected: busy");
    assert!(state.pending_auth.is_none());

    state.finish_start(HttpReply::Body(fixture_code())).unwrap();
    let err = state.finish_poll(PollReply::Malformed("eof".to_string())).unwrap_err();
    assert!(matches!(&err, AuthError::Protocol { hop: Hop::TokenPoll, detail } if detail == "eof"));
    assert!(state.pending_auth.is_none());
}

#[test]
fn transport_failure_leaves_the_session_for_another_poll() {
    let mut state = AuthState::new();
    state.finish_start(HttpReply::Body(fixture_code())).unwrap();
    let err = state.finish_poll(PollReply::Transport("timed out".to_string())).unwrap_err();
    assert!(matches!(&err, AuthError::Network { hop: Hop::TokenPoll, detail } if detail == "timed out"));
    assert_eq!(err.message(), "token poll request failed: timed out");
    assert_eq!(state.pending_auth, Some(fixture_code()));
}

#[test]
fn approved_poll_hands_the_tokens_on() {
    let mut state = AuthState::new();
    state.finish_start(HttpReply::Body(fixture_code())).unwrap();
    let tokens = TokenResponse {
        access_token: "at".to_string(),
        refresh_token: "rt".to_string(),
        expires_in: 3600,
    };
    match state.finish_poll(PollReply::Tokens(tokens.clone())) {
        Ok(PollProgress::Exchange(got)) => assert_eq!(got, tokens),
        other => panic!("unexpected: {:?}", other),
    }
    assert_eq!(state.pending_auth, Some(fixture_code()));
}

#[test]
fn exchange_result_ends_the_session_either_way() {
    let account = LauncherAccount {
        id: "local".to_string(),
        uuid: "profile-9".to_string(),
        username: "Steve".to_string(),
        account_type: "federated".to_string(),
        last_used: None,
        created_at: "now".to_string(),
    };
    let mut state = AuthState::new();
    state.finish_start(HttpReply::Body(fixture_code())).unwrap();
    let status = state.finish_exchange(Ok(account.clone()));
    assert_eq!(
        status,
        MSAuthStatus { status: "complete".to_string(), account: Some(account), error: None }
    );
    assert!(state.pending_auth.is_none());

    state.finish_start(HttpReply::Body(fixture_code())).unwrap();
    let status = state.finish_exchange(Err(AuthError::MissingClaim));
    assert_eq!(
        status,
        MSAuthStatus {
            status: "error".to_string(),
            account: None,
            error: Some("No Xbox user hash in response".to_string()),
        }
    );
    assert!(state.pending_auth.is_none());
}

#[test]
fn failed_start_leaves_no_session() {
    let mut state = AuthState::new();
    state.finish_start(HttpReply::Body(fixture_code())).unwrap();
    let err = state.finish_start(HttpReply::Transport("offline".to_string())).unwrap_err();
    assert!(matches!(&err, AuthError::Network { hop: Hop::DeviceCode, detail } if detail == "offline"));
    assert_eq!(err.message(), "device code request failed: offline");
    assert!(state.pending_auth.is_none());

    let err = state
        .finish_start(HttpReply::Status { code: 500, body: "oops".to_string() })
        .unwrap_err();
    assert!(matches!(&err, AuthError::Protocol { hop: Hop::DeviceCode, detail } if detail == "oops"));
    let err = state.finish_start(HttpReply::Malformed("bad json".to_string())).unwrap_err();
    assert!(matches!(&err, AuthError::Protocol { hop: Hop::DeviceCode, detail } if detail == "bad json"));
    assert!(state.pending_auth.is_none());
}

#[test]
fn a_new_start_replaces_the_earlier_session() {
    let mut state = AuthState::new();
    state.finish_start(HttpReply::Body(fixture_code())).unwrap();
    let mut second = fixture_code();
    second.device_code = "dc2".to_string();
    state.finish_start(HttpReply::Body(second.clone())).unwrap();
    assert_eq!(state.pending_auth, Some(second));
    assert_eq!(state.poll_request().unwrap().fields[2].value, "dc2");
}

#[test]
fn status_codes_fall_into_three_kinds() {
    assert_eq!(classify_status(200), ReplyKind::Success);
    assert_eq!(classify_status(204), ReplyKind::Success);
    assert_eq!(classify_status(299), ReplyKind::Success);
    assert_eq!(classify_status(400), ReplyKind::BadRequest);
    assert_eq!(classify_status(199), ReplyKind::Unexpected);
    assert_eq!(classify_status(300), ReplyKind::Unexpected);
    assert_eq!(classify_status(401), ReplyKind::Unexpected);
    assert_eq!(classify_status(500), ReplyKind::Unexpected);
}

#[test]
fn every_failure_has_its_text() {
    assert_eq!(AuthError::MissingClaim.message(), "No Xbox user hash in response");
    assert_eq!(AuthError::CredentialNotFound.message(), "No stored credential for this account");
    assert_eq!(AuthError::NoPendingAuth.message(), "No pending auth");
    assert_eq!(AuthError::Store("keyring set: locked".to_string()).message(), "keyring set: locked");
    let hops = [
        (Hop::DeviceCode, "device code"),
        (Hop::TokenPoll, "token poll"),
        (Hop::Refresh, "refresh token"),
        (Hop::ConsoleIdentity, "Xbox Live auth"),
        (Hop::RelyingParty, "XSTS auth"),
        (Hop::GameLogin, "Minecraft auth"),
        (Hop::Profile, "Minecraft profile"),
    ];
    for (hop, label) in hops {
        assert_eq!(hop.label(), label);
        assert_eq!(
            AuthError::Network { hop, detail: "x".to_string() }.message(),
            format!("{} request failed: x", label)
        );
        assert_eq!(
            AuthError::Protocol { hop, detail: "y".to_string() }.message(),
            format!("{} response rejected: y", label)
        );
    }
}
