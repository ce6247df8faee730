use rots_authserver::api::{HeaderName, HttpReply};
use rots_authserver::callback::{CallbackAction, CallbackEvent, CallbackFlow};
use rots_authserver::discord::{CallbackAPIParams, DiscordUser, TokenResponse};
use rots_authserver::{Action, Config};

fn config(redirect: &str) -> Config {
    config_with(redirect, false)
}

fn config_with(redirect: &str, dry_run: bool) -> Config {
    Config {
        port: 8000,
        database_url: "postgres://db".to_string(),
        discord_client_id: "cid".to_string(),
        discord_client_secret: "csecret".to_string(),
        discord_redirect_uri: redirect.to_string(),
        dry_run,
        action: Action::Server,
    }
}

fn params(code: Option<&str>, error: Option<&str>) -> CallbackAPIParams {
    CallbackAPIParams {
        code: code.map(|c| c.to_string()),
        error: error.map(|e| e.to_string()),
        state: "abcd".to_string(),
    }
}

fn tokens() -> TokenResponse {
    TokenResponse {
        access_token: "acc".to_string(),
        token_type: "Bearer".to_string(),
        expires_in: 604800,
        refresh_token: "ref".to_string(),
        scope: "identify openid".to_string(),
    }
}

fn user(global_name: Option<&str>) -> DiscordUser {
    DiscordUser {
        id: "262351348534738945".to_string(),
        username: "john2143".to_string(),
        avatar: Some("f3e0".to_string()),
        banner: None,
        accent_color: Some(11753991),
        global_name: global_name.map(|g| g.to_string()),
    }
}

fn step(flow: &mut CallbackFlow, event: CallbackEvent) -> CallbackAction {
    assert!(flow.awaits(&event));
    flow.step(event)
}

fn reply_of(a: CallbackAction) -> HttpReply {
    match a {
        CallbackAction::Respond { reply } => reply,
        _ => panic!("expected a reply"),
    }
}

fn start(p: CallbackAPIParams, c: &Config) -> CallbackFlow {
    let (flow, first) = CallbackFlow::new(p, c);
    match first {
        CallbackAction::MarkAttemptCompleted { state } => assert_eq!(state, "abcd"),
        _ => panic!("expected the attempt to be marked first"),
    }
    flow
}

/// Runs a flow up to the point where the player id is looked up.
fn up_to_lookup(redirect: &str, global_name: Option<&str>) -> CallbackFlow {
    let c = config(redirect);
    let mut flow = start(params(Some("code1"), None), &c);
    match step(&mut flow, CallbackEvent::AttemptMarked { rows_affected: 1 }) {
        CallbackAction::ExchangeCode { form } => {
            assert_eq!(form[3], ("code".to_string(), "code1".to_string()));
            assert_eq!(form[4], ("redirect_uri".to_string(), redirect.to_string()));
        },
        _ => panic!("expected the code exchange"),
    }
    match step(&mut flow, CallbackEvent::CodeExchanged { result: Ok(tokens()) }) {
        CallbackAction::FetchUser { access_token } => assert_eq!(access_token, "acc"),
        _ => panic!("expected the user lookup"),
    }
    match step(&mut flow, CallbackEvent::UserFetched { result: Ok(user(global_name)) }) {
        CallbackAction::SaveAccount { discord_user_id, username, avatar, global_name: g } => {
            assert_eq!(discord_user_id, "262351348534738945");
            assert_eq!(username, "john2143");
            assert_eq!(avatar, Some("f3e0".to_string()));
            assert_eq!(g, global_name.unwrap_or("john2143"));
        },
        _ => panic!("expected the account to be saved"),
    }
    match step(&mut flow, CallbackEvent::AccountSaved { result: Ok(()) }) {
        CallbackAction::LinkAttempt { discord_user_id, state, access_token, refresh_token } => {
            assert_eq!(discord_user_id, "262351348534738945");
            assert_eq!(state, "abcd");
            assert_eq!(access_token, "acc");
            assert_eq!(refresh_token, "ref");
        },
        _ => panic!("expected the attempt to be linked"),
    }
    match step(&mut flow, CallbackEvent::AttemptLinked { result: Err("db down".to_string()) }) {
        CallbackAction::LookupPlayer { discord_user_id } => {
            assert_eq!(discord_user_id, "262351348534738945")
        },
        _ => panic!("expected the player lookup"),
    }
    flow
}

#[test]
fn unknown_state_is_refused() {
    let c = config("https://example.com/cb");
    let mut flow = start(params(Some("code1"), None), &c);
    let r = reply_of(step(&mut flow, CallbackEvent::AttemptMarked { rows_affected: 0 }));
    assert_eq!(r.status, 400);
    assert_eq!(r.body, "Error: Invalid or expired 'state' parameter in callback");
    assert!(flow.is_done());
}

#[test]
fn discord_error_is_reported() {
    let c = config("https://example.com/cb");
    let mut flow = start(params(Some("code1"), Some("access_denied")), &c);
    let r = reply_of(step(&mut flow, CallbackEvent::AttemptMarked { rows_affected: 1 }));
    assert_eq!(r.status, 400);
    assert_eq!(r.body, "Error: access_denied");
}

#[test]
fn missing_code_is_refused() {
    let c = config("https://example.com/cb");
    let mut flow = start(params(None, None), &c);
    let r = reply_of(step(&mut flow, CallbackEvent::AttemptMarked { rows_affected: 1 }));
    assert_eq!(r.body, "Error: Missing 'code' parameter in callback");
}

#[test]
fn missing_configuration_aborts() {
    let c = config("");
    let mut flow = start(params(Some("code1"), None), &c);
    match step(&mut flow, CallbackEvent::AttemptMarked { rows_affected: 1 }) {
        CallbackAction::Abort { reason } => {
            assert_eq!(reason, "Discord OAuth configuration not found")
        },
        _ => panic!("expected an abort"),
    }
    assert!(flow.is_done());
}

#[test]
fn failed_code_exchange_is_reported() {
    let c = config("https://example.com/cb");
    let mut flow = start(params(Some("code1"), None), &c);
    step(&mut flow, CallbackEvent::AttemptMarked { rows_affected: 1 });
    let r = reply_of(step(
        &mut flow,
        CallbackEvent::CodeExchanged { result: Err("invalid_grant".to_string()) },
    ));
    assert_eq!(r.body, "Error: Failed to exchange code: invalid_grant");
}

#[test]
fn failed_user_fetch_is_reported() {
    let c = config("https://example.com/cb");
    let mut flow = start(params(Some("code1"), None), &c);
    step(&mut flow, CallbackEvent::AttemptMarked { rows_affected: 1 });
    step(&mut flow, CallbackEvent::CodeExchanged { result: Ok(tokens()) });
    let r = reply_of(step(&mut flow, CallbackEvent::UserFetched { result: Err("401".to_string()) }));
    assert_eq!(r.body, "Error: Failed to fetch user: 401");
}

#[test]
fn failed_account_save_is_reported() {
    let c = config("https://example.com/cb");
    let mut flow = start(params(Some("code1"), None), &c);
    step(&mut flow, CallbackEvent::AttemptMarked { rows_affected: 1 });
    step(&mut flow, CallbackEvent::CodeExchanged { result: Ok(tokens()) });
    step(&mut flow, CallbackEvent::UserFetched { result: Ok(user(None)) });
    let r = reply_of(step(&mut flow, CallbackEvent::AccountSaved { result: Err("x".to_string()) }));
    assert_eq!(r.body, "Error: Failed to insert or fetch user: x");
}

#[test]
fn failed_player_lookup_is_reported() {
    let mut flow = up_to_lookup("https://example.com/cb", None);
    let r = reply_of(step(&mut flow, CallbackEvent::PlayerLookedUp { result: Err("y".to_string()) }));
    assert_eq!(r.body, "Error: Failed to fetch registered user: y");
}

#[test]
fn failed_player_creation_is_reported() {
    let mut flow = up_to_lookup("https://example.com/cb", None);
    match step(&mut flow, CallbackEvent::PlayerLookedUp { result: Ok(None) }) {
        CallbackAction::CreatePlayer { discord_user_id } => {
            assert_eq!(discord_user_id, "262351348534738945")
        },
        _ => panic!("expected a new player"),
    }
    let r = reply_of(step(&mut flow, CallbackEvent::PlayerCreated { result: Err("z".to_string()) }));
    assert_eq!(r.body, "Error: Failed to create registered user: z");
}

fn finish(mut flow: CallbackFlow, record: CallbackAction, player_id: i64) -> (String, HttpReply) {
    let token = match record {
        CallbackAction::RecordLogin { login_token, player_id: p } => {
            assert_eq!(p, player_id);
            login_token
        },
        _ => panic!("expected the login to be recorded"),
    };
    assert_eq!(token.len(), 64);
    assert!(token.chars().all(|c| c.is_ascii_digit() || ('a'..='f').contains(&c)));
    let r = reply_of(step(&mut flow, CallbackEvent::LoginRecorded));
    assert!(flow.is_done());
    (token, r)
}

#[test]
fn existing_player_logs_in_with_secure_cookies() {
    let mut flow = up_to_lookup("https://example.com/cb", Some("John2143"));
    let record = step(&mut flow, CallbackEvent::PlayerLookedUp { result: Ok(Some(42)) });
    let (token, r) = finish(flow, record, 42);
    assert_eq!(r.status, 302);
    assert_eq!(
        r.headers,
        vec![
            (HeaderName::ContentType, "text/plain".to_string()),
            (HeaderName::CacheControl, "no-cache".to_string()),
            (
                HeaderName::Location,
                format!("http://192.168.1.32:8080/#player_id=42&login_token={}", token),
            ),
            (
                HeaderName::SetCookie,
                "player_id=42; Path=/; HttpOnly; Secure; SameSite=Lax".to_string(),
            ),
            (
                HeaderName::SetCookie,
                format!("login_token={}; Path=/; HttpOnly; Secure; SameSite=Lax", token),
            ),
        ]
    );
    assert_eq!(r.body, format!("Logged in as 42 ({}). You can close this tab.", token));
}

#[test]
fn new_player_logs_in_without_secure_cookies() {
    let mut flow = up_to_lookup("http://localhost/cb", None);
    step(&mut flow, CallbackEvent::PlayerLookedUp { result: Ok(None) });
    let record = step(&mut flow, CallbackEvent::PlayerCreated { result: Ok(-7) });
    let (token, r) = finish(flow, record, -7);
    assert_eq!(r.headers[3].1, "player_id=-7; Path=/; HttpOnly; SameSite=Lax");
    assert_eq!(r.headers[4].1, format!("login_token={}; Path=/; HttpOnly; SameSite=Lax", token));
}

#[test]
fn flow_awaits_only_the_next_outcome() {
    let c = config("https://example.com/cb");
    let flow = start(params(Some("code1"), None), &c);
    assert!(!flow.awaits(&CallbackEvent::LoginRecorded));
    assert!(flow.awaits(&CallbackEvent::AttemptMarked { rows_affected: 3 }));
    assert!(!flow.is_done());
}

#[test]
fn dry_run_never_asks_discord() {
    let c = config_with("https://example.com/cb", true);
    let mut flow = start(params(Some("code1"), None), &c);
    let r = reply_of(step(&mut flow, CallbackEvent::AttemptMarked { rows_affected: 1 }));
    assert_eq!(r.status, 400);
    assert_eq!(r.body, "Error: Dry run: requests to Discord are disabled");
    assert!(flow.is_done());
}

#[test]
fn dry_run_without_configuration_aborts() {
    let c = config_with("", true);
    let mut flow = start(params(Some("code1"), None), &c);
    match step(&mut flow, CallbackEvent::AttemptMarked { rows_affected: 1 }) {
        CallbackAction::Abort { reason } => {
            assert_eq!(reason, "Discord OAuth configuration not found")
        },
        _ => panic!("expected an abort"),
    }
    assert!(flow.is_done());
}
