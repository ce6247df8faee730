use rots_authserver::steam::{
    create_token, WeakLoginAction, WeakLoginEvent, WeakLoginFlow, WeakLoginRequest,
};
use rots_authserver::text::{push_decimal_i64, push_decimal_u64, push_hex_lower};

fn is_lower_hex(s: &str) -> bool {
    s.chars().all(|c| c.is_ascii_digit() || ('a'..='f').contains(&c))
}

#[test]
fn token_is_thirty_two_bytes_of_hex() {
    let t = create_token();
    assert_eq!(t.len(), 64);
    assert!(is_lower_hex(&t));
    assert_ne!(t, create_token());
}

#[test]
fn hex_is_two_lowercase_digits_per_byte() {
    let mut s = String::from(">");
    push_hex_lower(&mut s, &[0x00, 0xff, 0x10, 0x0a, 0xb7]);
    assert_eq!(s, ">00ff100ab7");
}

#[test]
fn decimal_renderings() {
    let mut s = String::new();
    push_decimal_i64(&mut s, 0);
    push_decimal_i64(&mut s, -7);
    push_decimal_i64(&mut s, 1234567890);
    assert_eq!(s, "0-71234567890");
    let mut m = String::new();
    push_decimal_i64(&mut m, i64::MIN);
    assert_eq!(m, "-9223372036854775808");
    let mut u = String::new();
    push_decimal_u64(&mut u, u64::MAX);
    assert_eq!(u, "18446744073709551615");
}

fn start(id: &str) -> (WeakLoginFlow, String) {
    let (flow, first) = WeakLoginFlow::new(WeakLoginRequest { steam_player_id: id.to_string() });
    match first {
        WeakLoginAction::RecordAttempt { steam_user_id, login_token } => {
            assert_eq!(steam_user_id, id);
            assert_eq!(login_token.len(), 64);
            assert!(is_lower_hex(&login_token));
            (flow, login_token)
        },
        _ => panic!("expected the attempt to be recorded first"),
    }
}

fn step(flow: &mut WeakLoginFlow, event: WeakLoginEvent) -> WeakLoginAction {
    assert!(flow.awaits(&event));
    flow.step(event)
}

fn refusal_body(a: WeakLoginAction) -> String {
    match a {
        WeakLoginAction::Fail { reply } => {
            assert_eq!(reply.status, 400);
            reply.body
        },
        _ => panic!("expected a refusal"),
    }
}

#[test]
fn weak_login_answers_with_the_recorded_token() {
    let (mut flow, token) = start("76561198000000000");
    match step(&mut flow, WeakLoginEvent::AttemptRecorded { result: Ok(()) }) {
        WeakLoginAction::LookupPlayer { steam_user_id } => {
            assert_eq!(steam_user_id, "76561198000000000")
        },
        _ => panic!("expected the player to be looked up"),
    }
    match step(&mut flow, WeakLoginEvent::PlayerLookedUp { result: Ok(None) }) {
        WeakLoginAction::RegisterPlayer { steam_user_id } => {
            assert_eq!(steam_user_id, "76561198000000000")
        },
        _ => panic!("expected the player to be registered"),
    }
    match step(&mut flow, WeakLoginEvent::PlayerRegistered { result: Ok(17) }) {
        WeakLoginAction::RecordLogin { login_token, player_id } => {
            assert_eq!(login_token, token);
            assert_eq!(player_id, 17);
        },
        _ => panic!("expected the login to be recorded"),
    }
    match step(&mut flow, WeakLoginEvent::LoginRecorded { result: Ok(()) }) {
        WeakLoginAction::Reply { response } => {
            assert_eq!(response.player_id, 17);
            assert_eq!(response.login_token, token);
            assert!(response.success);
        },
        _ => panic!("expected the answer"),
    }
    assert!(flow.is_done());
}

#[test]
fn weak_login_refusals() {
    let (mut flow, _) = start("s");
    let body = refusal_body(step(&mut flow, WeakLoginEvent::AttemptRecorded { result: Err("e1".to_string()) }));
    assert_eq!(body, "Error: Failed to record login attempt: e1");
    assert!(flow.is_done());

    let (mut flow, _) = start("s");
    step(&mut flow, WeakLoginEvent::AttemptRecorded { result: Ok(()) });
    let body = refusal_body(step(&mut flow, WeakLoginEvent::PlayerLookedUp { result: Err("down".to_string()) }));
    assert_eq!(body, "Error: Failed to fetch registered user: down");

    let (mut flow, _) = start("s");
    step(&mut flow, WeakLoginEvent::AttemptRecorded { result: Ok(()) });
    step(&mut flow, WeakLoginEvent::PlayerLookedUp { result: Ok(None) });
    let body = refusal_body(step(&mut flow, WeakLoginEvent::PlayerRegistered { result: Err("no rows".to_string()) }));
    assert_eq!(body, "Error: Failed to fetch registered user: no rows");

    let (mut flow, _) = start("s");
    step(&mut flow, WeakLoginEvent::AttemptRecorded { result: Ok(()) });
    step(&mut flow, WeakLoginEvent::PlayerLookedUp { result: Ok(Some(3)) });
    let body = refusal_body(step(&mut flow, WeakLoginEvent::LoginRecorded { result: Err("e3".to_string()) }));
    assert_eq!(body, "Error: Failed to record valid login: e3");
}

#[test]
fn weak_login_player_id_is_reinterpreted_unsigned() {
    let (mut flow, _) = start("s");
    step(&mut flow, WeakLoginEvent::AttemptRecorded { result: Ok(()) });
    step(&mut flow, WeakLoginEvent::PlayerLookedUp { result: Ok(None) });
    step(&mut flow, WeakLoginEvent::PlayerRegistered { result: Ok(-1) });
    match step(&mut flow, WeakLoginEvent::LoginRecorded { result: Ok(()) }) {
        WeakLoginAction::Reply { response } => assert_eq!(response.player_id, u64::MAX),
        _ => panic!("expected the answer"),
    }
}

#[test]
fn returning_steam_player_logs_in_under_its_id() {
    let (mut flow, token) = start("76561198000000000");
    step(&mut flow, WeakLoginEvent::AttemptRecorded { result: Ok(()) });
    match step(&mut flow, WeakLoginEvent::PlayerLookedUp { result: Ok(Some(99)) }) {
        WeakLoginAction::RecordLogin { login_token, player_id } => {
            assert_eq!(login_token, token);
            assert_eq!(player_id, 99);
        },
        _ => panic!("expected the login to be recorded"),
    }
    match step(&mut flow, WeakLoginEvent::LoginRecorded { result: Ok(()) }) {
        WeakLoginAction::Reply { response } => {
            assert_eq!(response.player_id, 99);
            assert_eq!(response.login_token, token);
            assert!(response.success);
        },
        _ => panic!("expected the answer"),
    }
}
