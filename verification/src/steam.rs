//! Steam login: login tokens and the weak-login flow.
use vstd::prelude::*;

use crate::api::{HttpReply, ReplyView};
use crate::discord::{basic_error_response, error_reply};
use crate::text::{hex_lower, is_lower_hex, lemma_hex_lower_shape, push_hex_lower};

verus! {

/// `count` bytes drawn from the thread-local random number generator
/// (`rand::random_iter`).
///
/// Trusted: the contract states only the length, which `take(count)` on the
/// endless iterator gives; the bytes themselves are chance. `rand` panics
/// when the operating system's entropy source cannot seed the generator;
/// nothing here can rule that out.
#[verifier::external_body]
pub(crate) fn random_bytes(count: usize) -> (res: Vec<u8>)
    ensures
        res@.len() == count,
{
    rand::random_iter().take(count).collect()
}

/// Whether `s` is the lowercase hexadecimal rendering of `n` bytes.
pub open spec fn is_hex_of_len(s: Seq<char>, n: nat) -> bool {
    exists|b: Seq<u8>| b.len() == n && s == #[trigger] hex_lower(b)
}

/// Number of random bytes in a login token.
pub const TOKEN_BYTES: usize = 32;

/// Whether `s` has the shape of a login token: 32 bytes in hexadecimal.
pub open spec fn is_login_token(s: Seq<char>) -> bool {
    is_hex_of_len(s, TOKEN_BYTES as nat)
}

/// Hexadecimal rendering of `count` fresh random bytes.
pub(crate) fn random_hex(count: usize) -> (res: String)
    ensures
        is_hex_of_len(res@, count as nat),
{
    let bytes = random_bytes(count);
    let mut s = String::new();
    push_hex_lower(&mut s, bytes.as_slice());
    assert(s@ =~= hex_lower(bytes@));
    s
}

/// A fresh login token: 32 random bytes in lowercase hexadecimal.
pub fn create_token() -> (token: String)
    ensures
        is_login_token(token@),
{
    random_hex(TOKEN_BYTES)
}

/// A login token has 64 characters, each a lowercase hexadecimal digit.
pub proof fn lemma_login_token_shape(s: Seq<char>)
    requires
        is_login_token(s),
    ensures
        s.len() == 64,
        is_lower_hex(s),
{
    let b = choose|b: Seq<u8>| b.len() == TOKEN_BYTES as nat && s == #[trigger] hex_lower(b);
    lemma_hex_lower_shape(b);
}


/// A request to log in as a Steam player, taken on trust.
#[derive(Clone, Debug)]
pub struct WeakLoginRequest {
    pub steam_player_id: String,
}

/// The answer to a successful weak login.
#[derive(Clone, Debug)]
pub struct WeakLoginResponse {
    pub player_id: u64,
    pub login_token: String,
    pub success: bool,
}

/// The model of a [`WeakLoginResponse`].
pub struct WeakLoginResponseView {
    pub player_id: u64,
    pub login_token: Seq<char>,
    pub success: bool,
}

impl View for WeakLoginResponse {
    type V = WeakLoginResponseView;

    open spec fn view(&self) -> WeakLoginResponseView {
        WeakLoginResponseView {
            player_id: self.player_id,
            login_token: self.login_token@,
            success: self.success,
        }
    }
}

/// Where a weak login stands: what the flow waits for next.
pub enum WeakLoginStage {
    /// Waiting for the login attempt to be recorded.
    RecordingAttempt,
    /// Waiting for the player id registered for the Steam account, if any.
    LookingUpPlayer,
    /// Waiting for a new player id for the Steam account.
    RegisteringPlayer,
    /// Waiting for the login token to be stored for this player.
    RecordingLogin { player_id: i64 },
    /// The flow has answered.
    Done,
}

/// The outcome of an action of the weak login, handed back to the flow.
pub enum WeakLoginEvent {
    /// Whether the attempt was recorded, or the error's text.
    AttemptRecorded { result: Result<(), String> },
    /// The player id registered for the Steam account, if any, or the
    /// error's text.
    PlayerLookedUp { result: Result<Option<i64>, String> },
    /// The player id newly registered for the Steam account, or the error's
    /// text.
    PlayerRegistered { result: Result<i64, String> },
    /// Whether the login token was stored, or the error's text.
    LoginRecorded { result: Result<(), String> },
}

/// The model of a [`WeakLoginEvent`].
pub enum WeakLoginEventView {
    AttemptRecorded { result: Result<(), Seq<char>> },
    PlayerLookedUp { result: Result<Option<i64>, Seq<char>> },
    PlayerRegistered { result: Result<i64, Seq<char>> },
    LoginRecorded { result: Result<(), Seq<char>> },
}

pub open spec fn unit_result(r: Result<(), String>) -> Result<(), Seq<char>> {
    match r {
        Ok(()) => Ok(()),
        Err(e) => Err(e@),
    }
}

impl View for WeakLoginEvent {
    type V = WeakLoginEventView;

    open spec fn view(&self) -> WeakLoginEventView {
        match self {
            WeakLoginEvent::AttemptRecorded { result } => WeakLoginEventView::AttemptRecorded {
                result: unit_result(*result),
            },
            WeakLoginEvent::PlayerLookedUp { result } => WeakLoginEventView::PlayerLookedUp {
                result: match result {
                    Ok(p) => Ok(*p),
                    Err(e) => Err(e@),
                },
            },
            WeakLoginEvent::PlayerRegistered { result } => WeakLoginEventView::PlayerRegistered {
                result: match result {
                    Ok(p) => Ok(*p),
                    Err(e) => Err(e@),
                },
            },
            WeakLoginEvent::LoginRecorded { result } => WeakLoginEventView::LoginRecorded {
                result: unit_result(*result),
            },
        }
    }
}

/// What the weak login asks the HTTP layer to do next.
pub enum WeakLoginAction {
    /// Record a login attempt of the Steam account with this token.
    RecordAttempt { steam_user_id: String, login_token: String },
    /// Look up the player id registered for the Steam account.
    LookupPlayer { steam_user_id: String },
    /// Register the Steam account and report its new player id.
    RegisterPlayer { steam_user_id: String },
    /// Store the login token as a valid login of the player.
    RecordLogin { login_token: String, player_id: i64 },
    /// Answer with this response; the flow is over.
    Reply { response: WeakLoginResponse },
    /// Answer with this refusal; the flow is over.
    Fail { reply: HttpReply },
}

/// The model of a [`WeakLoginAction`].
pub enum WeakLoginActionView {
    RecordAttempt { steam_user_id: Seq<char>, login_token: Seq<char> },
    LookupPlayer { steam_user_id: Seq<char> },
    RegisterPlayer { steam_user_id: Seq<char> },
    RecordLogin { login_token: Seq<char>, player_id: i64 },
    Reply { response: WeakLoginResponseView },
    Fail { reply: ReplyView },
}

impl View for WeakLoginAction {
    type V = WeakLoginActionView;

    open spec fn view(&self) -> WeakLoginActionView {
        match self {
            WeakLoginAction::RecordAttempt { steam_user_id, login_token } =>
                WeakLoginActionView::RecordAttempt {
                steam_user_id: steam_user_id@,
                login_token: login_token@,
            },
            WeakLoginAction::LookupPlayer { steam_user_id } => WeakLoginActionView::LookupPlayer {
                steam_user_id: steam_user_id@,
            },
            WeakLoginAction::RegisterPlayer { steam_user_id } => WeakLoginActionView::RegisterPlayer {
                steam_user_id: steam_user_id@,
            },
            WeakLoginAction::RecordLogin { login_token, player_id } =>
                WeakLoginActionView::RecordLogin { login_token: login_token@, player_id: *player_id },
            WeakLoginAction::Reply { response } => WeakLoginActionView::Reply {
                response: response@,
            },
            WeakLoginAction::Fail { reply } => WeakLoginActionView::Fail { reply: reply@ },
        }
    }
}

/// A weak login in progress: the Steam account, the token issued for it,
/// and the stage.
pub struct WeakLoginFlow {
    steam_player_id: String,
    login_token: String,
    stage: WeakLoginStage,
}

/// The model of the stage of a weak login.
pub enum WeakLoginStageView {
    RecordingAttempt,
    LookingUpPlayer,
    RegisteringPlayer,
    RecordingLogin { player_id: i64 },
    Done,
}

/// The model of a [`WeakLoginFlow`].
pub struct WeakLoginView {
    pub steam_player_id: Seq<char>,
    pub login_token: Seq<char>,
    pub stage: WeakLoginStageView,
}

impl View for WeakLoginFlow {
    type V = WeakLoginView;

    closed spec fn view(&self) -> WeakLoginView {
        WeakLoginView {
            steam_player_id: self.steam_player_id@,
            login_token: self.login_token@,
            stage: match self.stage {
                WeakLoginStage::RecordingAttempt => WeakLoginStageView::RecordingAttempt,
                WeakLoginStage::LookingUpPlayer => WeakLoginStageView::LookingUpPlayer,
                WeakLoginStage::RegisteringPlayer => WeakLoginStageView::RegisteringPlayer,
                WeakLoginStage::RecordingLogin { player_id } => WeakLoginStageView::RecordingLogin {
                    player_id,
                },
                WeakLoginStage::Done => WeakLoginStageView::Done,
            },
        }
    }
}

/// Whether the weak login at `stage` waits for an event like `e`.
pub open spec fn weak_login_awaits(stage: WeakLoginStageView, e: WeakLoginEventView) -> bool {
    match stage {
        WeakLoginStageView::RecordingAttempt => e is AttemptRecorded,
        WeakLoginStageView::LookingUpPlayer => e is PlayerLookedUp,
        WeakLoginStageView::RegisteringPlayer => e is PlayerRegistered,
        WeakLoginStageView::RecordingLogin { .. } => e is LoginRecorded,
        WeakLoginStageView::Done => false,
    }
}

/// The weak login ends with the refusal `reply`.
pub open spec fn weak_login_fails(s2: WeakLoginView, a: WeakLoginActionView, reply: ReplyView) -> bool {
    s2.stage is Done && a == (WeakLoginActionView::Fail { reply })
}

/// One step of a weak login: from `s`, on event `e`, the flow moves to
/// `s2` and asks for `a`.
pub open spec fn weak_login_step(
    s: WeakLoginView,
    e: WeakLoginEventView,
    s2: WeakLoginView,
    a: WeakLoginActionView,
) -> bool {
    &&& s2.steam_player_id == s.steam_player_id
    &&& s2.login_token == s.login_token
    &&& match (s.stage, e) {
        (WeakLoginStageView::RecordingAttempt, WeakLoginEventView::AttemptRecorded { result }) =>
            match result {
            Err(err) => weak_login_fails(
                s2,
                a,
                error_reply("Failed to record login attempt: "@ + err),
            ),
            Ok(()) => s2.stage is LookingUpPlayer && a == (WeakLoginActionView::LookupPlayer {
                steam_user_id: s.steam_player_id,
            }),
        },
        (WeakLoginStageView::LookingUpPlayer, WeakLoginEventView::PlayerLookedUp { result }) =>
            match result {
            Err(err) => weak_login_fails(
                s2,
                a,
                error_reply("Failed to fetch registered user: "@ + err),
            ),
            Ok(Some(pid)) => s2.stage == (WeakLoginStageView::RecordingLogin { player_id: pid })
                && a == (WeakLoginActionView::RecordLogin {
                login_token: s.login_token,
                player_id: pid,
            }),
            Ok(None) => s2.stage is RegisteringPlayer && a == (
            WeakLoginActionView::RegisterPlayer { steam_user_id: s.steam_player_id }),
        },
        (WeakLoginStageView::RegisteringPlayer, WeakLoginEventView::PlayerRegistered { result }) =>
            match result {
            Err(err) => weak_login_fails(
                s2,
                a,
                error_reply("Failed to fetch registered user: "@ + err),
            ),
            Ok(pid) => s2.stage == (WeakLoginStageView::RecordingLogin { player_id: pid }) && a == (
            WeakLoginActionView::RecordLogin { login_token: s.login_token, player_id: pid }),
        },
        (
            WeakLoginStageView::RecordingLogin { player_id },
            WeakLoginEventView::LoginRecorded { result },
        ) => match result {
            Err(err) => weak_login_fails(
                s2,
                a,
                error_reply("Failed to record valid login: "@ + err),
            ),
            Ok(()) => s2.stage is Done && a == (WeakLoginActionView::Reply {
                response: WeakLoginResponseView {
                    player_id: player_id as u64,
                    login_token: s.login_token,
                    success: true,
                },
            }),
        },
        _ => false,
    }
}

fn fail_with(prefix: &str, detail: &str) -> (a: WeakLoginAction)
    ensures
        a@ == (WeakLoginActionView::Fail { reply: error_reply(prefix@ + detail@) }),
{
    let mut reason = String::new();
    reason.append(prefix);
    reason.append(detail);
    assert(reason@ =~= prefix@ + detail@);
    WeakLoginAction::Fail { reply: basic_error_response(reason.as_str()) }
}

impl WeakLoginFlow {
    /// Starts a weak login for the Steam account of `request` with a fresh
    /// login token: the first action records the attempt with that token.
    pub fn new(request: WeakLoginRequest) -> (res: (WeakLoginFlow, WeakLoginAction))
        ensures
            res.0@.steam_player_id == request.steam_player_id@,
            is_login_token(res.0@.login_token),
            res.0@.stage is RecordingAttempt,
            res.1@ == (WeakLoginActionView::RecordAttempt {
                steam_user_id: request.steam_player_id@,
                login_token: res.0@.login_token,
            }),
    {
        let login_token = create_token();
        let action = WeakLoginAction::RecordAttempt {
            steam_user_id: request.steam_player_id.clone(),
            login_token: login_token.clone(),
        };
        let flow = WeakLoginFlow {
            steam_player_id: request.steam_player_id,
            login_token,
            stage: WeakLoginStage::RecordingAttempt,
        };
        (flow, action)
    }

    /// Whether the weak login has answered.
    pub fn is_done(&self) -> (res: bool)
        ensures
            res == (self@.stage is Done),
    {
        match self.stage {
            WeakLoginStage::Done => true,
            _ => false,
        }
    }

    /// Whether the weak login waits for an event like `event` now.
    pub fn awaits(&self, event: &WeakLoginEvent) -> (res: bool)
        ensures
            res == weak_login_awaits(self@.stage, event@),
    {
        match (&self.stage, event) {
            (WeakLoginStage::RecordingAttempt, WeakLoginEvent::AttemptRecorded { .. }) => true,
            (WeakLoginStage::LookingUpPlayer, WeakLoginEvent::PlayerLookedUp { .. }) => true,
            (WeakLoginStage::RegisteringPlayer, WeakLoginEvent::PlayerRegistered { .. }) => true,
            (WeakLoginStage::RecordingLogin { .. }, WeakLoginEvent::LoginRecorded { .. }) => true,
            _ => false,
        }
    }

    /// Handles the outcome of the last action and returns the next one.
    pub fn step(&mut self, event: WeakLoginEvent) -> (action: WeakLoginAction)
        requires
            weak_login_awaits(old(self)@.stage, event@),
        ensures
            weak_login_step(old(self)@, event@, final(self)@, action@),
            action@ matches WeakLoginActionView::LookupPlayer { steam_user_id } ==> steam_user_id
                == old(self)@.steam_player_id,
            action@ matches WeakLoginActionView::RegisterPlayer { steam_user_id } ==> steam_user_id
                == old(self)@.steam_player_id,
            final(self)@.steam_player_id == old(self)@.steam_player_id,
    {
        let mut stage = WeakLoginStage::Done;
        std::mem::swap(&mut stage, &mut self.stage);
        match (stage, event) {
            (WeakLoginStage::RecordingAttempt, WeakLoginEvent::AttemptRecorded { result }) =>
                match result {
                Err(e) => fail_with("Failed to record login attempt: ", e.as_str()),
                Ok(()) => {
                    self.stage = WeakLoginStage::LookingUpPlayer;
                    WeakLoginAction::LookupPlayer { steam_user_id: self.steam_player_id.clone() }
                },
            },
            (WeakLoginStage::LookingUpPlayer, WeakLoginEvent::PlayerLookedUp { result }) =>
                match result {
                Err(e) => fail_with("Failed to fetch registered user: ", e.as_str()),
                Ok(Some(player_id)) => {
                    self.stage = WeakLoginStage::RecordingLogin { player_id };
                    WeakLoginAction::RecordLogin { login_token: self.login_token.clone(), player_id }
                },
                Ok(None) => {
                    self.stage = WeakLoginStage::RegisteringPlayer;
                    WeakLoginAction::RegisterPlayer { steam_user_id: self.steam_player_id.clone() }
                },
            },
            (WeakLoginStage::RegisteringPlayer, WeakLoginEvent::PlayerRegistered { result }) =>
                match result {
                Err(e) => fail_with("Failed to fetch registered user: ", e.as_str()),
                Ok(player_id) => {
                    self.stage = WeakLoginStage::RecordingLogin { player_id };
                    WeakLoginAction::RecordLogin { login_token: self.login_token.clone(), player_id }
                },
            },
            (WeakLoginStage::RecordingLogin { player_id }, WeakLoginEvent::LoginRecorded { result }) =>
                match result {
                Err(e) => fail_with("Failed to record valid login: ", e.as_str()),
                Ok(()) => WeakLoginAction::Reply {
                    response: WeakLoginResponse {
                        player_id: player_id as u64,
                        login_token: self.login_token.clone(),
                        success: true,
                    },
                },
            },
            (_, _) => {
                proof {
                    assert(false);
                }
                fail_with("", "")
            },
        }
    }
}


/// `states` and `actions` are what the weak login goes through from `s0`
/// when it is handed `events` in turn.
pub open spec fn weak_login_run(
    s0: WeakLoginView,
    events: Seq<WeakLoginEventView>,
    states: Seq<WeakLoginView>,
    actions: Seq<WeakLoginActionView>,
) -> bool {
    &&& states.len() == events.len() + 1
    &&& actions.len() == events.len()
    &&& states[0] == s0
    &&& forall|i: int|
        #![trigger events[i]]
        0 <= i < events.len() ==> weak_login_step(states[i], events[i], states[i + 1], actions[i])
}

proof fn lemma_weak_token_constant(
    s0: WeakLoginView,
    events: Seq<WeakLoginEventView>,
    states: Seq<WeakLoginView>,
    actions: Seq<WeakLoginActionView>,
    k: int,
)
    requires
        weak_login_run(s0, events, states, actions),
        0 <= k < states.len(),
    ensures
        states[k].login_token == s0.login_token,
        states[k].steam_player_id == s0.steam_player_id,
    decreases k,
{
    if k > 0 {
        lemma_weak_token_constant(s0, events, states, actions, k - 1);
        assert(weak_login_step(states[k - 1], events[k - 1], states[k], actions[k - 1]));
    }
}

/// A weak login answers successfully only after two earlier outcomes at
/// least, with the token it was started with (the token of the recorded
/// attempt), which the step before stored for the player id that the
/// database gave (the registered one for a returning account, else the new
/// one), and with `success` set.
pub proof fn lemma_weak_login_answers_with_its_token(
    s0: WeakLoginView,
    events: Seq<WeakLoginEventView>,
    states: Seq<WeakLoginView>,
    actions: Seq<WeakLoginActionView>,
    k: int,
)
    requires
        s0.stage is RecordingAttempt,
        weak_login_run(s0, events, states, actions),
        0 <= k < actions.len(),
        actions[k] is Reply,
    ensures
        k >= 2,
        actions[k - 1] matches WeakLoginActionView::RecordLogin { login_token, player_id }
            && login_token == s0.login_token && actions[k]->response == (WeakLoginResponseView {
            player_id: player_id as u64,
            login_token: s0.login_token,
            success: true,
        }) && (events[k - 1] == (WeakLoginEventView::PlayerLookedUp { result: Ok(Some(player_id)) })
            || events[k - 1] == (WeakLoginEventView::PlayerRegistered { result: Ok(player_id) })),
{
    lemma_weak_token_constant(s0, events, states, actions, k);
    assert(weak_login_step(states[k], events[k], states[k + 1], actions[k]));
    assert(states[k].stage is RecordingLogin);
    assert(k >= 1);
    assert(weak_login_step(states[k - 1], events[k - 1], states[k], actions[k - 1]));
    lemma_weak_token_constant(s0, events, states, actions, k - 1);
    assert(states[k - 1].stage is LookingUpPlayer || states[k - 1].stage is RegisteringPlayer);
    assert(k - 1 != 0);
}

/// A Steam account that is already registered logs in under the player id
/// it has: no new player is registered for it.
pub proof fn lemma_returning_player_logs_in(
    s: WeakLoginView,
    player_id: i64,
    s2: WeakLoginView,
    a: WeakLoginActionView,
)
    requires
        s.stage is LookingUpPlayer,
        weak_login_step(
            s,
            WeakLoginEventView::PlayerLookedUp { result: Ok(Some(player_id)) },
            s2,
            a,
        ),
    ensures
        a == (WeakLoginActionView::RecordLogin { login_token: s.login_token, player_id }),
        s2.stage == (WeakLoginStageView::RecordingLogin { player_id }),
{
}

/// Every refusal of a weak login is a `400` reply with `Error: ` and the
/// reason, and ends the flow.
pub proof fn lemma_weak_login_refusals(
    s: WeakLoginView,
    e: WeakLoginEventView,
    s2: WeakLoginView,
    a: WeakLoginActionView,
)
    requires
        weak_login_step(s, e, s2, a),
        a is Fail,
    ensures
        a->reply.status == 400,
        exists|reason: Seq<char>| a->reply == #[trigger] error_reply(reason),
        s2.stage is Done,
{
    match (s.stage, e) {
        (WeakLoginStageView::RecordingAttempt, WeakLoginEventView::AttemptRecorded { result }) => {
            assert(a->reply == error_reply("Failed to record login attempt: "@ + result->Err_0));
        },
        (WeakLoginStageView::LookingUpPlayer, WeakLoginEventView::PlayerLookedUp { result }) => {
            assert(a->reply == error_reply("Failed to fetch registered user: "@ + result->Err_0));
        },
        (WeakLoginStageView::RegisteringPlayer, WeakLoginEventView::PlayerRegistered { result }) => {
            assert(a->reply == error_reply("Failed to fetch registered user: "@ + result->Err_0));
        },
        (WeakLoginStageView::RecordingLogin { .. }, WeakLoginEventView::LoginRecorded { result }) => {
            assert(a->reply == error_reply("Failed to record valid login: "@ + result->Err_0));
        },
        _ => {},
    }
}


/// Every lookup and registration of a weak login is for the Steam id of
/// the request, never another one.
pub proof fn lemma_weak_login_uses_request_id(
    s0: WeakLoginView,
    events: Seq<WeakLoginEventView>,
    states: Seq<WeakLoginView>,
    actions: Seq<WeakLoginActionView>,
    k: int,
)
    requires
        weak_login_run(s0, events, states, actions),
        0 <= k < actions.len(),
    ensures
        actions[k] matches WeakLoginActionView::LookupPlayer { steam_user_id } ==> steam_user_id
            == s0.steam_player_id,
        actions[k] matches WeakLoginActionView::RegisterPlayer { steam_user_id } ==> steam_user_id
            == s0.steam_player_id,
{
    lemma_weak_token_constant(s0, events, states, actions, k);
    assert(weak_login_step(states[k], events[k], states[k + 1], actions[k]));
}

} // verus!
