//! The decisions of the Discord login callback, as a state machine.
//!
//! The HTTP layer runs the flow: it performs each [`CallbackAction`] (a
//! database statement, a request to Discord, or the final reply) and hands
//! the outcome back as a [`CallbackEvent`], until the flow answers with
//! [`CallbackAction::Respond`] or gives up with [`CallbackAction::Abort`].
use vstd::prelude::*;

use crate::api::{HeaderName, HttpReply, ReplyView, STATUS_FOUND};
use crate::discord::{
    basic_error_response, error_reply, opt_view, pairs_view, spec_token_request_form,
    token_request_form, CallbackAPIParams, CallbackParamsView, DiscordUser, DiscordUserView,
    OAuthBundle, OAuthView, TokenResponse, TokenResponseView,
};
use crate::steam::{create_token, is_login_token};
use crate::text::{owned, push_decimal_i64, signed_decimal, str_starts_with};
use crate::Config;

verus! {

/// Where a callback stands: what the flow waits for next.
pub enum Stage {
    /// Waiting for the login attempt to be marked as completed.
    MarkingAttempt,
    /// Waiting for Discord to trade the code for tokens.
    ExchangingCode,
    /// Waiting for Discord to tell which user the tokens belong to.
    FetchingUser { tokens: TokenResponse },
    /// Waiting for the Discord account to be stored.
    SavingAccount { tokens: TokenResponse, user_id: String },
    /// Waiting for the login attempt to be linked to the account.
    LinkingAttempt { user_id: String },
    /// Waiting for the player id registered for the account.
    LookingUpPlayer { user_id: String },
    /// Waiting for a new player id for the account.
    CreatingPlayer { user_id: String },
    /// Waiting for the new login token to be stored.
    RecordingLogin { player_id: i64, login_token: String },
    /// The flow has answered.
    Done,
}

/// The model of a [`Stage`].
pub enum StageView {
    MarkingAttempt,
    ExchangingCode,
    FetchingUser { tokens: TokenResponseView },
    SavingAccount { tokens: TokenResponseView, user_id: Seq<char> },
    LinkingAttempt { user_id: Seq<char> },
    LookingUpPlayer { user_id: Seq<char> },
    CreatingPlayer { user_id: Seq<char> },
    RecordingLogin { player_id: i64, login_token: Seq<char> },
    Done,
}

impl View for Stage {
    type V = StageView;

    open spec fn view(&self) -> StageView {
        match self {
            Stage::MarkingAttempt => StageView::MarkingAttempt,
            Stage::ExchangingCode => StageView::ExchangingCode,
            Stage::FetchingUser { tokens } => StageView::FetchingUser { tokens: tokens@ },
            Stage::SavingAccount { tokens, user_id } => StageView::SavingAccount {
                tokens: tokens@,
                user_id: user_id@,
            },
            Stage::LinkingAttempt { user_id } => StageView::LinkingAttempt { user_id: user_id@ },
            Stage::LookingUpPlayer { user_id } => StageView::LookingUpPlayer { user_id: user_id@ },
            Stage::CreatingPlayer { user_id } => StageView::CreatingPlayer { user_id: user_id@ },
            Stage::RecordingLogin { player_id, login_token } => StageView::RecordingLogin {
                player_id: *player_id,
                login_token: login_token@,
            },
            Stage::Done => StageView::Done,
        }
    }
}

/// The outcome of an action, handed back to the flow.
pub enum CallbackEvent {
    /// The attempt was marked as completed in this many rows.
    AttemptMarked { rows_affected: u64 },
    /// Discord's answer to the token request, or the error's text.
    CodeExchanged { result: Result<TokenResponse, String> },
    /// Discord's answer about the user, or the error's text.
    UserFetched { result: Result<DiscordUser, String> },
    /// Whether the account was stored, or the error's text.
    AccountSaved { result: Result<(), String> },
    /// Whether the attempt was linked, or the error's text.
    AttemptLinked { result: Result<(), String> },
    /// The player id registered for the account, if any, or the error's text.
    PlayerLookedUp { result: Result<Option<i64>, String> },
    /// The new player id, or the error's text.
    PlayerCreated { result: Result<i64, String> },
    /// The login token was stored.
    LoginRecorded,
}

/// The model of a [`CallbackEvent`].
pub enum EventView {
    AttemptMarked { rows_affected: u64 },
    CodeExchanged { result: Result<TokenResponseView, Seq<char>> },
    UserFetched { result: Result<DiscordUserView, Seq<char>> },
    AccountSaved { result: Result<(), Seq<char>> },
    AttemptLinked { result: Result<(), Seq<char>> },
    PlayerLookedUp { result: Result<Option<i64>, Seq<char>> },
    PlayerCreated { result: Result<i64, Seq<char>> },
    LoginRecorded,
}

pub open spec fn unit_result_view(r: Result<(), String>) -> Result<(), Seq<char>> {
    match r {
        Ok(()) => Ok(()),
        Err(e) => Err(e@),
    }
}

impl View for CallbackEvent {
    type V = EventView;

    open spec fn view(&self) -> EventView {
        match self {
            CallbackEvent::AttemptMarked { rows_affected } => EventView::AttemptMarked {
                rows_affected: *rows_affected,
            },
            CallbackEvent::CodeExchanged { result } => EventView::CodeExchanged {
                result: match result {
                    Ok(t) => Ok(t@),
                    Err(e) => Err(e@),
                },
            },
            CallbackEvent::UserFetched { result } => EventView::UserFetched {
                result: match result {
                    Ok(u) => Ok(u@),
                    Err(e) => Err(e@),
                },
            },
            CallbackEvent::AccountSaved { result } => EventView::AccountSaved {
                result: unit_result_view(*result),
            },
            CallbackEvent::AttemptLinked { result } => EventView::AttemptLinked {
                result: unit_result_view(*result),
            },
            CallbackEvent::PlayerLookedUp { result } => EventView::PlayerLookedUp {
                result: match result {
                    Ok(p) => Ok(*p),
                    Err(e) => Err(e@),
                },
            },
            CallbackEvent::PlayerCreated { result } => EventView::PlayerCreated {
                result: match result {
                    Ok(p) => Ok(*p),
                    Err(e) => Err(e@),
                },
            },
            CallbackEvent::LoginRecorded => EventView::LoginRecorded,
        }
    }
}

/// What the flow asks the HTTP layer to do next.
pub enum CallbackAction {
    /// Mark the pending login attempt with this state as completed, and
    /// report how many rows changed.
    MarkAttemptCompleted { state: String },
    /// Post this form to Discord's token endpoint.
    ExchangeCode { form: Vec<(String, String)> },
    /// Ask Discord for the user that owns this access token.
    FetchUser { access_token: String },
    /// Insert the Discord account, or update its avatar and global name.
    SaveAccount {
        discord_user_id: String,
        username: String,
        avatar: Option<String>,
        global_name: String,
    },
    /// Link the login attempt with this state to the account and its tokens.
    LinkAttempt {
        discord_user_id: String,
        state: String,
        access_token: String,
        refresh_token: String,
    },
    /// Look up the player id registered for the account.
    LookupPlayer { discord_user_id: String },
    /// Register a new player id for the account.
    CreatePlayer { discord_user_id: String },
    /// Store the login token as a valid login of the player.
    RecordLogin { login_token: String, player_id: i64 },
    /// Send this reply; the flow is over.
    Respond { reply: HttpReply },
    /// Stop handling the request with this message; the flow is over.
    Abort { reason: String },
}

/// The model of a [`CallbackAction`].
pub enum ActionView {
    MarkAttemptCompleted { state: Seq<char> },
    ExchangeCode { form: Seq<(Seq<char>, Seq<char>)> },
    FetchUser { access_token: Seq<char> },
    SaveAccount {
        discord_user_id: Seq<char>,
        username: Seq<char>,
        avatar: Option<Seq<char>>,
        global_name: Seq<char>,
    },
    LinkAttempt {
        discord_user_id: Seq<char>,
        state: Seq<char>,
        access_token: Seq<char>,
        refresh_token: Seq<char>,
    },
    LookupPlayer { discord_user_id: Seq<char> },
    CreatePlayer { discord_user_id: Seq<char> },
    RecordLogin { login_token: Seq<char>, player_id: i64 },
    Respond { reply: ReplyView },
    Abort { reason: Seq<char> },
}

impl View for CallbackAction {
    type V = ActionView;

    open spec fn view(&self) -> ActionView {
        match self {
            CallbackAction::MarkAttemptCompleted { state } => ActionView::MarkAttemptCompleted {
                state: state@,
            },
            CallbackAction::ExchangeCode { form } => ActionView::ExchangeCode {
                form: pairs_view(form@),
            },
            CallbackAction::FetchUser { access_token } => ActionView::FetchUser {
                access_token: access_token@,
            },
            CallbackAction::SaveAccount { discord_user_id, username, avatar, global_name } =>
                ActionView::SaveAccount {
                discord_user_id: discord_user_id@,
                username: username@,
                avatar: opt_view(*avatar),
                global_name: global_name@,
            },
            CallbackAction::LinkAttempt { discord_user_id, state, access_token, refresh_token } =>
                ActionView::LinkAttempt {
                discord_user_id: discord_user_id@,
                state: state@,
                access_token: access_token@,
                refresh_token: refresh_token@,
            },
            CallbackAction::LookupPlayer { discord_user_id } => ActionView::LookupPlayer {
                discord_user_id: discord_user_id@,
            },
            CallbackAction::CreatePlayer { discord_user_id } => ActionView::CreatePlayer {
                discord_user_id: discord_user_id@,
            },
            CallbackAction::RecordLogin { login_token, player_id } => ActionView::RecordLogin {
                login_token: login_token@,
                player_id: *player_id,
            },
            CallbackAction::Respond { reply } => ActionView::Respond { reply: reply@ },
            CallbackAction::Abort { reason } => ActionView::Abort { reason: reason@ },
        }
    }
}

/// A Discord login callback in progress.
pub struct CallbackFlow {
    params: CallbackAPIParams,
    oauth: Option<OAuthBundle>,
    dry_run: bool,
    stage: Stage,
}

/// The model of a [`CallbackFlow`]: the request's parameters, the OAuth
/// configuration if there is one, whether requests to Discord are
/// disabled (`dry_run`), and the stage.
pub struct FlowView {
    pub params: CallbackParamsView,
    pub oauth: Option<OAuthView>,
    pub dry_run: bool,
    pub stage: StageView,
}

impl View for CallbackFlow {
    type V = FlowView;

    closed spec fn view(&self) -> FlowView {
        FlowView {
            params: self.params@,
            oauth: match self.oauth {
                Some(o) => Some(o@),
                None => None,
            },
            dry_run: self.dry_run,
            stage: self.stage@,
        }
    }
}

/// The OAuth configuration that a [`Config`] holds, if it is usable.
pub open spec fn config_oauth(c: Config) -> Option<OAuthView> {
    if c.has_discord_oauth() {
        Some(
            OAuthView {
                client_id: c.discord_client_id@,
                client_secret: c.discord_client_secret@,
                redirect_uri: c.discord_redirect_uri@,
            },
        )
    } else {
        None
    }
}

/// The flow is consistent: once past the first stage and before the end,
/// it holds an OAuth configuration.
pub open spec fn flow_wf(f: FlowView) -> bool {
    (f.stage !is MarkingAttempt && f.stage !is Done) ==> f.oauth is Some
}

/// Whether the flow at `stage` waits for an event like `e`.
pub open spec fn awaits(stage: StageView, e: EventView) -> bool {
    match stage {
        StageView::MarkingAttempt => e is AttemptMarked,
        StageView::ExchangingCode => e is CodeExchanged,
        StageView::FetchingUser { .. } => e is UserFetched,
        StageView::SavingAccount { .. } => e is AccountSaved,
        StageView::LinkingAttempt { .. } => e is AttemptLinked,
        StageView::LookingUpPlayer { .. } => e is PlayerLookedUp,
        StageView::CreatingPlayer { .. } => e is PlayerCreated,
        StageView::RecordingLogin { .. } => e is LoginRecorded,
        StageView::Done => false,
    }
}

/// The name shown for a user: the global name, else the username.
pub open spec fn display_name(u: DiscordUserView) -> Seq<char> {
    match u.global_name {
        Some(g) => g,
        None => u.username,
    }
}

/// Whether the login cookies are marked `Secure`: when the redirect URI
/// is served over `https://`.
pub open spec fn secure_cookies(oauth: Option<OAuthView>) -> bool {
    match oauth {
        Some(o) => "https://"@.is_prefix_of(o.redirect_uri),
        None => false,
    }
}

/// The attributes that follow `HttpOnly` in a login cookie.
pub open spec fn cookie_attributes(secure: bool) -> Seq<char> {
    if secure {
        "; Secure; SameSite=Lax"@
    } else {
        "; SameSite=Lax"@
    }
}

/// The page to which a logged-in user is sent, with the player id and
/// login token in the fragment.
pub open spec fn login_location(player_id: i64, token: Seq<char>) -> Seq<char> {
    "http://192.168.1.32:8080/#player_id="@ + signed_decimal(player_id as int) + "&login_token="@
        + token
}

/// The reply to a completed login: a redirection that sets the player id
/// and the login token as cookies.
pub open spec fn login_success_reply(player_id: i64, token: Seq<char>, secure: bool) -> ReplyView {
    let pid = signed_decimal(player_id as int);
    ReplyView {
        status: STATUS_FOUND,
        headers: seq![
            (HeaderName::ContentType, "text/plain"@),
            (HeaderName::CacheControl, "no-cache"@),
            (HeaderName::Location, login_location(player_id, token)),
            (HeaderName::SetCookie, "player_id="@ + pid + "; Path=/; HttpOnly"@ + cookie_attributes(secure)),
            (HeaderName::SetCookie, "login_token="@ + token + "; Path=/; HttpOnly"@ + cookie_attributes(secure)),
        ],
        body: "Logged in as "@ + pid + " ("@ + token + "). You can close this tab."@,
    }
}

/// Why a callback is refused when requests to Discord are disabled.
pub const DRY_RUN_REASON: &'static str = "Dry run: requests to Discord are disabled";

/// The flow ends with `reply`.
pub open spec fn answers(s2: FlowView, a: ActionView, reply: ReplyView) -> bool {
    s2.stage is Done && a == (ActionView::Respond { reply })
}

/// The flow issues a fresh login token for `player_id` and asks to store it.
pub open spec fn issues_login(s2: FlowView, a: ActionView, player_id: i64) -> bool {
    match s2.stage {
        StageView::RecordingLogin { player_id: p, login_token } => {
            &&& p == player_id
            &&& is_login_token(login_token)
            &&& a == (ActionView::RecordLogin { login_token, player_id })
        },
        _ => false,
    }
}

/// One step of the callback: from `s`, on event `e`, the flow moves to
/// `s2` and asks for `a`.
pub open spec fn callback_step(s: FlowView, e: EventView, s2: FlowView, a: ActionView) -> bool {
    &&& s2.params == s.params
    &&& s2.oauth == s.oauth
    &&& s2.dry_run == s.dry_run
    &&& match (s.stage, e) {
        (StageView::MarkingAttempt, EventView::AttemptMarked { rows_affected }) => {
            if rows_affected == 0 {
                answers(s2, a, error_reply("Invalid or expired 'state' parameter in callback"@))
            } else if s.params.error is Some {
                answers(s2, a, error_reply(s.params.error->0))
            } else if s.params.code is None {
                answers(s2, a, error_reply("Missing 'code' parameter in callback"@))
            } else if s.oauth is None {
                s2.stage is Done && a == (ActionView::Abort {
                    reason: "Discord OAuth configuration not found"@,
                })
            } else if s.dry_run {
                answers(s2, a, error_reply(DRY_RUN_REASON@))
            } else {
                s2.stage is ExchangingCode && a == (ActionView::ExchangeCode {
                    form: spec_token_request_form(s.params.code->0, s.oauth->0),
                })
            }
        },
        (StageView::ExchangingCode, EventView::CodeExchanged { result }) => match result {
            Err(e) => answers(s2, a, error_reply("Failed to exchange code: "@ + e)),
            Ok(t) => s2.stage == (StageView::FetchingUser { tokens: t }) && a == (
            ActionView::FetchUser { access_token: t.access_token }),
        },
        (StageView::FetchingUser { tokens }, EventView::UserFetched { result }) => match result {
            Err(e) => answers(s2, a, error_reply("Failed to fetch user: "@ + e)),
            Ok(u) => s2.stage == (StageView::SavingAccount { tokens, user_id: u.id }) && a == (
            ActionView::SaveAccount {
                discord_user_id: u.id,
                username: u.username,
                avatar: u.avatar,
                global_name: display_name(u),
            }),
        },
        (StageView::SavingAccount { tokens, user_id }, EventView::AccountSaved { result }) =>
            match result {
            Err(e) => answers(s2, a, error_reply("Failed to insert or fetch user: "@ + e)),
            Ok(()) => s2.stage == (StageView::LinkingAttempt { user_id }) && a == (
            ActionView::LinkAttempt {
                discord_user_id: user_id,
                state: s.params.state,
                access_token: tokens.access_token,
                refresh_token: tokens.refresh_token,
            }),
        },
        (StageView::LinkingAttempt { user_id }, EventView::AttemptLinked { .. }) => s2.stage == (
        StageView::LookingUpPlayer { user_id }) && a == (ActionView::LookupPlayer {
            discord_user_id: user_id,
        }),
        (StageView::LookingUpPlayer { user_id }, EventView::PlayerLookedUp { result }) =>
            match result {
            Err(e) => answers(s2, a, error_reply("Failed to fetch registered user: "@ + e)),
            Ok(Some(pid)) => issues_login(s2, a, pid),
            Ok(None) => s2.stage == (StageView::CreatingPlayer { user_id }) && a == (
            ActionView::CreatePlayer { discord_user_id: user_id }),
        },
        (StageView::CreatingPlayer { .. }, EventView::PlayerCreated { result }) => match result {
            Err(e) => answers(s2, a, error_reply("Failed to create registered user: "@ + e)),
            Ok(pid) => issues_login(s2, a, pid),
        },
        (StageView::RecordingLogin { player_id, login_token }, EventView::LoginRecorded) => answers(
            s2,
            a,
            login_success_reply(player_id, login_token, secure_cookies(s.oauth)),
        ),
        _ => false,
    }
}


fn respond_error(reason: &str) -> (a: CallbackAction)
    ensures
        a@ == (ActionView::Respond { reply: error_reply(reason@) }),
{
    CallbackAction::Respond { reply: basic_error_response(reason) }
}

fn respond_error_with(prefix: &str, detail: &str) -> (a: CallbackAction)
    ensures
        a@ == (ActionView::Respond { reply: error_reply(prefix@ + detail@) }),
{
    let mut reason = String::new();
    reason.append(prefix);
    reason.append(detail);
    assert(reason@ =~= prefix@ + detail@);
    respond_error(reason.as_str())
}

fn cookie(name: &str, value: &str, attributes: &str) -> (c: String)
    ensures
        c@ == name@ + value@ + "; Path=/; HttpOnly"@ + attributes@,
{
    let mut c = String::new();
    c.append(name);
    c.append(value);
    c.append("; Path=/; HttpOnly");
    c.append(attributes);
    assert(c@ =~= name@ + value@ + "; Path=/; HttpOnly"@ + attributes@);
    c
}

/// The reply to a completed login.
fn success_reply(player_id: i64, token: &str, secure: bool) -> (r: HttpReply)
    ensures
        r@ == login_success_reply(player_id, token@, secure),
{
    let mut pid = String::new();
    push_decimal_i64(&mut pid, player_id);
    assert(pid@ =~= signed_decimal(player_id as int));
    let attributes = if secure {
        "; Secure; SameSite=Lax"
    } else {
        "; SameSite=Lax"
    };
    let mut location = String::new();
    location.append("http://192.168.1.32:8080/#player_id=");
    location.append(pid.as_str());
    location.append("&login_token=");
    location.append(token);
    assert(location@ =~= login_location(player_id, token@));
    let mut body = String::new();
    body.append("Logged in as ");
    body.append(pid.as_str());
    body.append(" (");
    body.append(token);
    body.append("). You can close this tab.");
    let mut headers: Vec<(HeaderName, String)> = Vec::new();
    headers.push((HeaderName::ContentType, owned("text/plain")));
    headers.push((HeaderName::CacheControl, owned("no-cache")));
    headers.push((HeaderName::Location, location));
    headers.push((HeaderName::SetCookie, cookie("player_id=", pid.as_str(), attributes)));
    headers.push((HeaderName::SetCookie, cookie("login_token=", token, attributes)));
    let r = HttpReply { status: STATUS_FOUND, headers, body };
    assert(r@.headers =~= login_success_reply(player_id, token@, secure).headers);
    assert(r@.body =~= login_success_reply(player_id, token@, secure).body);
    r
}

impl CallbackFlow {
    /// Starts handling a callback with these parameters: the first action
    /// marks the pending login attempt with the callback's state.
    pub fn new(params: CallbackAPIParams, config: &Config) -> (res: (CallbackFlow, CallbackAction))
        ensures
            res.0@ == (FlowView {
                params: params@,
                oauth: config_oauth(*config),
                dry_run: config.dry_run,
                stage: StageView::MarkingAttempt,
            }),
            res.1@ == (ActionView::MarkAttemptCompleted { state: params.state@ }),
    {
        let oauth = config.get_discord_oauth();
        let state = params.state.clone();
        let flow = CallbackFlow { params, oauth, dry_run: config.dry_run, stage: Stage::MarkingAttempt };
        proof {
            let o = flow@.oauth;
            let c = config_oauth(*config);
            assert(o == c);
        }
        (flow, CallbackAction::MarkAttemptCompleted { state })
    }

    fn issue_login(&mut self, player_id: i64) -> (a: CallbackAction)
        ensures
            final(self)@.params == old(self)@.params,
            final(self)@.oauth == old(self)@.oauth,
            final(self)@.dry_run == old(self)@.dry_run,
            issues_login(final(self)@, a@, player_id),
    {
        let login_token = create_token();
        self.stage = Stage::RecordingLogin { player_id, login_token: login_token.clone() };
        CallbackAction::RecordLogin { login_token, player_id }
    }

    /// Handles the outcome of the last action and returns the next one.
    pub fn step(&mut self, event: CallbackEvent) -> (action: CallbackAction)
        requires
            flow_wf(old(self)@),
            awaits(old(self)@.stage, event@),
        ensures
            flow_wf(final(self)@),
            callback_step(old(self)@, event@, final(self)@, action@),
            old(self)@.stage matches StageView::LinkingAttempt { user_id } ==> action@ == (
            ActionView::LookupPlayer { discord_user_id: user_id }),
            action@ is CreatePlayer ==> event@ == (EventView::PlayerLookedUp { result: Ok(None) }),
    {
        let mut stage = Stage::Done;
        std::mem::swap(&mut stage, &mut self.stage);
        match (stage, event) {
            (Stage::MarkingAttempt, CallbackEvent::AttemptMarked { rows_affected }) => {
                if rows_affected == 0 {
                    return respond_error("Invalid or expired 'state' parameter in callback");
                }
                if let Some(e) = &self.params.error {
                    return respond_error(e.as_str());
                }
                match &self.params.code {
                    None => respond_error("Missing 'code' parameter in callback"),
                    Some(code) => match &self.oauth {
                        None => CallbackAction::Abort {
                            reason: owned("Discord OAuth configuration not found"),
                        },
                        Some(_) if self.dry_run => respond_error(DRY_RUN_REASON),
                        Some(cfg) => {
                            let form = token_request_form(code.as_str(), cfg);
                            self.stage = Stage::ExchangingCode;
                            CallbackAction::ExchangeCode { form }
                        },
                    },
                }
            },
            (Stage::ExchangingCode, CallbackEvent::CodeExchanged { result }) => match result {
                Err(e) => respond_error_with("Failed to exchange code: ", e.as_str()),
                Ok(tokens) => {
                    let access_token = tokens.access_token.clone();
                    self.stage = Stage::FetchingUser { tokens };
                    CallbackAction::FetchUser { access_token }
                },
            },
            (Stage::FetchingUser { tokens }, CallbackEvent::UserFetched { result }) => match result {
                Err(e) => respond_error_with("Failed to fetch user: ", e.as_str()),
                Ok(user) => {
                    let global_name = match &user.global_name {
                        Some(g) => g.clone(),
                        None => user.username.clone(),
                    };
                    let user_id = user.id.clone();
                    self.stage = Stage::SavingAccount { tokens, user_id };
                    CallbackAction::SaveAccount {
                        discord_user_id: user.id,
                        username: user.username,
                        avatar: user.avatar,
                        global_name,
                    }
                },
            },
            (Stage::SavingAccount { tokens, user_id }, CallbackEvent::AccountSaved { result }) =>
                match result {
                Err(e) => respond_error_with("Failed to insert or fetch user: ", e.as_str()),
                Ok(()) => {
                    let discord_user_id = user_id.clone();
                    self.stage = Stage::LinkingAttempt { user_id };
                    CallbackAction::LinkAttempt {
                        discord_user_id,
                        state: self.params.state.clone(),
                        access_token: tokens.access_token,
                        refresh_token: tokens.refresh_token,
                    }
                },
            },
            (Stage::LinkingAttempt { user_id }, CallbackEvent::AttemptLinked { .. }) => {
                let discord_user_id = user_id.clone();
                self.stage = Stage::LookingUpPlayer { user_id };
                CallbackAction::LookupPlayer { discord_user_id }
            },
            (Stage::LookingUpPlayer { user_id }, CallbackEvent::PlayerLookedUp { result }) =>
                match result {
                Err(e) => respond_error_with("Failed to fetch registered user: ", e.as_str()),
                Ok(Some(player_id)) => self.issue_login(player_id),
                Ok(None) => {
                    let discord_user_id = user_id.clone();
                    self.stage = Stage::CreatingPlayer { user_id };
                    CallbackAction::CreatePlayer { discord_user_id }
                },
            },
            (Stage::CreatingPlayer { .. }, CallbackEvent::PlayerCreated { result }) => match result {
                Err(e) => respond_error_with("Failed to create registered user: ", e.as_str()),
                Ok(player_id) => self.issue_login(player_id),
            },
            (Stage::RecordingLogin { player_id, login_token }, CallbackEvent::LoginRecorded) => {
                let secure = match &self.oauth {
                    Some(cfg) => str_starts_with(cfg.redirect_uri.as_str(), "https://"),
                    None => false,
                };
                CallbackAction::Respond {
                    reply: success_reply(player_id, login_token.as_str(), secure),
                }
            },
            (_, _) => {
                proof {
                    assert(false);
                }
                respond_error("")
            },
        }
    }

    /// Whether the flow has answered.
    pub fn is_done(&self) -> (res: bool)
        ensures
            res == (self@.stage is Done),
    {
        match self.stage {
            Stage::Done => true,
            _ => false,
        }
    }

    /// Whether the flow waits for an event like `event` now.
    pub fn awaits(&self, event: &CallbackEvent) -> (res: bool)
        ensures
            res == awaits(self@.stage, event@),
    {
        match (&self.stage, event) {
            (Stage::MarkingAttempt, CallbackEvent::AttemptMarked { .. }) => true,
            (Stage::ExchangingCode, CallbackEvent::CodeExchanged { .. }) => true,
            (Stage::FetchingUser { .. }, CallbackEvent::UserFetched { .. }) => true,
            (Stage::SavingAccount { .. }, CallbackEvent::AccountSaved { .. }) => true,
            (Stage::LinkingAttempt { .. }, CallbackEvent::AttemptLinked { .. }) => true,
            (Stage::LookingUpPlayer { .. }, CallbackEvent::PlayerLookedUp { .. }) => true,
            (Stage::CreatingPlayer { .. }, CallbackEvent::PlayerCreated { .. }) => true,
            (Stage::RecordingLogin { .. }, CallbackEvent::LoginRecorded) => true,
            _ => false,
        }
    }
}


/// The state in which a callback starts.
pub open spec fn callback_start(
    params: CallbackParamsView,
    oauth: Option<OAuthView>,
    dry_run: bool,
) -> FlowView {
    FlowView { params, oauth, dry_run, stage: StageView::MarkingAttempt }
}

/// `states` and `actions` are what the flow goes through from `s0` when it
/// is handed `events` in turn.
pub open spec fn callback_run(
    s0: FlowView,
    events: Seq<EventView>,
    states: Seq<FlowView>,
    actions: Seq<ActionView>,
) -> bool {
    &&& states.len() == events.len() + 1
    &&& actions.len() == events.len()
    &&& states[0] == s0
    &&& forall|i: int|
        #![trigger events[i]]
        0 <= i < events.len() ==> callback_step(states[i], events[i], states[i + 1], actions[i])
}

/// How far a stage lies along the flow.
pub open spec fn stage_rank(stage: StageView) -> nat {
    match stage {
        StageView::MarkingAttempt => 0,
        StageView::ExchangingCode => 1,
        StageView::FetchingUser { .. } => 2,
        StageView::SavingAccount { .. } => 3,
        StageView::LinkingAttempt { .. } => 4,
        StageView::LookingUpPlayer { .. } => 5,
        StageView::CreatingPlayer { .. } => 6,
        StageView::RecordingLogin { .. } => 7,
        StageView::Done => 8,
    }
}

/// Every step keeps the flow consistent.
pub proof fn lemma_step_keeps_wf(s: FlowView, e: EventView, s2: FlowView, a: ActionView)
    requires
        flow_wf(s),
        callback_step(s, e, s2, a),
    ensures
        flow_wf(s2),
{
}

/// Every step moves the flow forward, so a callback is answered after at
/// most eight outcomes.
pub proof fn lemma_step_moves_forward(s: FlowView, e: EventView, s2: FlowView, a: ActionView)
    requires
        callback_step(s, e, s2, a),
    ensures
        stage_rank(s2.stage) > stage_rank(s.stage),
{
}

/// A run hands the flow at most eight outcomes.
pub proof fn lemma_run_is_short(
    s0: FlowView,
    events: Seq<EventView>,
    states: Seq<FlowView>,
    actions: Seq<ActionView>,
)
    requires
        callback_run(s0, events, states, actions),
    ensures
        events.len() <= 8,
        forall|i: int| 0 <= i < states.len() ==> stage_rank(#[trigger] states[i].stage) >= i + stage_rank(s0.stage),
{
    assert forall|i: int| 0 <= i < states.len() implies stage_rank(#[trigger] states[i].stage) >= i + stage_rank(s0.stage) by {
        lemma_run_rank(s0, events, states, actions, i);
    }
    let n = events.len() as int;
    assert(stage_rank(states[n].stage) >= n);
}

proof fn lemma_run_rank(
    s0: FlowView,
    events: Seq<EventView>,
    states: Seq<FlowView>,
    actions: Seq<ActionView>,
    i: int,
)
    requires
        callback_run(s0, events, states, actions),
        0 <= i < states.len(),
    ensures
        stage_rank(states[i].stage) >= i + stage_rank(s0.stage),
    decreases i,
{
    if i > 0 {
        lemma_run_rank(s0, events, states, actions, i - 1);
        assert(callback_step(states[i - 1], events[i - 1], states[i], actions[i - 1]));
        lemma_step_moves_forward(states[i - 1], events[i - 1], states[i], actions[i - 1]);
    }
}

/// A callback whose state matches no pending login attempt is refused with
/// `400` and ends there.
pub proof fn lemma_unknown_state_refused(s: FlowView, s2: FlowView, a: ActionView)
    requires
        s.stage is MarkingAttempt,
        callback_step(s, EventView::AttemptMarked { rows_affected: 0 }, s2, a),
    ensures
        s2.stage is Done,
        a == (ActionView::Respond {
            reply: error_reply("Invalid or expired 'state' parameter in callback"@),
        }),
{
}

/// A callback that matched a pending attempt, with a code and no error,
/// gives up when the OAuth configuration is missing, whether or not
/// requests to Discord are disabled.
pub proof fn lemma_missing_configuration_aborts(
    s: FlowView,
    rows_affected: u64,
    s2: FlowView,
    a: ActionView,
)
    requires
        s.stage is MarkingAttempt,
        rows_affected > 0,
        s.params.error is None,
        s.params.code is Some,
        s.oauth is None,
        callback_step(s, EventView::AttemptMarked { rows_affected }, s2, a),
    ensures
        s2.stage is Done,
        a == (ActionView::Abort { reason: "Discord OAuth configuration not found"@ }),
{
}

/// The flow ends exactly when it answers or gives up.
pub proof fn lemma_ends_with_answer(s: FlowView, e: EventView, s2: FlowView, a: ActionView)
    requires
        callback_step(s, e, s2, a),
    ensures
        (s2.stage is Done) <==> (a is Respond || a is Abort),
{
}

/// Each reply is either a refusal (`400`, `Error: ` and the reason) or,
/// from the stage that stores the login, the redirection that completes it.
pub proof fn lemma_replies_are_refusals_or_logins(s: FlowView, e: EventView, s2: FlowView, a: ActionView)
    requires
        callback_step(s, e, s2, a),
        a is Respond,
    ensures
        (exists|reason: Seq<char>| a->reply == #[trigger] error_reply(reason)) || (
        s.stage matches StageView::RecordingLogin { player_id, login_token } && a->reply
            == login_success_reply(player_id, login_token, secure_cookies(s.oauth))),
{
    match (s.stage, e) {
        (StageView::MarkingAttempt, EventView::AttemptMarked { rows_affected }) => {
            if rows_affected == 0 {
                assert(a->reply == error_reply("Invalid or expired 'state' parameter in callback"@));
            } else if s.params.error is Some {
                assert(a->reply == error_reply(s.params.error->0));
            } else if s.params.code is None {
                assert(a->reply == error_reply("Missing 'code' parameter in callback"@));
            } else {
                assert(a->reply == error_reply(DRY_RUN_REASON@));
            }
        },
        (StageView::ExchangingCode, EventView::CodeExchanged { result }) => {
            assert(a->reply == error_reply("Failed to exchange code: "@ + result->Err_0));
        },
        (StageView::FetchingUser { .. }, EventView::UserFetched { result }) => {
            assert(a->reply == error_reply("Failed to fetch user: "@ + result->Err_0));
        },
        (StageView::SavingAccount { .. }, EventView::AccountSaved { result }) => {
            assert(a->reply == error_reply("Failed to insert or fetch user: "@ + result->Err_0));
        },
        (StageView::LookingUpPlayer { .. }, EventView::PlayerLookedUp { result }) => {
            assert(a->reply == error_reply("Failed to fetch registered user: "@ + result->Err_0));
        },
        (StageView::CreatingPlayer { .. }, EventView::PlayerCreated { result }) => {
            assert(a->reply == error_reply("Failed to create registered user: "@ + result->Err_0));
        },
        _ => {},
    }
}

/// The outcome says that the pending attempt was marked as completed.
pub open spec fn marks_attempt(e: EventView) -> bool {
    match e {
        EventView::AttemptMarked { rows_affected } => rows_affected > 0,
        _ => false,
    }
}

/// The outcome is Discord's tokens for the code.
pub open spec fn exchanges_code(e: EventView) -> bool {
    match e {
        EventView::CodeExchanged { result } => result is Ok,
        _ => false,
    }
}

/// The outcome is Discord naming the user `user_id`.
pub open spec fn names_user(e: EventView, user_id: Seq<char>) -> bool {
    match e {
        EventView::UserFetched { result } => result is Ok && result->Ok_0.id == user_id,
        _ => false,
    }
}

/// The callback was accepted: its state matched a pending attempt (one of
/// the first `k` outcomes marked rows), and it came with a code and no
/// error.
pub open spec fn accepted(params: CallbackParamsView, events: Seq<EventView>, k: int) -> bool {
    &&& params.error is None
    &&& params.code is Some
    &&& exists|i: int| 0 <= i < k && marks_attempt(#[trigger] events[i])
}

/// Discord traded the code for tokens in one of the first `k` outcomes.
pub open spec fn code_exchanged(events: Seq<EventView>, k: int) -> bool {
    exists|j: int| 0 <= j < k && exchanges_code(#[trigger] events[j])
}

/// Discord named the user `user_id` in one of the first `k` outcomes.
pub open spec fn user_fetched(events: Seq<EventView>, k: int, user_id: Seq<char>) -> bool {
    exists|m: int| 0 <= m < k && names_user(#[trigger] events[m], user_id)
}

/// What the first `k` outcomes must have been for the flow to stand at `s`.
pub open spec fn history_of(s: FlowView, events: Seq<EventView>, k: int) -> bool {
    match s.stage {
        StageView::MarkingAttempt => k == 0,
        StageView::ExchangingCode => accepted(s.params, events, k),
        StageView::FetchingUser { .. } => accepted(s.params, events, k) && code_exchanged(events, k),
        StageView::SavingAccount { user_id, .. } => accepted(s.params, events, k) && code_exchanged(
            events,
            k,
        ) && user_fetched(events, k, user_id),
        StageView::LinkingAttempt { user_id } => accepted(s.params, events, k) && code_exchanged(
            events,
            k,
        ) && user_fetched(events, k, user_id),
        StageView::LookingUpPlayer { user_id } => accepted(s.params, events, k) && code_exchanged(
            events,
            k,
        ) && user_fetched(events, k, user_id),
        StageView::CreatingPlayer { user_id } => accepted(s.params, events, k) && code_exchanged(
            events,
            k,
        ) && user_fetched(events, k, user_id),
        StageView::RecordingLogin { .. } => accepted(s.params, events, k) && code_exchanged(
            events,
            k,
        ) && exists|u: Seq<char>| #[trigger] user_fetched(events, k, u),
        StageView::Done => true,
    }
}

proof fn lemma_history_extends(events: Seq<EventView>, params: CallbackParamsView, k: int, u: Seq<char>)
    requires
        0 <= k < events.len(),
    ensures
        accepted(params, events, k) ==> accepted(params, events, k + 1),
        code_exchanged(events, k) ==> code_exchanged(events, k + 1),
        user_fetched(events, k, u) ==> user_fetched(events, k + 1, u),
{
}

proof fn lemma_history_step(
    events: Seq<EventView>,
    k: int,
    s: FlowView,
    s2: FlowView,
    a: ActionView,
)
    requires
        0 <= k < events.len(),
        history_of(s, events, k),
        callback_step(s, events[k], s2, a),
    ensures
        history_of(s2, events, k + 1),
{
    let e = events[k];
    match s.stage {
        StageView::MarkingAttempt => {
            if s2.stage is ExchangingCode {
                assert(marks_attempt(events[k]));
                assert(accepted(s.params, events, k + 1));
            }
        },
        StageView::ExchangingCode => {
            lemma_history_extends(events, s.params, k, Seq::empty());
            if !(s2.stage is Done) {
                assert(exchanges_code(events[k]));
                assert(code_exchanged(events, k + 1));
            }
        },
        StageView::FetchingUser { .. } => {
            lemma_history_extends(events, s.params, k, Seq::empty());
            if let StageView::SavingAccount { user_id, .. } = s2.stage {
                assert(names_user(events[k], user_id));
                assert(user_fetched(events, k + 1, user_id));
            }
        },
        StageView::SavingAccount { user_id, .. } => {
            lemma_history_extends(events, s.params, k, user_id);
        },
        StageView::LinkingAttempt { user_id } => {
            lemma_history_extends(events, s.params, k, user_id);
        },
        StageView::LookingUpPlayer { user_id } => {
            lemma_history_extends(events, s.params, k, user_id);
            if s2.stage is RecordingLogin {
                assert(user_fetched(events, k + 1, user_id));
            }
        },
        StageView::CreatingPlayer { user_id } => {
            lemma_history_extends(events, s.params, k, user_id);
            if s2.stage is RecordingLogin {
                assert(user_fetched(events, k + 1, user_id));
            }
        },
        StageView::RecordingLogin { .. } => {},
        StageView::Done => {},
    }
}

proof fn lemma_run_history(
    params: CallbackParamsView,
    oauth: Option<OAuthView>,
    dry_run: bool,
    events: Seq<EventView>,
    states: Seq<FlowView>,
    actions: Seq<ActionView>,
    k: int,
)
    requires
        callback_run(callback_start(params, oauth, dry_run), events, states, actions),
        0 <= k < states.len(),
    ensures
        history_of(states[k], events, k),
        states[k].params == params,
    decreases k,
{
    if k > 0 {
        lemma_run_history(params, oauth, dry_run, events, states, actions, k - 1);
        assert(callback_step(states[k - 1], events[k - 1], states[k], actions[k - 1]));
        lemma_history_step(events, k - 1, states[k - 1], states[k], actions[k - 1]);
    }
}

/// A login token is issued only for a callback that matched a pending
/// attempt and came with a code and no error, after Discord traded the
/// code for tokens and named the user.
pub proof fn lemma_login_only_after_discord_vouched(
    params: CallbackParamsView,
    oauth: Option<OAuthView>,
    dry_run: bool,
    events: Seq<EventView>,
    states: Seq<FlowView>,
    actions: Seq<ActionView>,
    k: int,
)
    requires
        callback_run(callback_start(params, oauth, dry_run), events, states, actions),
        0 <= k < actions.len(),
        actions[k] is RecordLogin,
    ensures
        accepted(params, events, k),
        code_exchanged(events, k),
        exists|u: Seq<char>| #[trigger] user_fetched(events, k, u),
        is_login_token(actions[k]->login_token),
{
    lemma_run_history(params, oauth, dry_run, events, states, actions, k);
    assert(callback_step(states[k], events[k], states[k + 1], actions[k]));
    let s = states[k];
    match s.stage {
        StageView::LookingUpPlayer { user_id } => {
            assert(user_fetched(events, k, user_id));
        },
        StageView::CreatingPlayer { user_id } => {
            assert(user_fetched(events, k, user_id));
        },
        _ => {},
    }
}

/// A login is completed only by the redirection that sets as cookies the
/// very player id and token that the step before asked to store.
pub proof fn lemma_login_reply_carries_recorded_token(
    params: CallbackParamsView,
    oauth: Option<OAuthView>,
    dry_run: bool,
    events: Seq<EventView>,
    states: Seq<FlowView>,
    actions: Seq<ActionView>,
    k: int,
)
    requires
        callback_run(callback_start(params, oauth, dry_run), events, states, actions),
        0 <= k < actions.len(),
        actions[k] matches ActionView::Respond { reply } && reply.status == STATUS_FOUND,
    ensures
        k >= 1,
        actions[k - 1] matches ActionView::RecordLogin { login_token, player_id } && actions[k]->reply
            == login_success_reply(player_id, login_token, secure_cookies(oauth)),
{
    lemma_run_history(params, oauth, dry_run, events, states, actions, k);
    assert(callback_step(states[k], events[k], states[k + 1], actions[k]));
    lemma_replies_are_refusals_or_logins(states[k], events[k], states[k + 1], actions[k]);
    if exists|reason: Seq<char>| actions[k]->reply == #[trigger] error_reply(reason) {
        let reason = choose|reason: Seq<char>| actions[k]->reply == #[trigger] error_reply(reason);
        assert(error_reply(reason).status == 400);
    }
    assert(states[k].stage is RecordingLogin);
    assert(k >= 1);
    assert(callback_step(states[k - 1], events[k - 1], states[k], actions[k - 1]));
    lemma_oauth_constant(params, oauth, dry_run, events, states, actions, k);
}

proof fn lemma_oauth_constant(
    params: CallbackParamsView,
    oauth: Option<OAuthView>,
    dry_run: bool,
    events: Seq<EventView>,
    states: Seq<FlowView>,
    actions: Seq<ActionView>,
    k: int,
)
    requires
        callback_run(callback_start(params, oauth, dry_run), events, states, actions),
        0 <= k < states.len(),
    ensures
        states[k].oauth == oauth,
    decreases k,
{
    if k > 0 {
        lemma_oauth_constant(params, oauth, dry_run, events, states, actions, k - 1);
        assert(callback_step(states[k - 1], events[k - 1], states[k], actions[k - 1]));
    }
}

proof fn lemma_dry_run_stays_put(
    params: CallbackParamsView,
    oauth: Option<OAuthView>,
    events: Seq<EventView>,
    states: Seq<FlowView>,
    actions: Seq<ActionView>,
    k: int,
)
    requires
        callback_run(callback_start(params, oauth, true), events, states, actions),
        0 <= k < states.len(),
    ensures
        states[k].dry_run,
        states[k].stage is MarkingAttempt || states[k].stage is Done,
    decreases k,
{
    if k > 0 {
        lemma_dry_run_stays_put(params, oauth, events, states, actions, k - 1);
        assert(callback_step(states[k - 1], events[k - 1], states[k], actions[k - 1]));
    }
}

/// With requests to Discord disabled (`dry_run`), a callback never asks to
/// post its code to Discord nor to fetch a user from it.
pub proof fn lemma_dry_run_never_contacts_discord(
    params: CallbackParamsView,
    oauth: Option<OAuthView>,
    events: Seq<EventView>,
    states: Seq<FlowView>,
    actions: Seq<ActionView>,
    k: int,
)
    requires
        callback_run(callback_start(params, oauth, true), events, states, actions),
        0 <= k < actions.len(),
    ensures
        !(actions[k] is ExchangeCode),
        !(actions[k] is FetchUser),
{
    lemma_dry_run_stays_put(params, oauth, events, states, actions, k);
    assert(callback_step(states[k], events[k], states[k + 1], actions[k]));
}


/// Whatever the outcome of linking the attempt (the link is best effort),
/// the flow goes on to look up the player registered for that Discord
/// user.
pub proof fn lemma_link_outcome_leads_to_lookup(
    s: FlowView,
    user_id: Seq<char>,
    result: Result<(), Seq<char>>,
    s2: FlowView,
    a: ActionView,
)
    requires
        s.stage == (StageView::LinkingAttempt { user_id }),
        callback_step(s, EventView::AttemptLinked { result }, s2, a),
    ensures
        s2.stage == (StageView::LookingUpPlayer { user_id }),
        a == (ActionView::LookupPlayer { discord_user_id: user_id }),
{
}

/// A new player is registered only for a Discord user that the lookup
/// just before found unregistered: the action right before asked to look
/// up that same user, and the lookup came back empty.
pub proof fn lemma_player_created_only_when_none_found(
    s0: FlowView,
    events: Seq<EventView>,
    states: Seq<FlowView>,
    actions: Seq<ActionView>,
    k: int,
)
    requires
        callback_run(s0, events, states, actions),
        0 <= k < actions.len(),
        actions[k] is CreatePlayer,
    ensures
        events[k] == (EventView::PlayerLookedUp { result: Ok(None) }),
        k >= 1 ==> actions[k - 1] == (ActionView::LookupPlayer {
            discord_user_id: actions[k]->CreatePlayer_discord_user_id,
        }),
{
    assert(callback_step(states[k], events[k], states[k + 1], actions[k]));
    if k >= 1 {
        assert(callback_step(states[k - 1], events[k - 1], states[k], actions[k - 1]));
    }
}

/// The code that Discord sent back is the one posted to the token
/// endpoint, unchanged, with the configured client's credentials.
pub proof fn lemma_exchange_posts_received_code(
    s: FlowView,
    e: EventView,
    s2: FlowView,
    a: ActionView,
)
    requires
        callback_step(s, e, s2, a),
        a is ExchangeCode,
    ensures
        s.params.code is Some,
        s.oauth is Some,
        a->form.len() == 5,
        a->form[3] == ("code"@, s.params.code->0),
        a->form[0] == ("client_id"@, s.oauth->0.client_id),
        a->form[1] == ("client_secret"@, s.oauth->0.client_secret),
        a->form[4] == ("redirect_uri"@, s.oauth->0.redirect_uri),
{
}

} // verus!
