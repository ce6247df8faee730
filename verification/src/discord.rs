//! Discord OAuth: configuration, the authorization URL, the token
//! request, and the decisions of the login callback.
use vstd::prelude::*;

use crate::api::{HeaderName, HttpReply, ReplyView, STATUS_BAD_REQUEST, STATUS_FOUND};
use crate::steam::{is_hex_of_len, random_hex};
use crate::text::{hex_lower, is_lower_hex, lemma_hex_lower_shape, owned};
use crate::Config;

verus! {

/// Discord OAuth configuration extracted from the main [`Config`].
#[derive(Debug, Clone)]
pub struct OAuthBundle {
    pub client_id: String,
    pub client_secret: String,
    pub redirect_uri: String,
}

/// The model of an [`OAuthBundle`].
pub struct OAuthView {
    pub client_id: Seq<char>,
    pub client_secret: Seq<char>,
    pub redirect_uri: Seq<char>,
}

impl View for OAuthBundle {
    type V = OAuthView;

    open spec fn view(&self) -> OAuthView {
        OAuthView {
            client_id: self.client_id@,
            client_secret: self.client_secret@,
            redirect_uri: self.redirect_uri@,
        }
    }
}

pub open spec fn opt_view(o: Option<String>) -> Option<Seq<char>> {
    match o {
        Some(s) => Some(s@),
        None => None,
    }
}

/// The answer of Discord's token endpoint.
#[derive(Debug, Clone)]
pub struct TokenResponse {
    pub access_token: String,
    pub token_type: String,
    pub expires_in: u64,
    pub refresh_token: String,
    pub scope: String,
}

/// The model of a [`TokenResponse`].
pub struct TokenResponseView {
    pub access_token: Seq<char>,
    pub token_type: Seq<char>,
    pub expires_in: u64,
    pub refresh_token: Seq<char>,
    pub scope: Seq<char>,
}

impl View for TokenResponse {
    type V = TokenResponseView;

    open spec fn view(&self) -> TokenResponseView {
        TokenResponseView {
            access_token: self.access_token@,
            token_type: self.token_type@,
            expires_in: self.expires_in,
            refresh_token: self.refresh_token@,
            scope: self.scope@,
        }
    }
}

/// The user that Discord reports for an access token.
#[derive(Debug, Clone)]
pub struct DiscordUser {
    pub id: String,
    pub username: String,
    pub avatar: Option<String>,
    pub banner: Option<String>,
    pub accent_color: Option<u32>,
    pub global_name: Option<String>,
}

/// The model of a [`DiscordUser`].
pub struct DiscordUserView {
    pub id: Seq<char>,
    pub username: Seq<char>,
    pub avatar: Option<Seq<char>>,
    pub banner: Option<Seq<char>>,
    pub accent_color: Option<u32>,
    pub global_name: Option<Seq<char>>,
}

impl View for DiscordUser {
    type V = DiscordUserView;

    open spec fn view(&self) -> DiscordUserView {
        DiscordUserView {
            id: self.id@,
            username: self.username@,
            avatar: opt_view(self.avatar),
            banner: opt_view(self.banner),
            accent_color: self.accent_color,
            global_name: opt_view(self.global_name),
        }
    }
}

/// The query parameters with which Discord redirects the user back.
#[derive(Debug, Clone)]
pub struct CallbackAPIParams {
    pub code: Option<String>,
    pub error: Option<String>,
    pub state: String,
}

/// The model of [`CallbackAPIParams`].
pub struct CallbackParamsView {
    pub code: Option<Seq<char>>,
    pub error: Option<Seq<char>>,
    pub state: Seq<char>,
}

impl View for CallbackAPIParams {
    type V = CallbackParamsView;

    open spec fn view(&self) -> CallbackParamsView {
        CallbackParamsView { code: opt_view(self.code), error: opt_view(self.error), state: self.state@ }
    }
}

impl Config {
    /// The OAuth settings are usable when none of them is empty.
    pub open spec fn has_discord_oauth(&self) -> bool {
        &&& self.discord_client_id@.len() > 0
        &&& self.discord_client_secret@.len() > 0
        &&& self.discord_redirect_uri@.len() > 0
    }

    /// The Discord OAuth settings, or `None` when any of them is empty.
    pub fn get_discord_oauth(&self) -> (res: Option<OAuthBundle>)
        ensures
            res is Some <==> self.has_discord_oauth(),
            res is None <==> (self.discord_client_id@.len() == 0 || self.discord_client_secret@.len()
                == 0 || self.discord_redirect_uri@.len() == 0),
            res matches Some(b) ==> {
                &&& b.client_id@ == self.discord_client_id@
                &&& b.client_secret@ == self.discord_client_secret@
                &&& b.redirect_uri@ == self.discord_redirect_uri@
            },
    {
        if self.discord_client_id.as_str().is_empty() || self.discord_client_secret.as_str().is_empty()
            || self.discord_redirect_uri.as_str().is_empty()
        {
            None
        } else {
            Some(
                OAuthBundle {
                    client_id: self.discord_client_id.clone(),
                    client_secret: self.discord_client_secret.clone(),
                    redirect_uri: self.discord_redirect_uri.clone(),
                },
            )
        }
    }
}


/// Whether a byte is left as it is by percent-encoding: ASCII letters and
/// digits, `-`, `.`, `_` and `~`.
pub open spec fn is_unreserved(b: u8) -> bool {
    ||| 48 <= b <= 57
    ||| 65 <= b <= 90
    ||| 97 <= b <= 122
    ||| b == 45
    ||| b == 46
    ||| b == 95
    ||| b == 126
}

/// The uppercase hexadecimal digit for a value below sixteen.
pub open spec fn hex_upper_digit(d: int) -> char
    recommends
        0 <= d < 16,
{
    if d < 10 {
        (d + 48) as char
    } else {
        (d + 55) as char
    }
}

/// Percent-encoding of bytes: unreserved bytes stay, every other byte
/// becomes `%` and two uppercase hexadecimal digits.
pub open spec fn percent_encode(bytes: Seq<u8>) -> Seq<char>
    decreases bytes.len(),
{
    if bytes.len() == 0 {
        Seq::empty()
    } else {
        let b = bytes.last();
        percent_encode(bytes.drop_last()) + if is_unreserved(b) {
            seq![b as char]
        } else {
            seq!['%', hex_upper_digit(b as int / 16), hex_upper_digit(b as int % 16)]
        }
    }
}

/// Percent-encoding of the UTF-8 bytes of a string.
pub open spec fn url_encoded(s: Seq<char>) -> Seq<char> {
    percent_encode(vstd::utf8::encode_utf8(s))
}

/// Percent-encodes a string for a URL query (`urlencoding::encode`).
///
/// Trusted: the contract states what the crate documents and its source
/// does: every byte of the UTF-8 encoding except ASCII alphanumerics and
/// `-`, `_`, `.`, `~` becomes `%` followed by two uppercase hex digits.
#[verifier::external_body]
fn url_encode(s: &str) -> (res: String)
    ensures
        res@ == url_encoded(s@),
{
    urlencoding::encode(s).into_owned()
}

/// The Discord authorization URL for a login state and configuration.
pub open spec fn spec_authorization_url(state: Seq<char>, cfg: OAuthView) -> Seq<char> {
    "https://discord.com/api/oauth2/authorize?client_id="@ + cfg.client_id + "&redirect_uri="@
        + url_encoded(cfg.redirect_uri) + "&response_type=code&scope=identify+openid&state="@
        + url_encoded(state)
}

/// The URL that sends the user to Discord to authorize this application.
pub fn authorization_url(state: &str, cfg: &OAuthBundle) -> (url: String)
    ensures
        url@ == spec_authorization_url(state@, cfg@),
{
    let mut url = String::new();
    url.append("https://discord.com/api/oauth2/authorize?client_id=");
    url.append(cfg.client_id.as_str());
    url.append("&redirect_uri=");
    let redirect = url_encode(cfg.redirect_uri.as_str());
    url.append(redirect.as_str());
    url.append("&response_type=code&scope=identify+openid&state=");
    let st = url_encode(state);
    url.append(st.as_str());
    assert(url@ =~= spec_authorization_url(state@, cfg@));
    url
}

/// The form fields of the request that trades an authorization code for
/// tokens.
pub open spec fn spec_token_request_form(code: Seq<char>, cfg: OAuthView) -> Seq<(Seq<char>, Seq<char>)> {
    seq![
        ("client_id"@, cfg.client_id),
        ("client_secret"@, cfg.client_secret),
        ("grant_type"@, "authorization_code"@),
        ("code"@, code),
        ("redirect_uri"@, cfg.redirect_uri),
    ]
}

pub open spec fn pair_view(p: (String, String)) -> (Seq<char>, Seq<char>) {
    (p.0@, p.1@)
}

pub open spec fn pairs_view(v: Seq<(String, String)>) -> Seq<(Seq<char>, Seq<char>)> {
    v.map_values(|p: (String, String)| pair_view(p))
}

/// The form fields posted to Discord's token endpoint to exchange `code`.
pub fn token_request_form(code: &str, cfg: &OAuthBundle) -> (form: Vec<(String, String)>)
    ensures
        pairs_view(form@) == spec_token_request_form(code@, cfg@),
        form@.len() == 5,
        form@[0].1@ == cfg.client_id@,
        form@[1].1@ == cfg.client_secret@,
        form@[3].0@ == "code"@,
        form@[3].1@ == code@,
        form@[4].1@ == cfg.redirect_uri@,
{
    let mut form: Vec<(String, String)> = Vec::new();
    form.push((owned("client_id"), owned(cfg.client_id.as_str())));
    form.push((owned("client_secret"), owned(cfg.client_secret.as_str())));
    form.push((owned("grant_type"), owned("authorization_code")));
    form.push((owned("code"), owned(code)));
    form.push((owned("redirect_uri"), owned(cfg.redirect_uri.as_str())));
    assert(pairs_view(form@) =~= spec_token_request_form(code@, cfg@));
    form
}

/// The reply to a refused request: `400` with the text `Error: ` and the
/// reason.
pub open spec fn error_reply(reason: Seq<char>) -> ReplyView {
    ReplyView { status: STATUS_BAD_REQUEST, headers: Seq::empty(), body: "Error: "@ + reason }
}

/// The reply to a refused request.
pub fn basic_error_response(error: &str) -> (r: HttpReply)
    ensures
        r@ == error_reply(error@),
{
    let mut body = String::new();
    body.append("Error: ");
    body.append(error);
    let r = HttpReply { status: STATUS_BAD_REQUEST, headers: Vec::new(), body };
    assert(r@.headers =~= Seq::<(HeaderName, Seq<char>)>::empty());
    assert(r@.body =~= error_reply(error@).body);
    r
}

/// Number of random bytes in the state of a login attempt.
pub const LOGIN_STATE_BYTES: usize = 16;

/// A fresh login state: 16 random bytes in lowercase hexadecimal.
pub fn create_login_state() -> (state: String)
    ensures
        is_hex_of_len(state@, LOGIN_STATE_BYTES as nat),
{
    random_hex(LOGIN_STATE_BYTES)
}

/// The redirection to Discord's authorization page: `302` with the URL as
/// `Location` and as body.
pub open spec fn login_redirect_reply(state: Seq<char>, cfg: OAuthView) -> ReplyView {
    let url = spec_authorization_url(state, cfg);
    ReplyView { status: STATUS_FOUND, headers: seq![(HeaderName::Location, url)], body: url }
}

/// The reply that starts a Discord login whose attempt was recorded under
/// `state`.
pub fn login_redirect(state: &str, cfg: &OAuthBundle) -> (r: HttpReply)
    ensures
        r@ == login_redirect_reply(state@, cfg@),
        r.status == STATUS_FOUND,
        r@.headers == seq![(HeaderName::Location, spec_authorization_url(state@, cfg@))],
        r@.body == spec_authorization_url(state@, cfg@),
{
    let url = authorization_url(state, cfg);
    let body = url.clone();
    let mut headers: Vec<(HeaderName, String)> = Vec::new();
    headers.push((HeaderName::Location, url));
    let r = HttpReply { status: STATUS_FOUND, headers, body };
    assert(r@.headers =~= login_redirect_reply(state@, cfg@).headers);
    r
}


spec fn bytes_as_chars(bytes: Seq<u8>) -> Seq<char> {
    bytes.map_values(|b: u8| b as char)
}

proof fn lemma_percent_encode_unreserved(bytes: Seq<u8>)
    requires
        forall|i: int| 0 <= i < bytes.len() ==> is_unreserved(#[trigger] bytes[i]),
    ensures
        percent_encode(bytes) == bytes_as_chars(bytes),
    decreases bytes.len(),
{
    if bytes.len() > 0 {
        let p = bytes.drop_last();
        lemma_percent_encode_unreserved(p);
        assert(is_unreserved(bytes[bytes.len() - 1]));
        assert(percent_encode(bytes) =~= bytes_as_chars(bytes));
    }
}

/// Text made of lowercase hexadecimal digits passes through URL encoding
/// unchanged.
pub proof fn lemma_lower_hex_url_encoded(s: Seq<char>)
    requires
        is_lower_hex(s),
    ensures
        url_encoded(s) == s,
{
    assert(vstd::utf8::is_ascii_chars(s)) by {
        assert forall|i| 0 <= i < s.len() implies '\0' <= #[trigger] s[i] <= '\u{7f}' by {
            assert(('0' <= s[i] <= '9') || ('a' <= s[i] <= 'f'));
        }
    }
    vstd::utf8::is_ascii_chars_encode_utf8(s);
    let bytes = vstd::utf8::encode_utf8(s);
    assert forall|i: int| 0 <= i < bytes.len() implies is_unreserved(#[trigger] bytes[i]) by {
        assert(s[i] as u8 == bytes[i]);
        assert(('0' <= s[i] <= '9') || ('a' <= s[i] <= 'f'));
    }
    lemma_percent_encode_unreserved(bytes);
    assert forall|i: int| 0 <= i < s.len() implies #[trigger] bytes_as_chars(bytes)[i] == s[i] by {
        assert(s[i] as u8 == bytes[i]);
        assert(('0' <= s[i] <= '9') || ('a' <= s[i] <= 'f'));
    }
    assert(url_encoded(s) =~= s);
}

/// The state of a login attempt travels to Discord unchanged: the
/// authorization URL ends with `&state=` and the very state that was
/// recorded, so that the callback can find the attempt by it.
pub proof fn lemma_login_state_in_url(state: Seq<char>, cfg: OAuthView)
    requires
        is_hex_of_len(state, LOGIN_STATE_BYTES as nat),
    ensures
        spec_authorization_url(state, cfg) == "https://discord.com/api/oauth2/authorize?client_id="@
            + cfg.client_id + "&redirect_uri="@ + url_encoded(cfg.redirect_uri)
            + "&response_type=code&scope=identify+openid&state="@ + state,
{
    let b = choose|b: Seq<u8>| b.len() == LOGIN_STATE_BYTES as nat && state == #[trigger] hex_lower(b);
    lemma_hex_lower_shape(b);
    lemma_lower_hex_url_encoded(state);
}

/// The value of a hexadecimal digit, in either case.
pub open spec fn hex_value(c: char) -> int {
    if '0' <= c <= '9' {
        c as int - 48
    } else if 'A' <= c <= 'F' {
        c as int - 55
    } else {
        c as int - 87
    }
}

/// Percent-decoding, read from the end: a `%` followed by two digits
/// stands for the byte they give, every other character for its own code.
pub open spec fn percent_decode(cs: Seq<char>) -> Seq<u8>
    decreases cs.len(),
{
    if cs.len() == 0 {
        Seq::empty()
    } else if cs.len() >= 3 && cs[cs.len() - 3] == '%' {
        percent_decode(cs.subrange(0, cs.len() - 3)).push(
            (hex_value(cs[cs.len() - 2]) * 16 + hex_value(cs[cs.len() - 1])) as u8,
        )
    } else {
        percent_decode(cs.drop_last()).push(cs.last() as u8)
    }
}

/// A character that percent-encoding may produce: an unreserved one, `%`,
/// or an uppercase hexadecimal digit.
pub open spec fn is_encoded_char(c: char) -> bool {
    ||| ('0' <= c <= '9')
    ||| ('A' <= c <= 'Z')
    ||| ('a' <= c <= 'z')
    ||| c == '-'
    ||| c == '.'
    ||| c == '_'
    ||| c == '~'
    ||| c == '%'
}

proof fn lemma_percent_encode_shape(bytes: Seq<u8>)
    ensures
        forall|i: int| 0 <= i < percent_encode(bytes).len() ==> is_encoded_char(#[trigger] percent_encode(bytes)[i]),
        forall|i: int|
            0 <= i < percent_encode(bytes).len() && #[trigger] percent_encode(bytes)[i] == '%' ==> i + 2
                < percent_encode(bytes).len(),
    decreases bytes.len(),
{
    if bytes.len() > 0 {
        let p = bytes.drop_last();
        lemma_percent_encode_shape(p);
        let e = percent_encode(bytes);
        let ep = percent_encode(p);
        assert forall|i: int| 0 <= i < e.len() implies is_encoded_char(#[trigger] e[i]) && (e[i] == '%' ==> i + 2 < e.len()) by {
            if i < ep.len() {
                assert(e[i] == ep[i]);
            }
        }
    }
}

proof fn lemma_percent_roundtrip(bytes: Seq<u8>)
    ensures
        percent_decode(percent_encode(bytes)) == bytes,
    decreases bytes.len(),
{
    if bytes.len() > 0 {
        let p = bytes.drop_last();
        let x = bytes.last();
        lemma_percent_roundtrip(p);
        lemma_percent_encode_shape(p);
        let ep = percent_encode(p);
        let e = percent_encode(bytes);
        let n = e.len();
        if is_unreserved(x) {
            assert(e =~= ep.push(x as char));
            if n >= 3 {
                assert(e[n - 3] == ep[ep.len() - 2]);
                assert(e[n - 3] != '%');
            }
            assert(e.drop_last() =~= ep);
        } else {
            assert(e =~= ep + seq!['%', hex_upper_digit(x as int / 16), hex_upper_digit(x as int % 16)]);
            assert(e[n - 3] == '%');
            assert(e.subrange(0, n - 3) =~= ep);
            assert(hex_value(hex_upper_digit(x as int / 16)) * 16 + hex_value(hex_upper_digit(x as int % 16)) == x);
        }
        assert(bytes =~= p.push(x));
    }
}

/// The authorization URL up to and including `&state=`.
pub open spec fn authorization_prefix(cfg: OAuthView) -> Seq<char> {
    "https://discord.com/api/oauth2/authorize?client_id="@ + cfg.client_id + "&redirect_uri="@
        + url_encoded(cfg.redirect_uri) + "&response_type=code&scope=identify+openid&state="@
}

/// Any state can be read back from the authorization URL: the URL is a
/// prefix ending in `&state=` followed by the encoded state, which holds
/// no `&` and no `=`, and percent-decoding the encoded state and reading
/// the bytes as UTF-8 gives the state back.
pub proof fn lemma_state_recoverable(state: Seq<char>, cfg: OAuthView)
    ensures
        spec_authorization_url(state, cfg) == authorization_prefix(cfg) + url_encoded(state),
        forall|i: int|
            0 <= i < url_encoded(state).len() ==> #[trigger] url_encoded(state)[i] != '&'
                && url_encoded(state)[i] != '=',
        vstd::utf8::decode_utf8(percent_decode(url_encoded(state))) == state,
{
    let bytes = vstd::utf8::encode_utf8(state);
    lemma_percent_encode_shape(bytes);
    lemma_percent_roundtrip(bytes);
    vstd::utf8::encode_utf8_decode_utf8(state);
    assert forall|i: int| 0 <= i < url_encoded(state).len() implies #[trigger] url_encoded(state)[i] != '&'
        && url_encoded(state)[i] != '=' by {
        assert(is_encoded_char(percent_encode(bytes)[i]));
    }
}


/// The OAuth settings are reported present exactly when none of the three
/// is empty; nothing else about them matters.
pub proof fn lemma_oauth_present_iff_all_set(c: Config)
    ensures
        c.has_discord_oauth() <==> (c.discord_client_id@.len() != 0 && c.discord_client_secret@.len()
            != 0 && c.discord_redirect_uri@.len() != 0),
{
}

/// The token request carries the code exactly as given, next to the
/// client's id, secret and redirect URI: five fields, in this order.
pub proof fn lemma_token_form_carries_code(code: Seq<char>, cfg: OAuthView)
    ensures
        spec_token_request_form(code, cfg).len() == 5,
        spec_token_request_form(code, cfg)[0] == ("client_id"@, cfg.client_id),
        spec_token_request_form(code, cfg)[1] == ("client_secret"@, cfg.client_secret),
        spec_token_request_form(code, cfg)[2] == ("grant_type"@, "authorization_code"@),
        spec_token_request_form(code, cfg)[3] == ("code"@, code),
        spec_token_request_form(code, cfg)[4] == ("redirect_uri"@, cfg.redirect_uri),
{
}

/// Two token requests for the same client differ exactly when their codes
/// differ: the code is never altered on its way to Discord.
pub proof fn lemma_token_form_determines_code(c1: Seq<char>, c2: Seq<char>, cfg: OAuthView)
    ensures
        (spec_token_request_form(c1, cfg) == spec_token_request_form(c2, cfg)) <==> (c1 == c2),
{
    if spec_token_request_form(c1, cfg) == spec_token_request_form(c2, cfg) {
        assert(spec_token_request_form(c1, cfg)[3] == spec_token_request_form(c2, cfg)[3]);
    }
}

/// Starting a login always redirects: status `302`, one `Location`
/// header with the authorization URL, and that URL as body, whatever the
/// state and configuration.
pub proof fn lemma_login_redirect_is_found(state: Seq<char>, cfg: OAuthView)
    ensures
        login_redirect_reply(state, cfg).status == 302,
        login_redirect_reply(state, cfg).headers.len() == 1,
        login_redirect_reply(state, cfg).headers[0] == (HeaderName::Location, spec_authorization_url(state, cfg)),
        login_redirect_reply(state, cfg).body == login_redirect_reply(state, cfg).headers[0].1,
        login_redirect_reply(state, cfg).body == authorization_prefix(cfg) + url_encoded(state),
{
    lemma_state_recoverable(state, cfg);
}

} // verus!
