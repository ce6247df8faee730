//! Replies that the HTTP layer sends back, as plain values.
use vstd::prelude::*;

verus! {

/// The response headers that the server sets.
#[derive(Clone, Copy, Debug, PartialEq, Eq, Structural)]
pub enum HeaderName {
    Location,
    ContentType,
    CacheControl,
    SetCookie,
}

/// An HTTP response: status code, headers in order, and body text.
#[derive(Clone, Debug)]
pub struct HttpReply {
    pub status: u16,
    pub headers: Vec<(HeaderName, String)>,
    pub body: String,
}

/// The mathematical model of an [`HttpReply`].
#[verifier::ext_equal]
pub struct ReplyView {
    pub status: u16,
    pub headers: Seq<(HeaderName, Seq<char>)>,
    pub body: Seq<char>,
}

pub open spec fn header_view(h: (HeaderName, String)) -> (HeaderName, Seq<char>) {
    (h.0, h.1@)
}

impl View for HttpReply {
    type V = ReplyView;

    open spec fn view(&self) -> ReplyView {
        ReplyView {
            status: self.status,
            headers: self.headers@.map_values(|h: (HeaderName, String)| header_view(h)),
            body: self.body@,
        }
    }
}

/// Status code of a successful request.
pub const STATUS_OK: u16 = 200;

/// Status code of a redirection to the `Location` header.
pub const STATUS_FOUND: u16 = 302;

/// Status code of a request that the server refuses.
pub const STATUS_BAD_REQUEST: u16 = 400;

/// The reply of the health check: always `200` with the text `Ok`.
pub open spec fn health_reply() -> ReplyView {
    ReplyView {
        status: STATUS_OK,
        headers: seq![(HeaderName::ContentType, "text/plain; charset=utf-8"@)],
        body: "Ok"@,
    }
}

/// Returns 200, always.
pub fn health() -> (r: HttpReply)
    ensures
        r@ == health_reply(),
{
    let mut ct = String::new();
    ct.append("text/plain; charset=utf-8");
    let mut body = String::new();
    body.append("Ok");
    let mut headers: Vec<(HeaderName, String)> = Vec::new();
    headers.push((HeaderName::ContentType, ct));
    let r = HttpReply { status: STATUS_OK, headers, body };
    assert(r@.headers =~= health_reply().headers);
    r
}

} // verus!
