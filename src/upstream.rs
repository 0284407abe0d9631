//! The shape of outbound requests to the upstream service, and of its replies.

use vstd::prelude::*;

use crate::text::{header_value_ok, is_header_value};

verus! {

/// The identity endpoint: log in, or refresh a session.
pub const SESSIONS_URL: &'static str = "https://public-ubiservices.ubi.com/v3/profiles/sessions";

/// The profile search endpoint.
pub const PROFILES_URL: &'static str = "https://public-ubiservices.ubi.com/v2/profiles";

/// The body of a login request.
pub const LOGIN_BODY: &'static str = "{\"rememberMe\":true}";

pub const USER_AGENT: &'static str =
    "Mozilla/5.0 (X11; Ubuntu; Linux x86_64; rv:80.0) Gecko/20100101 Firefox/80.0";

pub const REFERER: &'static str = "https://connect.ubisoft.com";

/// The HTTP method of a request.
#[derive(Clone, Copy, Debug, PartialEq, Eq, Structural)]
pub enum Method {
    Get,
    Post,
}

/// An outbound request, ready to be sent as it stands.
#[derive(Clone, Debug)]
pub struct Request {
    pub method: Method,
    pub url: String,
    /// Header names, in lower case, and values, in the order they are set.
    pub headers: Vec<(String, String)>,
    /// Account and secret for basic authentication, if it is used.
    pub basic_auth: Option<(String, String)>,
    pub body: Option<String>,
}

/// A request as texts.
pub struct RequestView {
    pub method: Method,
    pub url: Seq<char>,
    pub headers: Seq<(Seq<char>, Seq<char>)>,
    pub basic_auth: Option<(Seq<char>, Seq<char>)>,
    pub body: Option<Seq<char>>,
}

/// The views of a list of pairs of texts.
pub open spec fn pairs_view(v: Seq<(String, String)>) -> Seq<(Seq<char>, Seq<char>)> {
    v.map_values(|p: (String, String)| (p.0@, p.1@))
}

impl View for Request {
    type V = RequestView;

    open spec fn view(&self) -> RequestView {
        RequestView {
            method: self.method,
            url: self.url@,
            headers: pairs_view(self.headers@),
            basic_auth: match self.basic_auth {
                Some(p) => Some((p.0@, p.1@)),
                None => None,
            },
            body: match self.body {
                Some(b) => Some(b@),
                None => None,
            },
        }
    }
}

/// What came back from the upstream service for one request: nothing, when
/// the transport failed, or a status code and the body decoded into the
/// expected shape (`None` when it did not decode).
#[derive(Clone, Debug)]
pub enum Reply<T> {
    TransportFailed,
    Received { status: u16, body: Option<T> },
}

/// The payload of a reply with a success status (2xx) and a body of the
/// expected shape; `None` for any other reply.
pub open spec fn accepted<T>(reply: Reply<T>) -> Option<T> {
    match reply {
        Reply::Received { status, body: Some(b) } => {
            if 200 <= status < 300 {
                Some(b)
            } else {
                None
            }
        },
        _ => None,
    }
}

/// The payload of a successful reply, if the reply is one.
pub fn accept_reply<T>(reply: Reply<T>) -> (r: Option<T>)
    ensures
        r == accepted(reply),
{
    match reply {
        Reply::Received { status, body: Some(b) } => {
            if 200 <= status && status < 300 {
                Some(b)
            } else {
                None
            }
        },
        _ => None,
    }
}

/// The upstream session payload of a login or refresh.
#[derive(Clone, Debug)]
pub struct Session {
    pub platform_type: String,
    pub ticket: String,
    pub profile_id: String,
    pub user_id: String,
    pub name_on_platform: String,
    pub expiration: String,
}

/// The headers that every request carries.
pub open spec fn base_headers(appid: Seq<char>) -> Seq<(Seq<char>, Seq<char>)> {
    seq![
        ("ubi-appid"@, appid),
        ("user-agent"@, USER_AGENT@),
        ("content-type"@, "application/json"@),
        ("connection"@, "keep-alive"@),
        ("accept"@, "*/*"@),
        ("content-length"@, "0"@),
        ("referer"@, REFERER@),
    ]
}

/// The headers of a request: the common ones, then an `authorization` header
/// with the bearer credential if one is given; `None` when a value could not
/// stand in a header.
pub open spec fn headers_for(appid: Seq<char>, bearer: Option<Seq<char>>) -> Option<
    Seq<(Seq<char>, Seq<char>)>,
> {
    if !is_header_value(appid) {
        None
    } else {
        match bearer {
            None => Some(base_headers(appid)),
            Some(t) => if is_header_value(t) {
                Some(base_headers(appid).push(("authorization"@, t)))
            } else {
                None
            },
        }
    }
}

/// The view of an optional text.
pub open spec fn str_view(o: Option<&str>) -> Option<Seq<char>> {
    match o {
        Some(t) => Some(t@),
        None => None,
    }
}

fn push_header(headers: &mut Vec<(String, String)>, name: &str, value: &str)
    ensures
        pairs_view(final(headers)@) == pairs_view(old(headers)@).push((name@, value@)),
{
    headers.push((String::from_str(name), String::from_str(value)));
    assert(pairs_view(final(headers)@) =~= pairs_view(old(headers)@).push((name@, value@)));
}

/// Builds the headers of a request; a login passes no bearer credential.
pub fn request_headers(appid: &str, bearer: Option<&str>) -> (r: Option<Vec<(String, String)>>)
    ensures
        match r {
            Some(h) => headers_for(appid@, str_view(bearer)) == Some(pairs_view(h@)),
            None => headers_for(appid@, str_view(bearer)) is None,
        },
{
    if !header_value_ok(appid) {
        return None;
    }
    let mut headers: Vec<(String, String)> = Vec::new();
    assert(pairs_view(headers@) =~= Seq::empty());
    push_header(&mut headers, "ubi-appid", appid);
    push_header(&mut headers, "user-agent", USER_AGENT);
    push_header(&mut headers, "content-type", "application/json");
    push_header(&mut headers, "connection", "keep-alive");
    push_header(&mut headers, "accept", "*/*");
    push_header(&mut headers, "content-length", "0");
    push_header(&mut headers, "referer", REFERER);
    assert(pairs_view(headers@) =~= base_headers(appid@));
    match bearer {
        None => Some(headers),
        Some(t) => {
            if header_value_ok(t) {
                push_header(&mut headers, "authorization", t);
                Some(headers)
            } else {
                None
            }
        },
    }
}

} // verus!
