//! Stored credentials and the header set sent with every request.
use vstd::prelude::*;

verus! {

/// The session credentials kept between runs.
#[derive(Clone, Debug)]
pub struct Cookies {
    pub sessdata: String,
    pub bili_jct: String,
    pub refresh_token: String,
}

impl Cookies {
    /// No credentials: every field empty.
    pub fn empty() -> (c: Cookies)
        ensures
            c.sessdata@.len() == 0,
            c.bili_jct@.len() == 0,
            c.refresh_token@.len() == 0,
    {
        Cookies { sessdata: String::new(), bili_jct: String::new(), refresh_token: String::new() }
    }
}

pub open spec fn user_agent() -> Seq<char> {
    "Mozilla/5.0 (Windows NT 10.0; Win64; x64) AppleWebKit/537.36 (KHTML, like Gecko) Chrome/126.0.0.0 Safari/537.36"@
}

/// The request headers, as name and value, for the given credentials.
pub open spec fn headers_of(cookie: Cookies) -> Seq<(Seq<char>, Seq<char>)> {
    seq![
        ("User-Agent"@, user_agent()),
        ("Referer"@, "https://www.bilibili.com"@),
        ("Cookie"@, "SESSDATA="@ + cookie.sessdata@),
    ]
}

/// The user agent, referer and session cookie headers sent with every request.
pub fn create_headers(cookie: &Cookies) -> (r: Vec<(String, String)>)
    ensures
        r@.map_values(|h: (String, String)| (h.0@, h.1@)) == headers_of(*cookie),
{
    let mut r: Vec<(String, String)> = Vec::new();
    r.push(
        (
            String::from_str("User-Agent"),
            String::from_str(
                "Mozilla/5.0 (Windows NT 10.0; Win64; x64) AppleWebKit/537.36 (KHTML, like Gecko) Chrome/126.0.0.0 Safari/537.36",
            ),
        ),
    );
    r.push((String::from_str("Referer"), String::from_str("https://www.bilibili.com")));
    r.push((String::from_str("Cookie"), String::from_str("SESSDATA=").concat(cookie.sessdata.as_str())));
    assert(r@.map_values(|h: (String, String)| (h.0@, h.1@)) =~= headers_of(*cookie));
    r
}

/// Whether the session needs no refresh: the check answered with code zero
/// and said no refresh is due. A missing code or flag counts against it.
pub fn session_is_current(code: Option<i64>, refresh: Option<bool>) -> (r: bool)
    ensures
        r == (code == Some(0i64) && refresh == Some(false)),
{
    match (code, refresh) {
        (Some(0), Some(false)) => true,
        _ => false,
    }
}

} // verus!
