//! The request headers of an HTTP attempt: those of a browser that opens
//! the home page, and those of a browser that goes on to a room.

use vstd::prelude::*;
use crate::credentials::HOME_URL;

verus! {

pub const ACCEPT: &'static str = "accept";

pub const ACCEPT_LANGUAGE: &'static str = "accept-language";

pub const CACHE_CONTROL: &'static str = "cache-control";

pub const COOKIE: &'static str = "cookie";

pub const DNT: &'static str = "dnt";

pub const PRIORITY: &'static str = "priority";

pub const REFERER: &'static str = "referer";

pub const SEC_CH_UA: &'static str = "sec-ch-ua";

pub const SEC_CH_UA_MOBILE: &'static str = "sec-ch-ua-mobile";

pub const SEC_CH_UA_PLATFORM: &'static str = "sec-ch-ua-platform";

pub const SEC_FETCH_DEST: &'static str = "sec-fetch-dest";

pub const SEC_FETCH_MODE: &'static str = "sec-fetch-mode";

pub const SEC_FETCH_SITE: &'static str = "sec-fetch-site";

pub const SEC_FETCH_USER: &'static str = "sec-fetch-user";

pub const UPGRADE_INSECURE_REQUESTS: &'static str = "upgrade-insecure-requests";

pub const USER_AGENT: &'static str = "user-agent";

pub const ACCEPT_VALUE: &'static str =
    "text/html,application/xhtml+xml,application/xml;q=0.9,image/avif,image/webp,image/apng,*/*;q=0.8,application/signed-exchange;v=b3;q=0.7";

pub const ACCEPT_LANGUAGE_VALUE: &'static str = "zh-CN,zh;q=0.9,en;q=0.8,en-GB;q=0.7,en-US;q=0.6";

/// `accept` of a request that only looks for the session token.
pub const ACCEPT_PLAIN_VALUE: &'static str =
    "text/html,application/xhtml+xml,application/xml;q=0.9,image/avif,image/webp,image/apng,*/*;q=0.8";

/// `accept-language` of a request that only looks for the session token.
pub const ACCEPT_LANGUAGE_PLAIN_VALUE: &'static str = "zh-CN,zh;q=0.9,en;q=0.8";

pub const CACHE_CONTROL_VALUE: &'static str = "max-age=0";

pub const DNT_VALUE: &'static str = "1";

pub const PRIORITY_VALUE: &'static str = "u=0, i";

pub const SEC_CH_UA_VALUE: &'static str = "\"Chromium\";v=\"131\", \"Not_A Brand\";v=\"24\"";

pub const SEC_CH_UA_MOBILE_VALUE: &'static str = "?0";

pub const SEC_CH_UA_PLATFORM_VALUE: &'static str = "\"Windows\"";

pub const SEC_FETCH_DEST_VALUE: &'static str = "document";

pub const SEC_FETCH_MODE_VALUE: &'static str = "navigate";

/// `sec-fetch-site` of a request that the user began.
pub const SEC_FETCH_SITE_NONE: &'static str = "none";

/// `sec-fetch-site` of a request that follows a link on the site.
pub const SEC_FETCH_SITE_SAME_ORIGIN: &'static str = "same-origin";

pub const SEC_FETCH_USER_VALUE: &'static str = "?1";

pub const UPGRADE_INSECURE_REQUESTS_VALUE: &'static str = "1";

pub const USER_AGENT_VALUE: &'static str =
    "Mozilla/5.0 (Windows NT 10.0; Win64; x64) AppleWebKit/537.36 (KHTML, like Gecko) Chrome/131.0.0.0 Safari/537.36";

/// One request header.
#[derive(Debug)]
pub struct Header {
    pub name: String,
    pub value: String,
}

impl View for Header {
    type V = (Seq<char>, Seq<char>);

    open spec fn view(&self) -> (Seq<char>, Seq<char>) {
        (self.name@, self.value@)
    }
}

/// The views of `headers`, in order.
pub open spec fn header_views(headers: Seq<Header>) -> Seq<(Seq<char>, Seq<char>)> {
    headers.map_values(|h: Header| h@)
}

/// The headers of the request for the home page.
pub open spec fn home_header_list() -> Seq<(Seq<char>, Seq<char>)> {
    seq![
        (ACCEPT@, ACCEPT_VALUE@),
        (ACCEPT_LANGUAGE@, ACCEPT_LANGUAGE_VALUE@),
        (CACHE_CONTROL@, CACHE_CONTROL_VALUE@),
        (DNT@, DNT_VALUE@),
        (SEC_CH_UA@, SEC_CH_UA_VALUE@),
        (SEC_CH_UA_MOBILE@, SEC_CH_UA_MOBILE_VALUE@),
        (SEC_CH_UA_PLATFORM@, SEC_CH_UA_PLATFORM_VALUE@),
        (SEC_FETCH_DEST@, SEC_FETCH_DEST_VALUE@),
        (SEC_FETCH_MODE@, SEC_FETCH_MODE_VALUE@),
        (SEC_FETCH_SITE@, SEC_FETCH_SITE_NONE@),
        (SEC_FETCH_USER@, SEC_FETCH_USER_VALUE@),
        (UPGRADE_INSECURE_REQUESTS@, UPGRADE_INSECURE_REQUESTS_VALUE@),
        (USER_AGENT@, USER_AGENT_VALUE@),
    ]
}

/// The headers of the request for a room page that are the same for every
/// request: those of a browser that comes from the home page.
pub open spec fn room_header_base() -> Seq<(Seq<char>, Seq<char>)> {
    seq![
        (ACCEPT@, ACCEPT_VALUE@),
        (ACCEPT_LANGUAGE@, ACCEPT_LANGUAGE_VALUE@),
        (CACHE_CONTROL@, CACHE_CONTROL_VALUE@),
        (DNT@, DNT_VALUE@),
        (PRIORITY@, PRIORITY_VALUE@),
        (REFERER@, HOME_URL@),
        (SEC_CH_UA@, SEC_CH_UA_VALUE@),
        (SEC_CH_UA_MOBILE@, SEC_CH_UA_MOBILE_VALUE@),
        (SEC_CH_UA_PLATFORM@, SEC_CH_UA_PLATFORM_VALUE@),
        (SEC_FETCH_DEST@, SEC_FETCH_DEST_VALUE@),
        (SEC_FETCH_MODE@, SEC_FETCH_MODE_VALUE@),
        (SEC_FETCH_SITE@, SEC_FETCH_SITE_SAME_ORIGIN@),
        (SEC_FETCH_USER@, SEC_FETCH_USER_VALUE@),
        (UPGRADE_INSECURE_REQUESTS@, UPGRADE_INSECURE_REQUESTS_VALUE@),
        (USER_AGENT@, USER_AGENT_VALUE@),
    ]
}

/// The headers of the request for a room page: the base, followed by the
/// `cookie` header where there are cookies to send.
pub open spec fn room_header_list(cookie_header: Option<Seq<char>>) -> Seq<(Seq<char>, Seq<char>)> {
    match cookie_header {
        Some(cookies) => room_header_base().push((COOKIE@, cookies)),
        None => room_header_base(),
    }
}

/// The headers of the request for the home page where only the session
/// token is looked for.
pub open spec fn token_home_header_list() -> Seq<(Seq<char>, Seq<char>)> {
    seq![
        (ACCEPT@, ACCEPT_PLAIN_VALUE@),
        (ACCEPT_LANGUAGE@, ACCEPT_LANGUAGE_PLAIN_VALUE@),
        (CACHE_CONTROL@, CACHE_CONTROL_VALUE@),
        (USER_AGENT@, USER_AGENT_VALUE@),
    ]
}

/// The headers of the request for a room page where only the session
/// token is looked for: no cookies are sent.
pub open spec fn token_room_header_list() -> Seq<(Seq<char>, Seq<char>)> {
    seq![
        (ACCEPT@, ACCEPT_PLAIN_VALUE@),
        (ACCEPT_LANGUAGE@, ACCEPT_LANGUAGE_PLAIN_VALUE@),
        (CACHE_CONTROL@, CACHE_CONTROL_VALUE@),
        (REFERER@, HOME_URL@),
        (USER_AGENT@, USER_AGENT_VALUE@),
    ]
}

/// Appends the header `name: value` to `list`.
fn put(list: &mut Vec<Header>, name: &str, value: &str)
    ensures
        header_views(final(list)@) == header_views(old(list)@).push((name@, value@)),
{
    list.push(Header { name: name.to_owned(), value: value.to_owned() });
    assert(header_views(list@) =~= header_views(old(list)@).push((name@, value@)));
}

/// The headers of the request for the home page, which is made first so
/// that the site sets the cookies that it expects with a room request.
pub fn home_headers() -> (list: Vec<Header>)
    ensures
        header_views(list@) == home_header_list(),
{
    let mut list: Vec<Header> = Vec::new();
    assert(header_views(list@) =~= Seq::empty());
    put(&mut list, ACCEPT, ACCEPT_VALUE);
    put(&mut list, ACCEPT_LANGUAGE, ACCEPT_LANGUAGE_VALUE);
    put(&mut list, CACHE_CONTROL, CACHE_CONTROL_VALUE);
    put(&mut list, DNT, DNT_VALUE);
    put(&mut list, SEC_CH_UA, SEC_CH_UA_VALUE);
    put(&mut list, SEC_CH_UA_MOBILE, SEC_CH_UA_MOBILE_VALUE);
    put(&mut list, SEC_CH_UA_PLATFORM, SEC_CH_UA_PLATFORM_VALUE);
    put(&mut list, SEC_FETCH_DEST, SEC_FETCH_DEST_VALUE);
    put(&mut list, SEC_FETCH_MODE, SEC_FETCH_MODE_VALUE);
    put(&mut list, SEC_FETCH_SITE, SEC_FETCH_SITE_NONE);
    put(&mut list, SEC_FETCH_USER, SEC_FETCH_USER_VALUE);
    put(&mut list, UPGRADE_INSECURE_REQUESTS, UPGRADE_INSECURE_REQUESTS_VALUE);
    put(&mut list, USER_AGENT, USER_AGENT_VALUE);
    assert(header_views(list@) =~= home_header_list());
    list
}

/// The headers of the request for a room page. The request names the
/// home page as its referer, and carries `cookie_header` as its `cookie`
/// header where one is given.
pub fn room_headers(cookie_header: Option<&str>) -> (list: Vec<Header>)
    ensures
        header_views(list@) == room_header_list(
            match cookie_header {
                Some(c) => Some(c@),
                None => None,
            },
        ),
        header_views(list@)[5] == (REFERER@, HOME_URL@),
        cookie_header matches Some(c) ==> header_views(list@).last() == (COOKIE@, c@),
        list@.len() == if cookie_header is Some {
            16int
        } else {
            15int
        },
{
    let mut list: Vec<Header> = Vec::new();
    assert(header_views(list@) =~= Seq::empty());
    put(&mut list, ACCEPT, ACCEPT_VALUE);
    put(&mut list, ACCEPT_LANGUAGE, ACCEPT_LANGUAGE_VALUE);
    put(&mut list, CACHE_CONTROL, CACHE_CONTROL_VALUE);
    put(&mut list, DNT, DNT_VALUE);
    put(&mut list, PRIORITY, PRIORITY_VALUE);
    put(&mut list, REFERER, HOME_URL);
    put(&mut list, SEC_CH_UA, SEC_CH_UA_VALUE);
    put(&mut list, SEC_CH_UA_MOBILE, SEC_CH_UA_MOBILE_VALUE);
    put(&mut list, SEC_CH_UA_PLATFORM, SEC_CH_UA_PLATFORM_VALUE);
    put(&mut list, SEC_FETCH_DEST, SEC_FETCH_DEST_VALUE);
    put(&mut list, SEC_FETCH_MODE, SEC_FETCH_MODE_VALUE);
    put(&mut list, SEC_FETCH_SITE, SEC_FETCH_SITE_SAME_ORIGIN);
    put(&mut list, SEC_FETCH_USER, SEC_FETCH_USER_VALUE);
    put(&mut list, UPGRADE_INSECURE_REQUESTS, UPGRADE_INSECURE_REQUESTS_VALUE);
    put(&mut list, USER_AGENT, USER_AGENT_VALUE);
    assert(header_views(list@) =~= room_header_base());
    match cookie_header {
        Some(cookies) => {
            put(&mut list, COOKIE, cookies);
        },
        None => {},
    }
    list
}

/// The headers of the request for the home page where only the session
/// token is looked for.
pub fn token_home_headers() -> (list: Vec<Header>)
    ensures
        header_views(list@) == token_home_header_list(),
{
    let mut list: Vec<Header> = Vec::new();
    assert(header_views(list@) =~= Seq::empty());
    put(&mut list, ACCEPT, ACCEPT_PLAIN_VALUE);
    put(&mut list, ACCEPT_LANGUAGE, ACCEPT_LANGUAGE_PLAIN_VALUE);
    put(&mut list, CACHE_CONTROL, CACHE_CONTROL_VALUE);
    put(&mut list, USER_AGENT, USER_AGENT_VALUE);
    assert(header_views(list@) =~= token_home_header_list());
    list
}

/// The headers of the request for a room page where only the session
/// token is looked for. The request names the home page as its referer
/// and sends no cookies.
pub fn token_room_headers() -> (list: Vec<Header>)
    ensures
        header_views(list@) == token_room_header_list(),
        header_views(list@)[3] == (REFERER@, HOME_URL@),
{
    let mut list: Vec<Header> = Vec::new();
    assert(header_views(list@) =~= Seq::empty());
    put(&mut list, ACCEPT, ACCEPT_PLAIN_VALUE);
    put(&mut list, ACCEPT_LANGUAGE, ACCEPT_LANGUAGE_PLAIN_VALUE);
    put(&mut list, CACHE_CONTROL, CACHE_CONTROL_VALUE);
    put(&mut list, REFERER, HOME_URL);
    put(&mut list, USER_AGENT, USER_AGENT_VALUE);
    assert(header_views(list@) =~= token_room_header_list());
    list
}

} // verus!
