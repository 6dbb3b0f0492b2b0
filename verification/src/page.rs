//! One HTTP attempt at a room page: what the response body asks for, and
//! what can be read out of it.
//!
//! The caller fetches; this module decides. It is handed the body of the
//! response and the cookies that came with it.

use vstd::prelude::*;
use crate::cookie_store::{last_value, CookieStore, CookieView};
use crate::credentials::HOME_URL;
use crate::headers::{
    header_views, home_header_list, home_headers, room_header_list, room_headers,
    token_home_header_list, token_home_headers, token_room_header_list, token_room_headers, Header,
};
use crate::model::{Challenge, LiveInfo, LiveInfoView, ScrapeError};
use crate::outside::{first_group, regex_first_group, string_of};
use crate::text::{chars_of, contains_text, find_text, opt_view, unescape, unescape_quotes};

verus! {

/// Title of the intermediate page that stands before a captcha.
pub const CAPTCHA_PAGE_MARKER: &'static str = "\u{9a8c}\u{8bc1}\u{7801}\u{4e2d}\u{95f4}\u{9875}";

/// Script hook of the intermediate page that stands before a captcha.
pub const CAPTCHA_LOADING_MARKER: &'static str = "middle_page_loading";

/// Any mention of a captcha.
pub const CAPTCHA_MARKER: &'static str = "captcha";

/// The site's refusal.
pub const DENIED_MARKER: &'static str = "Access Denied";

/// The site's internal error header, shown in place of a page.
pub const SYSTEM_ERROR_MARKER: &'static str = "X-TT-System-Error";

/// Status 4 in the embedded room data: the stream has ended.
pub const ENDED_MARKER: &'static str = r#"status\":4"#;

/// The cookie that carries the site's session token.
pub const TTWID_COOKIE: &'static str = "ttwid";

/// The room data of a running stream, as it is embedded in the page.
pub const ROOM_PATTERN: &'static str = r#"roomInfo\\":\{\\"room\\":(.*?),\\"toolbar_data"#;

/// What is left of the room data once the stream has ended: the anchor.
pub const ANCHOR_PATTERN: &'static str = r#"anchor\\":(.*?),\\"open_id_str"#;

/// The broadcaster's id in escaped JSON, closed by a brace.
pub const UNIQUE_ID_STRICT: &'static str = r#"user_unique_id\\":\\"(.*?)\\"}"#;

/// The broadcaster's id between plain quotes.
pub const UNIQUE_ID_QUOTED: &'static str = r#"user_unique_id":"([^"]+)"#;

/// The broadcaster's id in escaped JSON, up to the next backslash.
pub const UNIQUE_ID_LOOSE: &'static str = r#"user_unique_id\\":\\"([^\\]+)\\"#;

/// The broadcaster's id as a member of plain JSON.
pub const UNIQUE_ID_JSON: &'static str = r#""user_unique_id":"([^"]+)""#;

/// Whether `body` shows one of the captcha markers.
pub open spec fn has_captcha_marker(body: Seq<char>) -> bool {
    ||| contains_text(body, CAPTCHA_PAGE_MARKER@)
    ||| contains_text(body, CAPTCHA_LOADING_MARKER@)
    ||| contains_text(body, CAPTCHA_MARKER@)
}

/// Whether `body` shows one of the denial markers.
pub open spec fn has_denial_marker(body: Seq<char>) -> bool {
    ||| contains_text(body, DENIED_MARKER@)
    ||| contains_text(body, SYSTEM_ERROR_MARKER@)
}

/// What `body` asks for. A captcha marker outranks a denial marker.
pub open spec fn challenge_of(body: Seq<char>) -> Challenge {
    if has_captcha_marker(body) {
        Challenge::NeedsCaptcha
    } else if has_denial_marker(body) {
        Challenge::NeedsLogin
    } else {
        Challenge::Clear
    }
}

/// Whether `body` says that the stream has ended.
pub open spec fn stream_ended(body: Seq<char>) -> bool {
    contains_text(body, ENDED_MARKER@)
}

/// The pattern that finds the room data in `body`: the anchor alone once
/// the stream has ended, the whole room otherwise.
pub open spec fn room_pattern_for(body: Seq<char>) -> Seq<char> {
    if stream_ended(body) {
        ANCHOR_PATTERN@
    } else {
        ROOM_PATTERN@
    }
}

/// The patterns for the broadcaster's id, in the order in which they are
/// tried.
pub open spec fn unique_id_patterns() -> Seq<Seq<char>> {
    seq![UNIQUE_ID_STRICT@, UNIQUE_ID_QUOTED@, UNIQUE_ID_LOOSE@, UNIQUE_ID_JSON@]
}

/// What the first of `patterns` that captures anything in `body` captures.
pub open spec fn first_capture(patterns: Seq<Seq<char>>, body: Seq<char>) -> Option<Seq<char>>
    decreases patterns.len(),
{
    if patterns.len() == 0 {
        None
    } else {
        match regex_first_group(patterns.first(), body) {
            Some(found) => Some(found),
            None => first_capture(patterns.drop_first(), body),
        }
    }
}

/// The broadcaster's id that `body` shows: none once the stream has ended.
pub open spec fn unique_id_capture(body: Seq<char>) -> Option<Seq<char>> {
    if stream_ended(body) {
        None
    } else {
        first_capture(unique_id_patterns(), body)
    }
}

/// The room data as JSON text: the captured fragment, closed with a brace
/// and with one layer of quote escaping taken off.
pub open spec fn payload_of(fragment: Seq<char>) -> Seq<char> {
    unescape_quotes(fragment + seq!['}'])
}

/// The result of an attempt whose body passed the challenge check, from
/// what the patterns captured and the token that came with the response.
pub open spec fn assembled(
    fragment: Option<Seq<char>>,
    unique_id: Option<Seq<char>>,
    ttwid: Seq<char>,
) -> Result<LiveInfoView, ScrapeError> {
    match fragment {
        Some(f) => Ok(
            LiveInfoView {
                room_info: payload_of(f),
                ttwid,
                unique_id: match unique_id {
                    Some(id) => id,
                    None => Seq::empty(),
                },
            },
        ),
        None => Err(ScrapeError::BlockedNeedsLogin),
    }
}

/// The whole decision on one response. A body with a captcha marker is a
/// captcha block, one with a denial marker a login block. Any other body
/// yields the room data that its pattern captures; where the pattern
/// captures nothing, the body counts as a login block.
pub open spec fn attempt_outcome(body: Seq<char>, cookies: Seq<CookieView>) -> Result<
    LiveInfoView,
    ScrapeError,
> {
    match challenge_of(body) {
        Challenge::NeedsCaptcha => Err(ScrapeError::BlockedNeedsCaptcha),
        Challenge::NeedsLogin => Err(ScrapeError::BlockedNeedsLogin),
        Challenge::Clear => assembled(
            regex_first_group(room_pattern_for(body), body),
            unique_id_capture(body),
            last_value(cookies, TTWID_COOKIE@),
        ),
    }
}

/// Once the stream has ended, a page that shows no marker is read with
/// the anchor pattern alone: what that pattern captures gives the room
/// data, which is not empty, and no id is looked for. Where the pattern
/// captures nothing, the page counts as a login wall.
pub proof fn law_ended_stream(body: Seq<char>, cookies: Seq<CookieView>)
    requires
        stream_ended(body),
        challenge_of(body) == Challenge::Clear,
    ensures
        room_pattern_for(body) == ANCHOR_PATTERN@,
        match regex_first_group(ANCHOR_PATTERN@, body) {
            Some(fragment) => attempt_outcome(body, cookies) == Ok::<LiveInfoView, ScrapeError>(
                LiveInfoView {
                    room_info: payload_of(fragment),
                    ttwid: last_value(cookies, TTWID_COOKIE@),
                    unique_id: Seq::empty(),
                },
            ) && payload_of(fragment).len() > 0,
            None => attempt_outcome(body, cookies) == Err::<LiveInfoView, ScrapeError>(
                ScrapeError::BlockedNeedsLogin,
            ),
        },
{
}

/// A result that an attempt yields holds room data: closing the fragment
/// with a brace leaves a text that unescaping cannot empty.
pub proof fn law_success_holds_room_data(body: Seq<char>, cookies: Seq<CookieView>)
    ensures
        attempt_outcome(body, cookies) matches Ok(info) ==> info.room_info.len() > 0,
{
}

/// The view of a result.
pub open spec fn outcome_view(r: Result<LiveInfo, ScrapeError>) -> Result<LiveInfoView, ScrapeError> {
    match r {
        Ok(info) => Ok(info@),
        Err(e) => Err(e),
    }
}

/// Whether `marker` stands in `body`.
fn shows(body: &Vec<char>, marker: &str) -> (b: bool)
    ensures
        b == contains_text(body@, marker@),
{
    let needle = chars_of(marker);
    find_text(body, &needle).is_some()
}

/// What `body` asks for.
fn challenge_in(body: &Vec<char>) -> (c: Challenge)
    ensures
        c == challenge_of(body@),
{
    if shows(body, CAPTCHA_PAGE_MARKER) || shows(body, CAPTCHA_LOADING_MARKER) || shows(
        body,
        CAPTCHA_MARKER,
    ) {
        Challenge::NeedsCaptcha
    } else if shows(body, DENIED_MARKER) || shows(body, SYSTEM_ERROR_MARKER) {
        Challenge::NeedsLogin
    } else {
        Challenge::Clear
    }
}

/// What the response body asks of the user: a captcha where it shows a
/// captcha marker, a login where it shows a denial marker and no captcha
/// marker, nothing otherwise.
pub fn classify(body: &str) -> (c: Challenge)
    ensures
        c == challenge_of(body@),
{
    let chars = chars_of(body);
    challenge_in(&chars)
}

/// The patterns for the broadcaster's id, in the order in which they are
/// tried.
pub fn unique_id_pattern_list() -> (list: Vec<&'static str>)
    ensures
        list@.map_values(|p: &'static str| p@) == unique_id_patterns(),
{
    let mut list: Vec<&'static str> = Vec::new();
    list.push(UNIQUE_ID_STRICT);
    list.push(UNIQUE_ID_QUOTED);
    list.push(UNIQUE_ID_LOOSE);
    list.push(UNIQUE_ID_JSON);
    assert(list@.map_values(|p: &'static str| p@) =~= unique_id_patterns());
    list
}

/// Tries `patterns` on `body` in order and returns what the first one that
/// captures anything captures.
pub fn capture_first(patterns: &Vec<&'static str>, body: &str) -> (found: Option<String>)
    ensures
        opt_view(found) == first_capture(patterns@.map_values(|p: &'static str| p@), body@),
{
    let ghost all = patterns@.map_values(|p: &'static str| p@);
    let mut i: usize = 0;
    assert(all.skip(0) =~= all);
    while i < patterns.len()
        invariant
            i <= patterns.len(),
            all == patterns@.map_values(|p: &'static str| p@),
            first_capture(all, body@) == first_capture(all.skip(i as int), body@),
        decreases patterns.len() - i,
    {
        let ghost rest = all.skip(i as int);
        assert(rest.first() == patterns@[i as int]@);
        let found = first_group(patterns[i], body);
        if found.is_some() {
            return found;
        }
        assert(rest.drop_first() =~= all.skip(i + 1));
        i = i + 1;
    }
    None
}

/// Builds the result of an attempt from what the patterns captured in a
/// body that passed the challenge check. `fragment` is what the room
/// pattern captured, `unique_id` what the first id pattern that matched
/// captured, `ttwid` the token that came with the response.
///
/// Without a fragment the attempt counts as blocked by a login wall. With
/// one, the room data is the fragment closed with `}` and with every `\"`
/// turned into `"`; it is never empty.
pub fn assemble(fragment: Option<String>, unique_id: Option<String>, ttwid: String) -> (r: Result<
    LiveInfo,
    ScrapeError,
>)
    ensures
        outcome_view(r) == assembled(opt_view(fragment), opt_view(unique_id), ttwid@),
        r matches Ok(info) ==> info.room_info@.len() > 0,
{
    match fragment {
        Some(f) => {
            let mut raw = chars_of(f.as_str());
            raw.push('}');
            assert(raw@ =~= f@ + seq!['}']);
            let room_info = string_of(&unescape(&raw));
            let unique_id = match unique_id {
                Some(id) => id,
                None => String::new(),
            };
            Ok(LiveInfo { room_info, ttwid, unique_id })
        },
        None => Err(ScrapeError::BlockedNeedsLogin),
    }
}

/// Reads one response: classifies the body and, where nothing stands in the
/// way, extracts the room data, the broadcaster's id and the `ttwid` token
/// among `cookies`, the cookies that the response set.
pub fn read_response(body: &str, cookies: &CookieStore) -> (r: Result<LiveInfo, ScrapeError>)
    ensures
        outcome_view(r) == attempt_outcome(body@, cookies@),
        r matches Ok(info) ==> info.room_info@.len() > 0,
{
    let chars = chars_of(body);
    match challenge_in(&chars) {
        Challenge::NeedsCaptcha => Err(ScrapeError::BlockedNeedsCaptcha),
        Challenge::NeedsLogin => Err(ScrapeError::BlockedNeedsLogin),
        Challenge::Clear => {
            let ttwid = cookies.last_value(TTWID_COOKIE);
            if shows(&chars, ENDED_MARKER) {
                assemble(first_group(ANCHOR_PATTERN, body), None, ttwid)
            } else {
                let unique_id = capture_first(&unique_id_pattern_list(), body);
                assemble(first_group(ROOM_PATTERN, body), unique_id, ttwid)
            }
        },
    }
}

/// The pause before the first request of an attempt, in milliseconds.
pub const WARM_UP_PAUSE_MILLIS: u64 = 1000;

/// One request of an HTTP attempt.
#[derive(Debug)]
pub struct PlannedRequest {
    /// The address to GET.
    pub url: String,
    /// The headers to send.
    pub headers: Vec<Header>,
    /// Whether the attempt fails when this request does.
    pub required: bool,
}

/// A `PlannedRequest` as the contracts see it.
pub struct PlannedRequestView {
    pub url: Seq<char>,
    pub headers: Seq<(Seq<char>, Seq<char>)>,
    pub required: bool,
}

impl View for PlannedRequest {
    type V = PlannedRequestView;

    open spec fn view(&self) -> PlannedRequestView {
        PlannedRequestView {
            url: self.url@,
            headers: header_views(self.headers@),
            required: self.required,
        }
    }
}

/// The requests of one attempt at the room at `room_url`: the home page
/// first, whose failure does not matter, then the room page, with the
/// cookies where there are any.
pub open spec fn attempt_plan(room_url: Seq<char>, cookie_header: Option<Seq<char>>) -> Seq<
    PlannedRequestView,
> {
    seq![
        PlannedRequestView { url: HOME_URL@, headers: home_header_list(), required: false },
        PlannedRequestView {
            url: room_url,
            headers: room_header_list(cookie_header),
            required: true,
        },
    ]
}

/// The requests that look for the session token of the room at
/// `room_url`, ahead of reading the room from the rendered page: the home
/// page first, whose failure does not matter, then the room page, without
/// cookies.
pub open spec fn token_plan(room_url: Seq<char>) -> Seq<PlannedRequestView> {
    seq![
        PlannedRequestView { url: HOME_URL@, headers: token_home_header_list(), required: false },
        PlannedRequestView { url: room_url, headers: token_room_header_list(), required: true },
    ]
}

/// A scrape session for one room.
pub struct DouYinReq {
    room_url: String,
    room_info: String,
}

/// A session as the contracts see it.
pub struct DouYinReqView {
    /// The address of the room.
    pub room_url: Seq<char>,
    /// The room data that the last successful attempt read.
    pub room_info: Seq<char>,
}

impl View for DouYinReq {
    type V = DouYinReqView;

    closed spec fn view(&self) -> DouYinReqView {
        DouYinReqView { room_url: self.room_url@, room_info: self.room_info@ }
    }
}

impl DouYinReq {
    /// A session for the room at `url`, with no room data yet.
    pub fn new(url: &str) -> (req: DouYinReq)
        ensures
            req@.room_url == url@,
            req@.room_info == Seq::<char>::empty(),
    {
        DouYinReq { room_url: url.to_owned(), room_info: String::new() }
    }

    /// The address of the room.
    pub fn room_url(&self) -> (url: &str)
        ensures
            url@ == self@.room_url,
    {
        self.room_url.as_str()
    }

    /// The room data that the last successful attempt read; empty before
    /// the first.
    pub fn room_info(&self) -> (info: &str)
        ensures
            info@ == self@.room_info,
    {
        self.room_info.as_str()
    }

    /// The requests of one attempt, in the order in which they are made:
    /// the home page, so that the site sets the cookies that it expects
    /// with a room request, then the room page with `cookie_header` as
    /// its `cookie` header where one is given. Only the second has to
    /// succeed.
    pub fn plan(&self, cookie_header: Option<&str>) -> (requests: Vec<PlannedRequest>)
        ensures
            requests@.map_values(|r: PlannedRequest| r@) == attempt_plan(
                self@.room_url,
                match cookie_header {
                    Some(c) => Some(c@),
                    None => None,
                },
            ),
    {
        let mut requests: Vec<PlannedRequest> = Vec::new();
        requests.push(
            PlannedRequest { url: HOME_URL.to_owned(), headers: home_headers(), required: false },
        );
        requests.push(
            PlannedRequest {
                url: self.room_url.clone(),
                headers: room_headers(cookie_header),
                required: true,
            },
        );
        assert(requests@.map_values(|r: PlannedRequest| r@) =~= attempt_plan(
            self@.room_url,
            match cookie_header {
                Some(c) => Some(c@),
                None => None,
            },
        ));
        requests
    }

    /// The requests that look for the session token only, in the order
    /// in which they are made: the home page, then the room page. The
    /// cookies that the second sets are what is wanted; its body is not
    /// read.
    pub fn token_plan(&self) -> (requests: Vec<PlannedRequest>)
        ensures
            requests@.map_values(|r: PlannedRequest| r@) == token_plan(self@.room_url),
    {
        let mut requests: Vec<PlannedRequest> = Vec::new();
        requests.push(
            PlannedRequest {
                url: HOME_URL.to_owned(),
                headers: token_home_headers(),
                required: false,
            },
        );
        requests.push(
            PlannedRequest {
                url: self.room_url.clone(),
                headers: token_room_headers(),
                required: true,
            },
        );
        assert(requests@.map_values(|r: PlannedRequest| r@) =~= token_plan(self@.room_url));
        requests
    }

    /// Decides on the response to the request for the room page: `body`
    /// is its text, `cookies` are the cookies that it set. A successful
    /// attempt leaves its room data in the session; a failed one leaves
    /// the session as it was.
    pub fn get_room_info(&mut self, body: &str, cookies: &CookieStore) -> (r: Result<
        LiveInfo,
        ScrapeError,
    >)
        ensures
            outcome_view(r) == attempt_outcome(body@, cookies@),
            final(self)@.room_url == old(self)@.room_url,
            match r {
                Ok(info) => final(self)@.room_info == info.room_info@ && info.room_info@.len() > 0,
                Err(_) => final(self)@.room_info == old(self)@.room_info,
            },
    {
        let r = read_response(body, cookies);
        match &r {
            Ok(info) => {
                self.room_info = info.room_info.clone();
            },
            Err(_) => {},
        }
        r
    }
}

} // verus!
