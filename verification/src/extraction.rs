//! Reading a room from the rendered page: the wait on the surface that
//! renders it, and the judgement on what the surface reports.

use vstd::prelude::*;
use crate::bridge::{after_look, ended, finish, in_time, look_again, report_after, Watch};
use crate::cookie_store::{first_value, CookieStore, CookieView};
use crate::credentials::{JarLoad, JarLoadView};
use crate::model::{LiveInfo, LiveInfoView};
use crate::outside::{json_document, parse_json, percent_decode, percent_decoded, string_member};
use crate::page::TTWID_COOKIE;
use crate::text::{longer_than, opt_view, text_after, utf8_len};

verus! {

/// What precedes the page data in the address of the rendering surface.
pub const DATA_REPORT_MARKER: &'static str = "#__LIVE_DATA__=";

/// What precedes an error report in the address of the rendering surface.
pub const ERROR_REPORT_MARKER: &'static str = "#__LIVE_ERROR__=";

/// How often the rendering surface is looked at before the wait times out.
pub const EXTRACTION_MAX_CHECKS: u32 = 120;

/// The pause before each look at the rendering surface, in milliseconds.
pub const EXTRACTION_POLL_MILLIS: u64 = 500;

/// Room data of more bytes than this counts as complete without an id.
pub const LARGE_ROOM_DATA: usize = 100;

/// The member of a report that holds the room's title.
pub const TITLE_KEY: &'static str = "title";

/// The member of a report that holds the broadcaster's id.
pub const UNIQUE_ID_KEY: &'static str = "user_unique_id";

/// The member of a report that holds the room data.
pub const ROOM_STORE_KEY: &'static str = "room_store";

/// The member of a report that holds the session token.
pub const TTWID_KEY: &'static str = "ttwid";

/// The member of an error report that holds its message.
pub const MESSAGE_KEY: &'static str = "message";

/// The message of an error report that carries none: "unknown error".
pub const UNKNOWN_ERROR: &'static str = "\u{672a}\u{77e5}\u{9519}\u{8bef}";

/// What was wrong with what the surface sent.
#[derive(Debug, Clone, Copy, PartialEq, Eq, Structural)]
pub enum Rejection {
    /// The page data is no JSON.
    Malformed,
    /// The surface itself reported an error.
    Reported,
}

/// Why the rendered page gave no room.
#[derive(Debug)]
pub enum ExtractionError {
    /// Nothing usable came within the time allowed.
    TimedOut,
    /// The surface was closed by the user.
    UserCancelled,
    /// The surface sent data that is no JSON, and `message` is the
    /// parser's; or it reported an error, and `message` is its own.
    ValidationFailed { cause: Rejection, message: String },
}

/// An `ExtractionError` as the contracts see it.
pub enum ExtractionErrorView {
    TimedOut,
    UserCancelled,
    ValidationFailed { cause: Rejection, message: Seq<char> },
}

impl View for ExtractionError {
    type V = ExtractionErrorView;

    open spec fn view(&self) -> ExtractionErrorView {
        match self {
            ExtractionError::TimedOut => ExtractionErrorView::TimedOut,
            ExtractionError::UserCancelled => ExtractionErrorView::UserCancelled,
            ExtractionError::ValidationFailed { cause, message } => {
                ExtractionErrorView::ValidationFailed { cause: *cause, message: message@ }
            },
        }
    }
}

/// What the caller does after a look at the rendering surface.
#[derive(Debug)]
pub enum ExtractionStep {
    /// Pause, then look again.
    KeepWaiting,
    /// The wait is over. Close the surface where `close_surface` says so,
    /// then hand on `outcome`.
    Finished { outcome: Result<LiveInfo, ExtractionError>, close_surface: bool },
    /// The wait was over before this look: do nothing.
    Over,
}

/// An `ExtractionStep` as the contracts see it.
pub enum ExtractionStepView {
    KeepWaiting,
    Finished { outcome: Result<LiveInfoView, ExtractionErrorView>, close_surface: bool },
    Over,
}

impl View for ExtractionStep {
    type V = ExtractionStepView;

    open spec fn view(&self) -> ExtractionStepView {
        match self {
            ExtractionStep::KeepWaiting => ExtractionStepView::KeepWaiting,
            ExtractionStep::Finished { outcome, close_surface } => ExtractionStepView::Finished {
                outcome: match outcome {
                    Ok(info) => Ok(info@),
                    Err(e) => Err(e@),
                },
                close_surface: *close_surface,
            },
            ExtractionStep::Over => ExtractionStepView::Over,
        }
    }
}

/// The member of `members` under `key`, if there is one.
pub open spec fn lookup(members: Map<Seq<char>, Seq<char>>, key: Seq<char>) -> Option<Seq<char>> {
    if members.contains_key(key) {
        Some(members[key])
    } else {
        None
    }
}

/// `found`, or `fallback` in its absence.
pub open spec fn or_text(found: Option<Seq<char>>, fallback: Seq<char>) -> Seq<char> {
    match found {
        Some(text) => text,
        None => fallback,
    }
}

/// The view of a room that may be absent.
pub open spec fn room_view(room: Option<LiveInfo>) -> Option<LiveInfoView> {
    match room {
        Some(info) => Some(info@),
        None => None,
    }
}

/// Whether a report describes a room well enough to be taken: it has a
/// title and room data, and either the broadcaster's id or room data of
/// some size. A report without room data is never complete.
pub open spec fn is_complete(title: Seq<char>, unique_id: Seq<char>, room_info: Seq<char>) -> bool {
    title.len() > 0 && room_info.len() > 0 && (unique_id.len() > 0 || utf8_len(room_info)
        > LARGE_ROOM_DATA)
}

/// The room that a report describes, where the report is complete.
///
/// `decoded` is the report's text, which stands in for the room data
/// where the report has no member for it. A token that came over HTTP
/// outranks the one that the page reports.
pub open spec fn accepted(
    decoded: Seq<char>,
    title: Option<Seq<char>>,
    unique_id: Option<Seq<char>>,
    room_store: Option<Seq<char>>,
    page_ttwid: Option<Seq<char>>,
    http_ttwid: Seq<char>,
) -> Option<LiveInfoView> {
    let room_info = or_text(room_store, decoded);
    let id = or_text(unique_id, Seq::empty());
    if is_complete(or_text(title, Seq::empty()), id, room_info) {
        Some(
            LiveInfoView {
                room_info,
                ttwid: if http_ttwid.len() > 0 {
                    http_ttwid
                } else {
                    or_text(page_ttwid, Seq::empty())
                },
                unique_id: id,
            },
        )
    } else {
        None
    }
}

/// The failure that an error report stands for.
pub open spec fn reported(message: Option<Seq<char>>) -> ExtractionErrorView {
    ExtractionErrorView::ValidationFailed {
        cause: Rejection::Reported,
        message: or_text(message, UNKNOWN_ERROR@),
    }
}

/// What page data, decoded, comes to: a room where it is JSON and
/// complete, a failure with the parser's message where it is no JSON, and
/// nothing yet where it is JSON but incomplete.
pub open spec fn data_verdict(
    decoded: Seq<char>,
    members: Result<Map<Seq<char>, Seq<char>>, Seq<char>>,
    http_ttwid: Seq<char>,
) -> Option<Result<LiveInfoView, ExtractionErrorView>> {
    match members {
        Ok(m) => match accepted(
            decoded,
            lookup(m, TITLE_KEY@),
            lookup(m, UNIQUE_ID_KEY@),
            lookup(m, ROOM_STORE_KEY@),
            lookup(m, TTWID_KEY@),
            http_ttwid,
        ) {
            Some(info) => Some(Ok(info)),
            None => None,
        },
        Err(message) => Some(
            Err(ExtractionErrorView::ValidationFailed { cause: Rejection::Malformed, message }),
        ),
    }
}

/// What the page data in `url` comes to, if `url` holds any that decodes.
pub open spec fn data_report(url: Seq<char>, http_ttwid: Seq<char>) -> Option<
    Result<LiveInfoView, ExtractionErrorView>,
> {
    match text_after(url, DATA_REPORT_MARKER@) {
        Some(raw) => match percent_decoded(raw) {
            Some(decoded) => data_verdict(decoded, json_document(decoded), http_ttwid),
            None => None,
        },
        None => None,
    }
}

/// The failure that `url` reports, if it holds an error report that
/// decodes to JSON.
pub open spec fn error_report(url: Seq<char>) -> Option<ExtractionErrorView> {
    match text_after(url, ERROR_REPORT_MARKER@) {
        Some(raw) => match percent_decoded(raw) {
            Some(decoded) => match json_document(decoded) {
                Ok(m) => Some(reported(lookup(m, MESSAGE_KEY@))),
                Err(_) => None,
            },
            None => None,
        },
        None => None,
    }
}

/// What `url` settles: page data is read first; where it settles nothing,
/// an error report is.
pub open spec fn page_report(url: Seq<char>, http_ttwid: Seq<char>) -> Option<
    Result<LiveInfoView, ExtractionErrorView>,
> {
    match data_report(url, http_ttwid) {
        Some(outcome) => Some(outcome),
        None => match error_report(url) {
            Some(e) => Some(Err(e)),
            None => None,
        },
    }
}

/// One look at the rendering surface, whose address is `url`.
///
/// A wait that is over stays over. Otherwise, an address that settles
/// the matter ends the wait. Any other address lets the wait go on, also
/// where it holds data that is incomplete, unless this was the last look
/// allowed: then the wait times out. Whenever a look ends the wait, the
/// surface is to be closed.
pub open spec fn extraction_look(w: Watch, http_ttwid: Seq<char>, url: Seq<char>) -> (
    Watch,
    ExtractionStepView,
) {
    if !w.open {
        (w, ExtractionStepView::Over)
    } else {
        match page_report(url, http_ttwid) {
            Some(outcome) => (
                ended(w, EXTRACTION_MAX_CHECKS),
                ExtractionStepView::Finished { outcome, close_surface: true },
            ),
            None => {
                let next = after_look(w, EXTRACTION_MAX_CHECKS);
                if next.open {
                    (next, ExtractionStepView::KeepWaiting)
                } else {
                    (
                        next,
                        ExtractionStepView::Finished {
                            outcome: Err(ExtractionErrorView::TimedOut),
                            close_surface: true,
                        },
                    )
                }
            },
        }
    }
}

/// The surface went away by itself: the wait, if it is on, ends as
/// cancelled by the user, and there is nothing left to close.
pub open spec fn extraction_gone(w: Watch) -> (Watch, ExtractionStepView) {
    if !w.open {
        (w, ExtractionStepView::Over)
    } else {
        (
            Watch { checks: w.checks, open: false },
            ExtractionStepView::Finished {
                outcome: Err(ExtractionErrorView::UserCancelled),
                close_surface: false,
            },
        )
    }
}

/// The token to go with a rendered page: the first `ttwid` among the
/// cookies that the HTTP response set, if it is not empty; else the first
/// `ttwid` of the stored jar; else none.
pub open spec fn prefetched(response: Option<Seq<CookieView>>, stored: JarLoadView) -> Seq<char> {
    let fresh = match response {
        Some(jar) => first_value(jar, TTWID_COOKIE@),
        None => Seq::empty(),
    };
    if fresh.len() > 0 {
        fresh
    } else {
        match stored {
            JarLoadView::Found(jar) => first_value(jar, TTWID_COOKIE@),
            _ => Seq::empty(),
        }
    }
}

/// Picks the token to go with a rendered page. `response` holds the
/// cookies that the HTTP request for the page set, if that request got an
/// answer; `stored` is what was found where the jar is kept.
pub fn prefetched_ttwid(response: Option<&CookieStore>, stored: &JarLoad) -> (ttwid: String)
    ensures
        ttwid@ == prefetched(
            match response {
                Some(jar) => Some(jar@),
                None => None,
            },
            stored@,
        ),
{
    let fresh = match response {
        Some(jar) => jar.first_value(TTWID_COOKIE),
        None => String::new(),
    };
    if !fresh.as_str().is_empty() {
        fresh
    } else {
        match stored {
            JarLoad::Found(jar) => jar.first_value(TTWID_COOKIE),
            _ => String::new(),
        }
    }
}

/// `found`, or a copy of `fallback` in its absence.
fn or_owned(found: Option<String>, fallback: &str) -> (text: String)
    ensures
        text@ == or_text(opt_view(found), fallback@),
{
    match found {
        Some(text) => text,
        None => fallback.to_owned(),
    }
}

/// `found`, or the empty string in its absence.
fn or_empty(found: Option<String>) -> (text: String)
    ensures
        text@ == or_text(opt_view(found), Seq::empty()),
{
    match found {
        Some(text) => text,
        None => String::new(),
    }
}

/// Judges a report of the rendered page. `decoded` is the report's text;
/// `title`, `unique_id`, `room_store` and `page_ttwid` are its members of
/// those names, where it has them; `http_ttwid` is the token that came
/// over HTTP, empty if none did.
///
/// A complete report gives the room, whose room data is never empty; an
/// incomplete one gives nothing, and the wait goes on.
pub fn judge_report(
    decoded: &str,
    title: Option<String>,
    unique_id: Option<String>,
    room_store: Option<String>,
    page_ttwid: Option<String>,
    http_ttwid: &str,
) -> (room: Option<LiveInfo>)
    ensures
        room_view(room) == accepted(
            decoded@,
            opt_view(title),
            opt_view(unique_id),
            opt_view(room_store),
            opt_view(page_ttwid),
            http_ttwid@,
        ),
        room matches Some(info) ==> info.room_info@.len() > 0,
{
    let title = or_empty(title);
    let unique_id = or_empty(unique_id);
    let room_info = or_owned(room_store, decoded);
    let complete = !title.as_str().is_empty() && !room_info.as_str().is_empty() && (
    !unique_id.as_str().is_empty() || longer_than(room_info.as_str(), LARGE_ROOM_DATA));
    if complete {
        let ttwid = if !http_ttwid.is_empty() {
            http_ttwid.to_owned()
        } else {
            or_empty(page_ttwid)
        };
        Some(LiveInfo { room_info, ttwid, unique_id })
    } else {
        None
    }
}

impl ExtractionError {
    /// The failure that an error report stands for, given the message
    /// that the report carries, if any.
    pub fn from_report(message: Option<String>) -> (e: ExtractionError)
        ensures
            e@ == reported(opt_view(message)),
    {
        ExtractionError::ValidationFailed {
            cause: Rejection::Reported,
            message: or_owned(message, UNKNOWN_ERROR),
        }
    }
}

/// The wait for the rendered page to report a room.
pub struct ExtractionWatch {
    watch: Watch,
    ttwid: String,
}

/// An `ExtractionWatch` as the contracts see it.
pub struct ExtractionWatchView {
    /// The wait itself.
    pub watch: Watch,
    /// The token that came over HTTP, empty if none did.
    pub ttwid: Seq<char>,
}

impl View for ExtractionWatch {
    type V = ExtractionWatchView;

    closed spec fn view(&self) -> ExtractionWatchView {
        ExtractionWatchView { watch: self.watch, ttwid: self.ttwid@ }
    }
}

impl ExtractionWatch {
    /// A wait that has just begun, with the token that came over HTTP
    /// (empty if none did).
    pub fn new(http_ttwid: String) -> (w: ExtractionWatch)
        ensures
            w@.watch == (Watch { checks: 0, open: true }),
            w@.ttwid == http_ttwid@,
    {
        ExtractionWatch { watch: Watch { checks: 0, open: true }, ttwid: http_ttwid }
    }

    /// Whether the wait is still on.
    pub fn is_pending(&self) -> (pending: bool)
        ensures
            pending == self@.watch.open,
    {
        self.watch.open
    }

    /// How often the surface was looked at.
    pub fn checks(&self) -> (n: u32)
        ensures
            n == self@.watch.checks,
    {
        self.watch.checks
    }

    /// What the page data in `url` comes to.
    fn read_data(&self, url: &str) -> (verdict: Option<Result<LiveInfo, ExtractionError>>)
        ensures
            verdict is Some == data_report(url@, self@.ttwid) is Some,
            verdict matches Some(Ok(info)) ==> data_report(url@, self@.ttwid) == Some(
                Ok::<LiveInfoView, ExtractionErrorView>(info@),
            ),
            verdict matches Some(Err(e)) ==> data_report(url@, self@.ttwid) == Some(
                Err::<LiveInfoView, ExtractionErrorView>(e@),
            ),
    {
        let raw = match report_after(url, DATA_REPORT_MARKER) {
            Some(raw) => raw,
            None => { return None; },
        };
        let decoded = match percent_decode(raw.as_str()) {
            Some(decoded) => decoded,
            None => { return None; },
        };
        match parse_json(decoded.as_str()) {
            Ok(doc) => {
                let room = judge_report(
                    decoded.as_str(),
                    string_member(&doc, TITLE_KEY),
                    string_member(&doc, UNIQUE_ID_KEY),
                    string_member(&doc, ROOM_STORE_KEY),
                    string_member(&doc, TTWID_KEY),
                    self.ttwid.as_str(),
                );
                match room {
                    Some(info) => Some(Ok(info)),
                    None => None,
                }
            },
            Err(message) => Some(
                Err(ExtractionError::ValidationFailed { cause: Rejection::Malformed, message }),
            ),
        }
    }

    /// Takes one look at the surface, whose address is `url`, and says
    /// what to do next.
    pub fn observe(&mut self, url: &str) -> (step: ExtractionStep)
        ensures
            (final(self)@.watch, step@) == extraction_look(
                old(self)@.watch,
                old(self)@.ttwid,
                url@,
            ),
            final(self)@.ttwid == old(self)@.ttwid,
            step matches ExtractionStep::Finished { outcome: Ok(info), .. } ==> info.room_info@.len()
                > 0,
    {
        if !self.watch.open {
            return ExtractionStep::Over;
        }
        match self.read_data(url) {
            Some(outcome) => {
                self.watch = finish(&self.watch, EXTRACTION_MAX_CHECKS);
                return ExtractionStep::Finished { outcome, close_surface: true };
            },
            None => {},
        }
        match read_error(url) {
            Some(e) => {
                self.watch = finish(&self.watch, EXTRACTION_MAX_CHECKS);
                return ExtractionStep::Finished { outcome: Err(e), close_surface: true };
            },
            None => {},
        }
        self.watch = look_again(&self.watch, EXTRACTION_MAX_CHECKS);
        if self.watch.open {
            ExtractionStep::KeepWaiting
        } else {
            ExtractionStep::Finished { outcome: Err(ExtractionError::TimedOut), close_surface: true }
        }
    }

    /// Takes note that the surface went away by itself.
    pub fn surface_closed(&mut self) -> (step: ExtractionStep)
        ensures
            (final(self)@.watch, step@) == extraction_gone(old(self)@.watch),
            final(self)@.ttwid == old(self)@.ttwid,
    {
        if !self.watch.open {
            return ExtractionStep::Over;
        }
        self.watch.open = false;
        ExtractionStep::Finished { outcome: Err(ExtractionError::UserCancelled), close_surface: false }
    }
}

/// The failure that `url` reports.
fn read_error(url: &str) -> (failure: Option<ExtractionError>)
    ensures
        failure is Some == error_report(url@) is Some,
        failure matches Some(e) ==> error_report(url@) == Some(e@),
{
    let raw = match report_after(url, ERROR_REPORT_MARKER) {
        Some(raw) => raw,
        None => { return None; },
    };
    let decoded = match percent_decode(raw.as_str()) {
        Some(decoded) => decoded,
        None => { return None; },
    };
    match parse_json(decoded.as_str()) {
        Ok(doc) => Some(ExtractionError::from_report(string_member(&doc, MESSAGE_KEY))),
        Err(_) => None,
    }
}

/// The wait after a run of looks at the rendering surface, and the steps
/// that answered them, in order.
pub open spec fn extraction_run(w: Watch, http_ttwid: Seq<char>, urls: Seq<Seq<char>>) -> (
    Watch,
    Seq<ExtractionStepView>,
)
    decreases urls.len(),
{
    if urls.len() == 0 {
        (w, Seq::empty())
    } else {
        let first = extraction_look(w, http_ttwid, urls.first());
        let rest = extraction_run(first.0, http_ttwid, urls.drop_first());
        (rest.0, seq![first.1] + rest.1)
    }
}

/// How many of `steps` end the wait.
pub open spec fn extraction_endings(steps: Seq<ExtractionStepView>) -> nat
    decreases steps.len(),
{
    if steps.len() == 0 {
        0
    } else if steps.first() is Finished {
        1 + extraction_endings(steps.drop_first())
    } else {
        extraction_endings(steps.drop_first())
    }
}

/// How many of `steps` ask for the surface to be closed.
pub open spec fn extraction_closings(steps: Seq<ExtractionStepView>) -> nat
    decreases steps.len(),
{
    if steps.len() == 0 {
        0
    } else if steps.first() matches ExtractionStepView::Finished { close_surface: true, .. } {
        1 + extraction_closings(steps.drop_first())
    } else {
        extraction_closings(steps.drop_first())
    }
}

/// The wait for the rendered page keeps to its time and ends once.
/// Whatever the surface shows, a wait that is on ends within the looks
/// that are left to it, on the last of them by timing out; the look that
/// ends it asks for the surface to be closed, and no other look does. A
/// room that is handed out holds room data, and with it the broadcaster's
/// id or room data of some size: no room without room data is handed out.
pub proof fn law_extraction_wait(w: Watch, http_ttwid: Seq<char>, urls: Seq<Seq<char>>)
    requires
        in_time(w, EXTRACTION_MAX_CHECKS),
    ensures
        in_time(extraction_run(w, http_ttwid, urls).0, EXTRACTION_MAX_CHECKS),
        extraction_run(w, http_ttwid, urls).1.len() == urls.len(),
        !w.open ==> extraction_run(w, http_ttwid, urls).0 == w,
        extraction_endings(extraction_run(w, http_ttwid, urls).1) <= 1,
        extraction_closings(extraction_run(w, http_ttwid, urls).1) == extraction_endings(
            extraction_run(w, http_ttwid, urls).1,
        ),
        extraction_endings(extraction_run(w, http_ttwid, urls).1) == 1 <==> w.open
            && !extraction_run(w, http_ttwid, urls).0.open,
        w.checks + urls.len() >= EXTRACTION_MAX_CHECKS ==> !extraction_run(
            w,
            http_ttwid,
            urls,
        ).0.open,
        forall|i: int|
            0 <= i < urls.len() ==> (#[trigger] extraction_run(w, http_ttwid, urls).1[i]
                matches ExtractionStepView::Finished { outcome: Ok(info), .. } ==> info.room_info.len()
                > 0 && (info.unique_id.len() > 0 || utf8_len(info.room_info) > LARGE_ROOM_DATA)),
    decreases urls.len(),
{
    if urls.len() > 0 {
        let first = extraction_look(w, http_ttwid, urls.first());
        let rest = extraction_run(first.0, http_ttwid, urls.drop_first());
        law_extraction_wait(first.0, http_ttwid, urls.drop_first());
        let all = seq![first.1] + rest.1;
        assert(all.first() == first.1);
        assert(all.drop_first() =~= rest.1);
        assert forall|i: int| 0 <= i < urls.len() implies (#[trigger] all[i]
            matches ExtractionStepView::Finished { outcome: Ok(info), .. } ==> info.room_info.len()
            > 0 && (info.unique_id.len() > 0 || utf8_len(info.room_info) > LARGE_ROOM_DATA)) by {
            if i > 0 {
                assert(all[i] == rest.1[i - 1]);
            }
        }
    }
}

/// A wait that has just begun ends within `EXTRACTION_MAX_CHECKS` looks.
pub proof fn law_extraction_times_out(http_ttwid: Seq<char>, urls: Seq<Seq<char>>)
    requires
        urls.len() >= EXTRACTION_MAX_CHECKS,
    ensures
        !extraction_run(Watch { checks: 0, open: true }, http_ttwid, urls).0.open,
        extraction_endings(extraction_run(Watch { checks: 0, open: true }, http_ttwid, urls).1)
            == 1,
        extraction_closings(extraction_run(Watch { checks: 0, open: true }, http_ttwid, urls).1)
            == 1,
{
    law_extraction_wait(Watch { checks: 0, open: true }, http_ttwid, urls);
}

} // verus!
