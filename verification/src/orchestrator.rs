//! The order of a scrape: fetch, and on a login wall sign in once and fetch
//! once more.
//!
//! The orchestrator does no work of its own. The caller tells it what
//! happened (an event) and is told what to do next (an action); the
//! orchestrator keeps the phase in between.

use vstd::prelude::*;
use crate::bridge::{LoginOutcome, LoginOutcomeView, LOGIN_MAX_CHECKS, LOGIN_POLL_MILLIS};
use crate::cookie_store::{format_header, parse_header, CookieStore, CookieView};
use crate::credentials::{saved_header, JarLoad, JarLoadView, HOME_URL, SITE_DOMAIN};
use crate::model::{LiveInfo, LiveInfoView, ScrapeError};
use crate::page::{
    attempt_outcome, has_captcha_marker, has_denial_marker, outcome_view, read_response,
};

verus! {

/// How long a user is given to sign in, in seconds.
pub const LOGIN_TIMEOUT_SECS: u64 = 600;

/// Where a scrape stands.
#[derive(Debug, Clone, Copy, PartialEq, Eq, Structural)]
pub enum Phase {
    /// Not begun.
    Idle,
    /// The first HTTP attempt is under way.
    Fetching,
    /// The first attempt met a login wall; the user is signing in.
    AwaitingInteractiveAuth,
    /// The attempt after the sign-in is under way.
    Retrying,
    /// Ended with a result.
    Success,
    /// Ended with an error.
    Failed,
}

/// What happened.
#[derive(Debug)]
pub enum Event {
    /// A scrape was asked for; this was found where the jar is kept.
    Begin(JarLoad),
    /// An HTTP attempt ended.
    Attempt(Result<LiveInfo, ScrapeError>),
    /// The interactive sign-in ended.
    Login(LoginOutcome),
}

/// An `Event` as the contracts see it.
pub enum EventView {
    Begin(JarLoadView),
    Attempt(Result<LiveInfoView, ScrapeError>),
    Login(LoginOutcomeView),
}

impl View for Event {
    type V = EventView;

    open spec fn view(&self) -> EventView {
        match self {
            Event::Begin(load) => EventView::Begin(load@),
            Event::Attempt(Ok(info)) => EventView::Attempt(Ok(info@)),
            Event::Attempt(Err(e)) => EventView::Attempt(Err(*e)),
            Event::Login(outcome) => EventView::Login(outcome@),
        }
    }
}

/// What to do next.
#[derive(Debug)]
pub enum Action {
    /// Make an HTTP attempt: the home page first, then the room page, with
    /// `cookie_header` as its `cookie` header where there is one.
    Fetch { cookie_header: Option<String> },
    /// Let the user sign in at `url`, and wait no longer than
    /// `timeout_secs`.
    RequestLogin { url: String, timeout_secs: u64 },
    /// Store `jar` in place of whatever is stored, then make an HTTP
    /// attempt with `fresh_header` as its `cookie` header.
    PersistThenFetch { jar: CookieStore, fresh_header: String },
    /// Hand out the result.
    Succeed(LiveInfo),
    /// Hand out the error.
    Fail(ScrapeError),
    /// The event does not belong to the phase: do nothing.
    Nothing,
}

/// An `Action` as the contracts see it.
pub enum ActionView {
    Fetch { cookie_header: Option<Seq<char>> },
    RequestLogin { url: Seq<char>, timeout_secs: u64 },
    PersistThenFetch { jar: Seq<CookieView>, fresh_header: Seq<char> },
    Succeed(LiveInfoView),
    Fail(ScrapeError),
    Nothing,
}

impl View for Action {
    type V = ActionView;

    open spec fn view(&self) -> ActionView {
        match self {
            Action::Fetch { cookie_header } => ActionView::Fetch {
                cookie_header: match cookie_header {
                    Some(h) => Some(h@),
                    None => None,
                },
            },
            Action::RequestLogin { url, timeout_secs } => ActionView::RequestLogin {
                url: url@,
                timeout_secs: *timeout_secs,
            },
            Action::PersistThenFetch { jar, fresh_header } => ActionView::PersistThenFetch {
                jar: jar@,
                fresh_header: fresh_header@,
            },
            Action::Succeed(info) => ActionView::Succeed(info@),
            Action::Fail(e) => ActionView::Fail(*e),
            Action::Nothing => ActionView::Nothing,
        }
    }
}

/// An attempt as the orchestrator takes it: a result without room data
/// is no result, and counts as a login wall.
pub open spec fn settled(attempt: Result<LiveInfoView, ScrapeError>) -> Result<
    LiveInfoView,
    ScrapeError,
> {
    match attempt {
        Ok(info) => if info.room_info.len() > 0 {
            attempt
        } else {
            Err(ScrapeError::BlockedNeedsLogin)
        },
        Err(_) => attempt,
    }
}

/// The action that answers a sign-in: on a cookie header, store the jar
/// that it holds and fetch with that jar; else fail, with an error of its
/// own for a timeout and for a cancellation.
pub open spec fn after_login(outcome: LoginOutcomeView) -> (Phase, ActionView) {
    match outcome {
        LoginOutcomeView::Cookies(header) => {
            let jar = parse_header(header, SITE_DOMAIN@);
            (
                Phase::Retrying,
                ActionView::PersistThenFetch { jar, fresh_header: format_header(jar) },
            )
        },
        LoginOutcomeView::TimedOut => (
            Phase::Failed,
            ActionView::Fail(ScrapeError::InteractiveTimedOut),
        ),
        LoginOutcomeView::Cancelled => (
            Phase::Failed,
            ActionView::Fail(ScrapeError::InteractiveCancelled),
        ),
    }
}

/// The next phase and the action, for every phase and event.
///
/// - Idle, on a beginning: fetch, with the stored jar as cookie header
///   where one could be read, and without one where none is stored or
///   what is stored is no jar.
/// - Fetching, on an attempt: a result ends the scrape; a login wall asks
///   for the interactive sign-in; any other error ends the scrape.
/// - Awaiting the sign-in, on its end: see `after_login`.
/// - Retrying, on an attempt: a result ends the scrape, and so does every
///   error, a second login wall too.
/// - Anything else leaves the phase and asks for nothing.
///
/// A blocked attempt is no phase of its own: the event that brings it is
/// answered at once, by the wait for the sign-in or by the end.
pub open spec fn react(phase: Phase, event: EventView) -> (Phase, ActionView) {
    match (phase, event) {
        (Phase::Idle, EventView::Begin(load)) => (
            Phase::Fetching,
            ActionView::Fetch { cookie_header: saved_header(load) },
        ),
        (Phase::Fetching, EventView::Attempt(attempt)) => match settled(attempt) {
            Ok(info) => (Phase::Success, ActionView::Succeed(info)),
            Err(ScrapeError::BlockedNeedsLogin) => (
                Phase::AwaitingInteractiveAuth,
                ActionView::RequestLogin { url: HOME_URL@, timeout_secs: LOGIN_TIMEOUT_SECS },
            ),
            Err(e) => (Phase::Failed, ActionView::Fail(e)),
        },
        (Phase::AwaitingInteractiveAuth, EventView::Login(outcome)) => after_login(outcome),
        (Phase::Retrying, EventView::Attempt(attempt)) => match settled(attempt) {
            Ok(info) => (Phase::Success, ActionView::Succeed(info)),
            Err(e) => (Phase::Failed, ActionView::Fail(e)),
        },
        _ => (phase, ActionView::Nothing),
    }
}

/// The state machine of one scrape.
pub struct Orchestrator {
    phase: Phase,
}

impl Orchestrator {
    /// The phase of the scrape.
    pub closed spec fn spec_phase(&self) -> Phase {
        self.phase
    }

    /// A scrape that has not begun.
    pub fn new() -> (o: Orchestrator)
        ensures
            o.phase() == Phase::Idle,
    {
        Orchestrator { phase: Phase::Idle }
    }

    /// The phase of the scrape.
    #[verifier::when_used_as_spec(spec_phase)]
    pub fn phase(&self) -> (p: Phase)
        ensures
            p == self.spec_phase(),
    {
        self.phase
    }

    /// Whether the scrape waits for the user to sign in.
    pub fn is_login_pending(&self) -> (pending: bool)
        ensures
            pending == (self.phase() == Phase::AwaitingInteractiveAuth),
    {
        match self.phase {
            Phase::AwaitingInteractiveAuth => true,
            _ => false,
        }
    }

    /// Takes an event and says what to do next.
    pub fn step(&mut self, event: Event) -> (action: Action)
        ensures
            (final(self).phase(), action@) == react(old(self).phase(), event@),
    {
        match (self.phase, event) {
            (Phase::Idle, Event::Begin(load)) => {
                self.phase = Phase::Fetching;
                let cookie_header = match load {
                    JarLoad::Found(jar) => Some(jar.to_cookie_string()),
                    _ => None,
                };
                Action::Fetch { cookie_header }
            },
            (Phase::Fetching, Event::Attempt(attempt)) => match settle(attempt) {
                Ok(info) => {
                    self.phase = Phase::Success;
                    Action::Succeed(info)
                },
                Err(ScrapeError::BlockedNeedsLogin) => {
                    self.phase = Phase::AwaitingInteractiveAuth;
                    Action::RequestLogin {
                        url: HOME_URL.to_owned(),
                        timeout_secs: LOGIN_TIMEOUT_SECS,
                    }
                },
                Err(e) => {
                    self.phase = Phase::Failed;
                    Action::Fail(e)
                },
            },
            (Phase::AwaitingInteractiveAuth, Event::Login(outcome)) => match outcome {
                LoginOutcome::Cookies(header) => {
                    let jar = CookieStore::from_cookie_string(header.as_str(), SITE_DOMAIN);
                    let fresh_header = jar.to_cookie_string();
                    self.phase = Phase::Retrying;
                    Action::PersistThenFetch { jar, fresh_header }
                },
                LoginOutcome::TimedOut => {
                    self.phase = Phase::Failed;
                    Action::Fail(ScrapeError::InteractiveTimedOut)
                },
                LoginOutcome::Cancelled => {
                    self.phase = Phase::Failed;
                    Action::Fail(ScrapeError::InteractiveCancelled)
                },
            },
            (Phase::Retrying, Event::Attempt(attempt)) => match settle(attempt) {
                Ok(info) => {
                    self.phase = Phase::Success;
                    Action::Succeed(info)
                },
                Err(e) => {
                    self.phase = Phase::Failed;
                    Action::Fail(e)
                },
            },
            _ => Action::Nothing,
        }
    }

    /// Takes the response to an HTTP attempt, reads it, and says what to
    /// do next. `body` is the text of the response, `cookies` are the
    /// cookies that it set.
    pub fn on_response(&mut self, body: &str, cookies: &CookieStore) -> (action: Action)
        ensures
            (final(self).phase(), action@) == react(
                old(self).phase(),
                EventView::Attempt(attempt_outcome(body@, cookies@)),
            ),
    {
        match self.phase {
            Phase::Fetching | Phase::Retrying => {
                let attempt = read_response(body, cookies);
                self.step(Event::Attempt(attempt))
            },
            _ => Action::Nothing,
        }
    }
}

/// An attempt as the orchestrator takes it.
fn settle(attempt: Result<LiveInfo, ScrapeError>) -> (r: Result<LiveInfo, ScrapeError>)
    ensures
        outcome_view(r) == settled(outcome_view(attempt)),
{
    match attempt {
        Ok(info) => if !info.room_info.as_str().is_empty() {
            Ok(info)
        } else {
            Err(ScrapeError::BlockedNeedsLogin)
        },
        Err(e) => Err(e),
    }
}

/// The phase after a run of events, and the actions that answered them,
/// in order.
pub open spec fn run(phase: Phase, events: Seq<EventView>) -> (Phase, Seq<ActionView>)
    decreases events.len(),
{
    if events.len() == 0 {
        (phase, Seq::empty())
    } else {
        let first = react(phase, events.first());
        let rest = run(first.0, events.drop_first());
        (rest.0, seq![first.1] + rest.1)
    }
}

/// How many of `actions` ask for an interactive sign-in.
pub open spec fn logins(actions: Seq<ActionView>) -> nat
    decreases actions.len(),
{
    if actions.len() == 0 {
        0
    } else if actions.first() is RequestLogin {
        1 + logins(actions.drop_first())
    } else {
        logins(actions.drop_first())
    }
}

/// How many of `actions` ask for an HTTP attempt.
pub open spec fn fetches(actions: Seq<ActionView>) -> nat
    decreases actions.len(),
{
    if actions.len() == 0 {
        0
    } else if actions.first() is Fetch || actions.first() is PersistThenFetch {
        1 + fetches(actions.drop_first())
    } else {
        fetches(actions.drop_first())
    }
}

/// How many of `actions` hand out a result or an error.
pub open spec fn verdicts(actions: Seq<ActionView>) -> nat
    decreases actions.len(),
{
    if actions.len() == 0 {
        0
    } else if actions.first() is Succeed || actions.first() is Fail {
        1 + verdicts(actions.drop_first())
    } else {
        verdicts(actions.drop_first())
    }
}

/// How far a phase is along the way of a scrape.
pub open spec fn progress(phase: Phase) -> nat {
    match phase {
        Phase::Idle => 0,
        Phase::Fetching => 1,
        Phase::AwaitingInteractiveAuth => 2,
        Phase::Retrying => 3,
        Phase::Success => 4,
        Phase::Failed => 4,
    }
}

/// Whether a scrape has ended.
pub open spec fn is_over(phase: Phase) -> bool {
    phase == Phase::Success || phase == Phase::Failed
}

/// What one event can do: it never takes the scrape back; it asks for a
/// sign-in only on the way out of the first attempt, for an HTTP attempt
/// only on the way into one, and hands out a verdict exactly when it ends
/// the scrape. A result that is handed out holds room data.
pub proof fn law_one_step(phase: Phase, event: EventView)
    ensures
        progress(react(phase, event).0) >= progress(phase),
        react(phase, event).1 is Nothing <==> react(phase, event).0 == phase,
        react(phase, event).1 is RequestLogin <==> phase == Phase::Fetching && react(
            phase,
            event,
        ).0 == Phase::AwaitingInteractiveAuth,
        react(phase, event).1 is Fetch <==> phase == Phase::Idle && react(phase, event).0
            == Phase::Fetching,
        react(phase, event).1 is PersistThenFetch <==> phase == Phase::AwaitingInteractiveAuth
            && react(phase, event).0 == Phase::Retrying,
        react(phase, event).1 is Succeed <==> !is_over(phase) && react(phase, event).0
            == Phase::Success,
        react(phase, event).1 is Fail <==> !is_over(phase) && react(phase, event).0
            == Phase::Failed,
        react(phase, event).1 matches ActionView::Succeed(info) ==> info.room_info.len() > 0,
{
}

/// Over a whole run, whatever the events: the scrape never goes back, asks
/// for at most one sign-in, and for none once the first attempt is behind
/// it; it makes at most two HTTP attempts, and hands out at most one
/// verdict, and none once it has ended.
pub proof fn law_run_bounds(phase: Phase, events: Seq<EventView>)
    ensures
        progress(run(phase, events).0) >= progress(phase),
        run(phase, events).1.len() == events.len(),
        logins(run(phase, events).1) <= 1,
        progress(phase) >= 2 ==> logins(run(phase, events).1) == 0,
        fetches(run(phase, events).1) <= 2,
        progress(phase) >= 1 ==> fetches(run(phase, events).1) <= 1,
        progress(phase) >= 3 ==> fetches(run(phase, events).1) == 0,
        verdicts(run(phase, events).1) <= 1,
        is_over(phase) ==> verdicts(run(phase, events).1) == 0,
        verdicts(run(phase, events).1) == 1 <==> !is_over(phase) && is_over(run(phase, events).0),
    decreases events.len(),
{
    if events.len() > 0 {
        let first = react(phase, events.first());
        let rest = run(first.0, events.drop_first());
        law_one_step(phase, events.first());
        law_run_bounds(first.0, events.drop_first());
        let all = seq![first.1] + rest.1;
        assert(all.first() == first.1);
        assert(all.drop_first() =~= rest.1);
    }
}

/// A scrape asks for at most one interactive sign-in and makes at most two
/// HTTP attempts, whatever happens.
pub proof fn law_single_login(events: Seq<EventView>)
    ensures
        logins(run(Phase::Idle, events).1) <= 1,
        fetches(run(Phase::Idle, events).1) <= 2,
        verdicts(run(Phase::Idle, events).1) <= 1,
{
    law_run_bounds(Phase::Idle, events);
}

/// A scrape that has ended stays as it is: every later event is answered
/// with nothing.
pub proof fn law_over_is_over(phase: Phase, events: Seq<EventView>)
    requires
        is_over(phase),
    ensures
        run(phase, events).0 == phase,
        forall|i: int| 0 <= i < events.len() ==> #[trigger] run(phase, events).1[i] is Nothing,
    decreases events.len(),
{
    if events.len() > 0 {
        let first = react(phase, events.first());
        let rest = run(first.0, events.drop_first());
        law_over_is_over(phase, events.drop_first());
        law_run_bounds(phase, events);
        let all = seq![first.1] + rest.1;
        assert forall|i: int| 0 <= i < events.len() implies #[trigger] all[i] is Nothing by {
            if i > 0 {
                assert(all[i] == rest.1[i - 1]);
            }
        }
    }
}

/// A body with a captcha marker ends the scrape at once, on the first
/// attempt as on the second, with the captcha error: no sign-in is asked
/// for and no further HTTP attempt is made, whatever follows.
pub proof fn law_captcha_is_terminal(
    phase: Phase,
    body: Seq<char>,
    cookies: Seq<CookieView>,
    later: Seq<EventView>,
)
    requires
        phase == Phase::Fetching || phase == Phase::Retrying,
        has_captcha_marker(body),
    ensures
        attempt_outcome(body, cookies) == Err::<LiveInfoView, ScrapeError>(
            ScrapeError::BlockedNeedsCaptcha,
        ),
        react(phase, EventView::Attempt(attempt_outcome(body, cookies))) == (
            Phase::Failed,
            ActionView::Fail(ScrapeError::BlockedNeedsCaptcha),
        ),
        logins(run(Phase::Failed, later).1) == 0,
        fetches(run(Phase::Failed, later).1) == 0,
{
    law_run_bounds(Phase::Failed, later);
}

/// A body with a denial marker and no captcha marker is a login wall. On
/// the first attempt it asks for the interactive sign-in; on the second
/// it ends the scrape with the login error, and no sign-in is asked for
/// again, whatever follows.
pub proof fn law_denial_is_login_wall(body: Seq<char>, cookies: Seq<CookieView>, later: Seq<EventView>)
    requires
        has_denial_marker(body),
        !has_captcha_marker(body),
    ensures
        attempt_outcome(body, cookies) == Err::<LiveInfoView, ScrapeError>(
            ScrapeError::BlockedNeedsLogin,
        ),
        react(Phase::Fetching, EventView::Attempt(attempt_outcome(body, cookies))) == (
            Phase::AwaitingInteractiveAuth,
            ActionView::RequestLogin { url: HOME_URL@, timeout_secs: LOGIN_TIMEOUT_SECS },
        ),
        react(Phase::Retrying, EventView::Attempt(attempt_outcome(body, cookies))) == (
            Phase::Failed,
            ActionView::Fail(ScrapeError::BlockedNeedsLogin),
        ),
        logins(run(Phase::Retrying, later).1) == 0,
        logins(run(Phase::AwaitingInteractiveAuth, later).1) == 0,
{
    law_run_bounds(Phase::Retrying, later);
    law_run_bounds(Phase::AwaitingInteractiveAuth, later);
}

/// A failure of the network ends the scrape with the transport error, on
/// either attempt: it never asks for a sign-in.
pub proof fn law_transport_is_terminal(phase: Phase)
    requires
        phase == Phase::Fetching || phase == Phase::Retrying,
    ensures
        react(phase, EventView::Attempt(Err(ScrapeError::Transport))) == (
            Phase::Failed,
            ActionView::Fail(ScrapeError::Transport),
        ),
{
}

/// The time that a sign-in is given is the time that the wait on its
/// surface takes to run out.
pub proof fn law_login_budget()
    ensures
        LOGIN_TIMEOUT_SECS * 1000 == LOGIN_MAX_CHECKS * LOGIN_POLL_MILLIS,
{
}

/// A scrape begins with an HTTP attempt whatever was found where the jar
/// is kept: nothing stored, and a file that holds no jar, mean an attempt
/// without a cookie header.
pub proof fn law_begin_always_fetches(load: JarLoadView)
    ensures
        react(Phase::Idle, EventView::Begin(load)).0 == Phase::Fetching,
        react(Phase::Idle, EventView::Begin(load)).1 is Fetch,
        !(load is Found) ==> react(Phase::Idle, EventView::Begin(load)).1 == (ActionView::Fetch {
            cookie_header: None,
        }),
{
}

} // verus!
