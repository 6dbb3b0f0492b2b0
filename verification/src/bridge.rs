//! The interactive bridge: what to make of an interactive surface (a
//! browser window that the caller opens and polls) while it is waited on.
//!
//! The caller sleeps, looks at the surface and closes it; the watches in
//! this module count the looks, read what the surface reports through the
//! fragment of its address, and say when the wait is over and how.

use vstd::prelude::*;
use crate::outside::{percent_decode, percent_decoded, string_of};
use crate::text::{chars_of, copy_range, find_text, opt_view, text_after};

verus! {

/// Name of the surface on which the user signs in.
pub const LOGIN_SURFACE: &'static str = "douyinLogin";

/// Name of the surface that renders a room page.
pub const DATA_SURFACE: &'static str = "douyinData";

/// What precedes a cookie report in the address of the sign-in surface.
pub const COOKIE_REPORT_MARKER: &'static str = "#__COOKIES__=";

/// How often the sign-in surface is looked at before the wait times out.
pub const LOGIN_MAX_CHECKS: u32 = 600;

/// The pause before each look at the sign-in surface, in milliseconds.
pub const LOGIN_POLL_MILLIS: u64 = 1000;

/// How an interactive sign-in ended.
#[derive(Debug)]
pub enum LoginOutcome {
    /// The surface reported this cookie header.
    Cookies(String),
    /// Nothing came within the time allowed.
    TimedOut,
    /// The surface was closed, or what it reported could not be decoded.
    Cancelled,
}

/// A `LoginOutcome` as the contracts see it.
pub enum LoginOutcomeView {
    Cookies(Seq<char>),
    TimedOut,
    Cancelled,
}

impl View for LoginOutcome {
    type V = LoginOutcomeView;

    open spec fn view(&self) -> LoginOutcomeView {
        match self {
            LoginOutcome::Cookies(header) => LoginOutcomeView::Cookies(header@),
            LoginOutcome::TimedOut => LoginOutcomeView::TimedOut,
            LoginOutcome::Cancelled => LoginOutcomeView::Cancelled,
        }
    }
}

/// What the caller does after a look at the sign-in surface.
#[derive(Debug)]
pub enum LoginStep {
    /// Pause, then look again.
    KeepWaiting,
    /// The wait is over. Close the surface where `close_surface` says so,
    /// then hand on `outcome`.
    Finished { outcome: LoginOutcome, close_surface: bool },
    /// The wait was over before this look: do nothing.
    Over,
}

/// A `LoginStep` as the contracts see it.
pub enum LoginStepView {
    KeepWaiting,
    Finished { outcome: LoginOutcomeView, close_surface: bool },
    Over,
}

impl View for LoginStep {
    type V = LoginStepView;

    open spec fn view(&self) -> LoginStepView {
        match self {
            LoginStep::KeepWaiting => LoginStepView::KeepWaiting,
            LoginStep::Finished { outcome, close_surface } => LoginStepView::Finished {
                outcome: outcome@,
                close_surface: *close_surface,
            },
            LoginStep::Over => LoginStepView::Over,
        }
    }
}

/// A wait on an interactive surface: how often it was looked at, and
/// whether the wait is still on.
pub struct Watch {
    pub checks: u32,
    pub open: bool,
}

/// The wait after one more look that did not end it by itself: it goes on
/// until the looks reach `max_checks`.
pub open spec fn after_look(w: Watch, max_checks: u32) -> Watch {
    if w.checks < max_checks && w.checks + 1 < max_checks {
        Watch { checks: (w.checks + 1) as u32, open: true }
    } else {
        Watch { checks: max_checks, open: false }
    }
}

/// The wait once it has ended at the look that is being taken.
pub open spec fn ended(w: Watch, max_checks: u32) -> Watch {
    Watch {
        checks: if w.checks < max_checks {
            (w.checks + 1) as u32
        } else {
            max_checks
        },
        open: false,
    }
}

/// How a sign-in ends on a report: with the cookie header that the report
/// decodes to, or as cancelled where it decodes to nothing.
pub open spec fn login_outcome(decoded: Option<Seq<char>>) -> LoginOutcomeView {
    match decoded {
        Some(header) => LoginOutcomeView::Cookies(header),
        None => LoginOutcomeView::Cancelled,
    }
}

/// One look at the sign-in surface, whose address is `url`.
///
/// A wait that is over stays over. Otherwise, an address that holds a
/// cookie report ends the wait with what follows the marker, decoded. An
/// address without one lets the wait go on, unless this was the last look
/// allowed: then the wait times out. Whenever a look ends the wait, the
/// surface is to be closed.
pub open spec fn login_look(w: Watch, url: Seq<char>) -> (Watch, LoginStepView) {
    if !w.open {
        (w, LoginStepView::Over)
    } else {
        match text_after(url, COOKIE_REPORT_MARKER@) {
            Some(report) => (
                ended(w, LOGIN_MAX_CHECKS),
                LoginStepView::Finished {
                    outcome: login_outcome(percent_decoded(report)),
                    close_surface: true,
                },
            ),
            None => {
                let next = after_look(w, LOGIN_MAX_CHECKS);
                if next.open {
                    (next, LoginStepView::KeepWaiting)
                } else {
                    (
                        next,
                        LoginStepView::Finished {
                            outcome: LoginOutcomeView::TimedOut,
                            close_surface: true,
                        },
                    )
                }
            },
        }
    }
}

/// The surface went away by itself: the wait, if it is on, ends as
/// cancelled, and there is nothing left to close.
pub open spec fn login_gone(w: Watch) -> (Watch, LoginStepView) {
    if !w.open {
        (w, LoginStepView::Over)
    } else {
        (
            Watch { checks: w.checks, open: false },
            LoginStepView::Finished { outcome: LoginOutcomeView::Cancelled, close_surface: false },
        )
    }
}

/// What follows the first `marker` in `text`.
pub fn report_after(text: &str, marker: &str) -> (report: Option<String>)
    ensures
        opt_view(report) == text_after(text@, marker@),
{
    let chars = chars_of(text);
    let needle = chars_of(marker);
    match find_text(&chars, &needle) {
        Some(at) => {
            let from = at + needle.len();
            assert(chars@.skip(from as int) =~= chars@.subrange(from as int, chars@.len() as int));
            Some(string_of(&copy_range(&chars, from, chars.len())))
        },
        None => None,
    }
}

impl LoginOutcome {
    /// How a sign-in ends on a report, given what the report decodes to:
    /// with that cookie header, or as cancelled where there is none.
    pub fn from_report(decoded: Option<String>) -> (outcome: LoginOutcome)
        ensures
            outcome@ == login_outcome(opt_view(decoded)),
    {
        match decoded {
            Some(header) => LoginOutcome::Cookies(header),
            None => LoginOutcome::Cancelled,
        }
    }
}

/// The wait for a user to sign in on the interactive surface.
pub struct LoginWatch {
    watch: Watch,
}

impl View for LoginWatch {
    type V = Watch;

    closed spec fn view(&self) -> Watch {
        self.watch
    }
}

impl LoginWatch {
    /// A wait that has just begun: the surface is open and was not looked
    /// at yet.
    pub fn new() -> (w: LoginWatch)
        ensures
            w@ == (Watch { checks: 0, open: true }),
    {
        LoginWatch { watch: Watch { checks: 0, open: true } }
    }

    /// Whether the wait is still on.
    pub fn is_pending(&self) -> (pending: bool)
        ensures
            pending == self@.open,
    {
        self.watch.open
    }

    /// How often the surface was looked at.
    pub fn checks(&self) -> (n: u32)
        ensures
            n == self@.checks,
    {
        self.watch.checks
    }

    /// Takes one look at the surface, whose address is `url`, and says
    /// what to do next.
    pub fn observe(&mut self, url: &str) -> (step: LoginStep)
        ensures
            (final(self)@, step@) == login_look(old(self)@, url@),
    {
        if !self.watch.open {
            return LoginStep::Over;
        }
        match report_after(url, COOKIE_REPORT_MARKER) {
            Some(report) => {
                let outcome = LoginOutcome::from_report(percent_decode(report.as_str()));
                self.watch = finish(&self.watch, LOGIN_MAX_CHECKS);
                LoginStep::Finished { outcome, close_surface: true }
            },
            None => {
                self.watch = look_again(&self.watch, LOGIN_MAX_CHECKS);
                if self.watch.open {
                    LoginStep::KeepWaiting
                } else {
                    LoginStep::Finished { outcome: LoginOutcome::TimedOut, close_surface: true }
                }
            },
        }
    }

    /// Takes note that the surface went away by itself.
    pub fn surface_closed(&mut self) -> (step: LoginStep)
        ensures
            (final(self)@, step@) == login_gone(old(self)@),
    {
        if !self.watch.open {
            return LoginStep::Over;
        }
        self.watch.open = false;
        LoginStep::Finished { outcome: LoginOutcome::Cancelled, close_surface: false }
    }
}

/// The wait after one more look that did not end it by itself.
pub(crate) fn look_again(w: &Watch, max_checks: u32) -> (next: Watch)
    ensures
        next == after_look(*w, max_checks),
{
    if w.checks < max_checks && w.checks + 1 < max_checks {
        Watch { checks: w.checks + 1, open: true }
    } else {
        Watch { checks: max_checks, open: false }
    }
}

/// The wait once it has ended at the look that is being taken.
pub(crate) fn finish(w: &Watch, max_checks: u32) -> (next: Watch)
    ensures
        next == ended(*w, max_checks),
{
    Watch {
        checks: if w.checks < max_checks {
            w.checks + 1
        } else {
            max_checks
        },
        open: false,
    }
}

/// What to do with the surface when an interactive session is asked for.
#[derive(Debug, Clone, Copy, PartialEq, Eq, Structural)]
pub enum SurfacePlan {
    /// No surface is open: open one.
    Create,
    /// A surface is open: point it at the new address.
    Retarget,
}

/// The one place for an interactive surface of a given name: empty, or
/// taken by the surface that is open, with the address it was pointed at.
pub struct SurfaceSlot {
    label: String,
    target: Option<String>,
}

/// A `SurfaceSlot` as the contracts see it.
pub struct SurfaceSlotView {
    /// The name of the surface.
    pub label: Seq<char>,
    /// The address of the open surface, if one is open.
    pub target: Option<Seq<char>>,
}

impl View for SurfaceSlot {
    type V = SurfaceSlotView;

    closed spec fn view(&self) -> SurfaceSlotView {
        SurfaceSlotView {
            label: self.label@,
            target: match self.target {
                Some(url) => Some(url@),
                None => None,
            },
        }
    }
}

/// The slot after a session at `url` was asked for, and what to do with
/// the surface: the slot is taken either way, and a surface is created
/// only where none was open.
pub open spec fn slot_request(slot: SurfaceSlotView, url: Seq<char>) -> (SurfaceSlotView, SurfacePlan) {
    (
        SurfaceSlotView { label: slot.label, target: Some(url) },
        if slot.target is Some {
            SurfacePlan::Retarget
        } else {
            SurfacePlan::Create
        },
    )
}

/// The slot after the session ended, and whether a surface was open and
/// is to be closed.
pub open spec fn slot_release(slot: SurfaceSlotView) -> (SurfaceSlotView, bool) {
    (SurfaceSlotView { label: slot.label, target: None }, slot.target is Some)
}

impl SurfaceSlot {
    /// An empty slot for the surface named `label`.
    pub fn new(label: &str) -> (slot: SurfaceSlot)
        ensures
            slot@ == (SurfaceSlotView { label: label@, target: None }),
    {
        SurfaceSlot { label: label.to_owned(), target: None }
    }

    /// The name of the surface.
    pub fn label(&self) -> (label: &str)
        ensures
            label@ == self@.label,
    {
        self.label.as_str()
    }

    /// Whether an interactive session is pending, that is, a surface is
    /// open.
    pub fn is_pending(&self) -> (pending: bool)
        ensures
            pending == self@.target is Some,
    {
        self.target.is_some()
    }

    /// Asks for a session at `url`. Where a surface is open it is pointed
    /// at `url`; a second surface is never created.
    pub fn request(&mut self, url: &str) -> (plan: SurfacePlan)
        ensures
            (final(self)@, plan) == slot_request(old(self)@, url@),
    {
        let plan = if self.target.is_some() {
            SurfacePlan::Retarget
        } else {
            SurfacePlan::Create
        };
        self.target = Some(url.to_owned());
        plan
    }

    /// Ends the session. Returns whether a surface was open, which the
    /// caller then closes.
    pub fn release(&mut self) -> (close: bool)
        ensures
            (final(self)@, close) == slot_release(old(self)@),
    {
        let close = self.target.is_some();
        self.target = None;
        close
    }
}

/// Asking twice creates one surface: the second request points the open
/// surface at its address. Ending the session twice closes one surface:
/// the second release finds nothing to close.
pub proof fn law_single_surface(slot: SurfaceSlotView, first: Seq<char>, second: Seq<char>)
    ensures
        slot_request(slot_request(slot, first).0, second) == (
            SurfaceSlotView { label: slot.label, target: Some(second) },
            SurfacePlan::Retarget,
        ),
        slot_release(slot_request(slot, first).0).1,
        !slot_release(slot_release(slot).0).1,
        slot_request(slot_release(slot).0, first).1 == SurfacePlan::Create,
{
}

/// Whether a wait keeps to its time: while it is on, the looks have not
/// reached `max_checks`.
pub open spec fn in_time(w: Watch, max_checks: u32) -> bool {
    w.open ==> w.checks < max_checks
}

/// The wait after a run of looks at the sign-in surface, and the steps
/// that answered them, in order.
pub open spec fn login_run(w: Watch, urls: Seq<Seq<char>>) -> (Watch, Seq<LoginStepView>)
    decreases urls.len(),
{
    if urls.len() == 0 {
        (w, Seq::empty())
    } else {
        let first = login_look(w, urls.first());
        let rest = login_run(first.0, urls.drop_first());
        (rest.0, seq![first.1] + rest.1)
    }
}

/// How many of `steps` end the wait.
pub open spec fn login_endings(steps: Seq<LoginStepView>) -> nat
    decreases steps.len(),
{
    if steps.len() == 0 {
        0
    } else if steps.first() is Finished {
        1 + login_endings(steps.drop_first())
    } else {
        login_endings(steps.drop_first())
    }
}

/// How many of `steps` ask for the surface to be closed.
pub open spec fn login_closings(steps: Seq<LoginStepView>) -> nat
    decreases steps.len(),
{
    if steps.len() == 0 {
        0
    } else if steps.first() matches LoginStepView::Finished { close_surface: true, .. } {
        1 + login_closings(steps.drop_first())
    } else {
        login_closings(steps.drop_first())
    }
}

/// The wait for a sign-in keeps to its time and ends once. Whatever the
/// surface shows, a wait that is on ends within the looks that are left
/// to it, on the last of them by timing out; the look that ends it asks
/// for the surface to be closed, and no other look does.
pub proof fn law_login_wait(w: Watch, urls: Seq<Seq<char>>)
    requires
        in_time(w, LOGIN_MAX_CHECKS),
    ensures
        in_time(login_run(w, urls).0, LOGIN_MAX_CHECKS),
        login_run(w, urls).1.len() == urls.len(),
        !w.open ==> login_run(w, urls).0 == w,
        login_endings(login_run(w, urls).1) <= 1,
        login_closings(login_run(w, urls).1) == login_endings(login_run(w, urls).1),
        login_endings(login_run(w, urls).1) == 1 <==> w.open && !login_run(w, urls).0.open,
        w.checks + urls.len() >= LOGIN_MAX_CHECKS ==> !login_run(w, urls).0.open,
        !login_run(w, urls).0.open || login_run(w, urls).0.checks == w.checks + urls.len(),
    decreases urls.len(),
{
    if urls.len() > 0 {
        let first = login_look(w, urls.first());
        let rest = login_run(first.0, urls.drop_first());
        law_login_wait(first.0, urls.drop_first());
        let all = seq![first.1] + rest.1;
        assert(all.first() == first.1);
        assert(all.drop_first() =~= rest.1);
    }
}

/// A wait that has just begun ends within `LOGIN_MAX_CHECKS` looks.
pub proof fn law_login_times_out(urls: Seq<Seq<char>>)
    requires
        urls.len() >= LOGIN_MAX_CHECKS,
    ensures
        !login_run(Watch { checks: 0, open: true }, urls).0.open,
        login_endings(login_run(Watch { checks: 0, open: true }, urls).1) == 1,
        login_closings(login_run(Watch { checks: 0, open: true }, urls).1) == 1,
{
    law_login_wait(Watch { checks: 0, open: true }, urls);
}

} // verus!
