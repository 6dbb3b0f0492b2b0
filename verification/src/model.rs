//! What a scrape yields, and how it can fail.

use vstd::prelude::*;

verus! {

/// The metadata of a live room.
#[derive(Debug, Clone)]
pub struct LiveInfo {
    /// The room data embedded in the page, as JSON text.
    pub room_info: String,
    /// The session token that the site issued with the page.
    pub ttwid: String,
    /// The broadcaster's id, empty where the page shows none.
    pub unique_id: String,
}

/// A `LiveInfo` as the contracts see it.
pub struct LiveInfoView {
    pub room_info: Seq<char>,
    pub ttwid: Seq<char>,
    pub unique_id: Seq<char>,
}

impl View for LiveInfo {
    type V = LiveInfoView;

    open spec fn view(&self) -> LiveInfoView {
        LiveInfoView { room_info: self.room_info@, ttwid: self.ttwid@, unique_id: self.unique_id@ }
    }
}

/// What a response body asks of the user before the page can be read.
#[derive(Debug, Clone, Copy, PartialEq, Eq, Structural)]
pub enum Challenge {
    /// Nothing: the page can be read.
    Clear,
    /// The site wants a signed-in session.
    NeedsLogin,
    /// The site wants a captcha solved.
    NeedsCaptcha,
}

/// Why a scrape ended without a result.
#[derive(Debug, Clone, Copy, PartialEq, Eq, Structural)]
pub enum ScrapeError {
    /// The network failed; nothing can be said of the page.
    Transport,
    /// The site refused the page, or the page did not show the room data,
    /// which cannot be told from a refusal.
    BlockedNeedsLogin,
    /// The site asked for a captcha.
    BlockedNeedsCaptcha,
    /// The interactive sign-in did not finish in time.
    InteractiveTimedOut,
    /// The interactive sign-in was closed before it finished.
    InteractiveCancelled,
}

pub const ERROR_TRANSPORT: &'static str = "TRANSPORT_ERROR";

pub const ERROR_ACCESS_DENIED: &'static str = "ACCESS_DENIED_NEED_LOGIN";

pub const ERROR_CAPTCHA_REQUIRED: &'static str = "CAPTCHA_REQUIRED";

pub const ERROR_LOGIN_TIMED_OUT: &'static str = "LOGIN_TIMED_OUT";

pub const ERROR_LOGIN_CANCELLED: &'static str = "LOGIN_CANCELLED";

impl ScrapeError {
    /// The code under which this error is reported.
    pub fn code(&self) -> (text: &'static str)
        ensures
            text@ == self.code_text(),
    {
        match self {
            ScrapeError::Transport => ERROR_TRANSPORT,
            ScrapeError::BlockedNeedsLogin => ERROR_ACCESS_DENIED,
            ScrapeError::BlockedNeedsCaptcha => ERROR_CAPTCHA_REQUIRED,
            ScrapeError::InteractiveTimedOut => ERROR_LOGIN_TIMED_OUT,
            ScrapeError::InteractiveCancelled => ERROR_LOGIN_CANCELLED,
        }
    }

    /// The code of each error.
    pub open spec fn code_text(&self) -> Seq<char> {
        match self {
            ScrapeError::Transport => ERROR_TRANSPORT@,
            ScrapeError::BlockedNeedsLogin => ERROR_ACCESS_DENIED@,
            ScrapeError::BlockedNeedsCaptcha => ERROR_CAPTCHA_REQUIRED@,
            ScrapeError::InteractiveTimedOut => ERROR_LOGIN_TIMED_OUT@,
            ScrapeError::InteractiveCancelled => ERROR_LOGIN_CANCELLED@,
        }
    }
}

} // verus!
