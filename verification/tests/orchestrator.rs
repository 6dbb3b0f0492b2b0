use livebox::bridge::{
    LoginOutcome, LoginStep, LoginWatch, LOGIN_MAX_CHECKS, LOGIN_POLL_MILLIS,
};
use livebox::cookie_store::{CookieData, CookieStore};
use livebox::credentials::{load_credentials, JarLoad, StoreError};
use livebox::model::{LiveInfo, ScrapeError};
use livebox::orchestrator::{Action, Event, Orchestrator, Phase, LOGIN_TIMEOUT_SECS};

const LIVE_BODY: &str = r#"<script>"{\"roomInfo\":{\"room\":{\"id_str\":\"7301\",\"status\":2,\"owner\":{\"nickname\":\"n\"},\"toolbar_data\":{}},\"user_unique_id\":\"u-42\"}"</script>"#;

const DENIED_BODY: &str = "<html><body><h1>Access Denied</h1></body></html>";

const CAPTCHA_BODY: &str = "<html><script src=\"/captcha.js\"></script></html>";

/// What the simulated site answers to one HTTP attempt.
enum Reply {
    Page(&'static str),
    NetworkDown,
}

/// What the simulated sign-in surface does.
enum Surface {
    /// Reports this address at the given look (counted from 1).
    ReportsAt(u32, &'static str),
    /// Never reports anything.
    Silent,
    /// Is closed by the user at the given look.
    ClosedAt(u32),
}

struct Trace {
    verdict: Result<LiveInfo, ScrapeError>,
    fetch_headers: Vec<Option<String>>,
    logins: usize,
    persisted: Vec<CookieStore>,
    surface_opened: usize,
    surface_closed: usize,
    looks: u32,
    phase: Phase,
}

fn jar(items: &[(&str, &str)]) -> CookieStore {
    CookieStore {
        cookies: items
            .iter()
            .map(|(n, v)| CookieData {
                name: n.to_string(),
                value: v.to_string(),
                domain: ".douyin.com".to_string(),
                path: "/".to_string(),
            })
            .collect(),
    }
}

fn sign_in(surface: &Surface, trace: &mut Trace) -> LoginOutcome {
    let mut watch = LoginWatch::new();
    trace.surface_opened += 1;
    loop {
        trace.looks += 1;
        let step = match surface {
            Surface::ClosedAt(n) if *n == trace.looks => watch.surface_closed(),
            Surface::ReportsAt(n, url) if *n == trace.looks => watch.observe(url),
            _ => watch.observe("https://www.douyin.com/"),
        };
        match step {
            LoginStep::KeepWaiting => {}
            LoginStep::Finished { outcome, close_surface } => {
                if close_surface || matches!(surface, Surface::ClosedAt(_)) {
                    trace.surface_closed += 1;
                }
                assert!(!watch.is_pending());
                return outcome;
            }
            LoginStep::Over => panic!("looked at a wait that was over"),
        }
    }
}

/// Runs one scrape against a simulated site, surface and store.
fn scrape(load: JarLoad, replies: Vec<Reply>, surface: Surface) -> Trace {
    let mut trace = Trace {
        verdict: Err(ScrapeError::Transport),
        fetch_headers: Vec::new(),
        logins: 0,
        persisted: Vec::new(),
        surface_opened: 0,
        surface_closed: 0,
        looks: 0,
        phase: Phase::Idle,
    };
    let mut replies = replies.into_iter();
    let mut orchestrator = Orchestrator::new();
    assert_eq!(orchestrator.phase(), Phase::Idle);
    let mut action = orchestrator.step(Event::Begin(load));
    loop {
        action = match action {
            Action::Fetch { cookie_header } => {
                trace.fetch_headers.push(cookie_header);
                match replies.next().expect("an attempt too many") {
                    Reply::Page(body) => orchestrator.on_response(body, &jar(&[("ttwid", "tok")])),
                    Reply::NetworkDown => {
                        orchestrator.step(Event::Attempt(Err(ScrapeError::Transport)))
                    }
                }
            }
            Action::PersistThenFetch { jar: fresh, fresh_header } => {
                trace.persisted.push(fresh);
                trace.fetch_headers.push(Some(fresh_header));
                match replies.next().expect("an attempt too many") {
                    Reply::Page(body) => orchestrator.on_response(body, &jar(&[("ttwid", "tok2")])),
                    Reply::NetworkDown => {
                        orchestrator.step(Event::Attempt(Err(ScrapeError::Transport)))
                    }
                }
            }
            Action::RequestLogin { url, timeout_secs } => {
                assert_eq!(url, "https://www.douyin.com/");
                assert_eq!(timeout_secs, LOGIN_TIMEOUT_SECS);
                assert!(orchestrator.is_login_pending());
                trace.logins += 1;
                let outcome = sign_in(&surface, &mut trace);
                orchestrator.step(Event::Login(outcome))
            }
            Action::Succeed(info) => {
                trace.verdict = Ok(info);
                break;
            }
            Action::Fail(e) => {
                trace.verdict = Err(e);
                break;
            }
            Action::Nothing => panic!("the orchestrator asked for nothing before the end"),
        };
    }
    trace.phase = orchestrator.phase();
    assert!(!orchestrator.is_login_pending());
    // A scrape that has ended answers nothing.
    assert!(matches!(orchestrator.step(Event::Begin(JarLoad::NotFound)), Action::Nothing));
    assert!(matches!(orchestrator.on_response(LIVE_BODY, &jar(&[])), Action::Nothing));
    assert!(matches!(orchestrator.step(Event::Login(LoginOutcome::TimedOut)), Action::Nothing));
    assert_eq!(orchestrator.phase(), trace.phase);
    trace
}

#[test]
fn clear_page_succeeds_at_once() {
    let t = scrape(JarLoad::Found(jar(&[("sid", "1"), ("k", "v")])), vec![Reply::Page(LIVE_BODY)], Surface::Silent);
    let info = t.verdict.unwrap();
    assert_eq!(info.room_info, r#"{"id_str":"7301","status":2,"owner":{"nickname":"n"}}"#);
    assert_eq!(info.unique_id, "u-42");
    assert_eq!(info.ttwid, "tok");
    assert_eq!(t.fetch_headers, vec![Some("sid=1; k=v".to_string())]);
    assert_eq!(t.logins, 0);
    assert!(t.persisted.is_empty());
    assert_eq!(t.phase, Phase::Success);
}

#[test]
fn absent_jar_means_a_fetch_without_cookies() {
    assert_eq!(load_credentials(&JarLoad::NotFound), Err(StoreError::NotFound));
    let t = scrape(JarLoad::NotFound, vec![Reply::Page(LIVE_BODY)], Surface::Silent);
    assert!(t.verdict.is_ok());
    assert_eq!(t.fetch_headers, vec![None]);
    assert_eq!(t.phase, Phase::Success);
}

#[test]
fn corrupt_jar_means_a_fetch_without_cookies() {
    assert_eq!(load_credentials(&JarLoad::Corrupt), Err(StoreError::Parse));
    let t = scrape(JarLoad::Corrupt, vec![Reply::Page(LIVE_BODY)], Surface::Silent);
    assert!(t.verdict.is_ok());
    assert_eq!(t.fetch_headers, vec![None]);
}

#[test]
fn denial_asks_for_one_sign_in_and_retries_once() {
    let t = scrape(
        JarLoad::NotFound,
        vec![Reply::Page(DENIED_BODY), Reply::Page(LIVE_BODY)],
        Surface::ReportsAt(3, "https://www.douyin.com/#__COOKIES__=sid%3Dnew%3B%20ttwid%3Dt"),
    );
    let info = t.verdict.unwrap();
    assert_eq!(info.ttwid, "tok2");
    assert_eq!(t.logins, 1);
    assert_eq!(t.looks, 3);
    assert_eq!(t.surface_opened, 1);
    assert_eq!(t.surface_closed, 1);
    assert_eq!(t.persisted.len(), 1);
    assert_eq!(t.persisted[0].to_cookie_string(), "sid=new; ttwid=t");
    assert_eq!(t.persisted[0].cookies[0].domain, ".douyin.com");
    assert_eq!(t.fetch_headers, vec![None, Some("sid=new; ttwid=t".to_string())]);
    assert_eq!(t.phase, Phase::Success);
}

#[test]
fn denial_twice_fails_without_a_second_sign_in() {
    let t = scrape(
        JarLoad::Found(jar(&[("sid", "old")])),
        vec![Reply::Page(DENIED_BODY), Reply::Page(DENIED_BODY)],
        Surface::ReportsAt(1, "https://www.douyin.com/#__COOKIES__=sid%3Dnew"),
    );
    assert_eq!(t.verdict.unwrap_err(), ScrapeError::BlockedNeedsLogin);
    assert_eq!(t.logins, 1);
    assert_eq!(t.fetch_headers.len(), 2);
    assert_eq!(t.surface_opened, 1);
    assert_eq!(t.surface_closed, 1);
    assert_eq!(t.phase, Phase::Failed);
}

#[test]
fn page_without_room_data_is_treated_as_a_login_wall() {
    let t = scrape(
        JarLoad::NotFound,
        vec![Reply::Page("<html>changed markup</html>"), Reply::Page("<html>changed markup</html>")],
        Surface::ReportsAt(1, "https://www.douyin.com/#__COOKIES__=sid%3Dnew"),
    );
    assert_eq!(t.verdict.unwrap_err(), ScrapeError::BlockedNeedsLogin);
    assert_eq!(t.logins, 1);
    assert_eq!(t.fetch_headers.len(), 2);
}

#[test]
fn captcha_fails_at_once() {
    let t = scrape(JarLoad::NotFound, vec![Reply::Page(CAPTCHA_BODY)], Surface::Silent);
    assert_eq!(t.verdict.unwrap_err(), ScrapeError::BlockedNeedsCaptcha);
    assert_eq!(t.logins, 0);
    assert_eq!(t.fetch_headers.len(), 1);
    assert!(t.persisted.is_empty());
    assert_eq!(t.surface_opened, 0);
    assert_eq!(t.phase, Phase::Failed);
}

#[test]
fn captcha_on_the_retry_fails() {
    let t = scrape(
        JarLoad::NotFound,
        vec![Reply::Page(DENIED_BODY), Reply::Page(CAPTCHA_BODY)],
        Surface::ReportsAt(2, "https://www.douyin.com/#__COOKIES__=sid%3Dnew"),
    );
    assert_eq!(t.verdict.unwrap_err(), ScrapeError::BlockedNeedsCaptcha);
    assert_eq!(t.logins, 1);
    assert_eq!(t.fetch_headers.len(), 2);
}

#[test]
fn network_failure_is_surfaced_without_a_sign_in() {
    let t = scrape(JarLoad::NotFound, vec![Reply::NetworkDown], Surface::Silent);
    assert_eq!(t.verdict.unwrap_err(), ScrapeError::Transport);
    assert_eq!(t.logins, 0);
    assert_eq!(t.fetch_headers.len(), 1);
    let t = scrape(
        JarLoad::NotFound,
        vec![Reply::Page(DENIED_BODY), Reply::NetworkDown],
        Surface::ReportsAt(1, "https://www.douyin.com/#__COOKIES__=sid%3Dnew"),
    );
    assert_eq!(t.verdict.unwrap_err(), ScrapeError::Transport);
    assert_eq!(t.logins, 1);
}

#[test]
fn sign_in_that_times_out_fails_and_closes_the_surface() {
    let t = scrape(JarLoad::NotFound, vec![Reply::Page(DENIED_BODY)], Surface::Silent);
    assert_eq!(t.verdict.unwrap_err(), ScrapeError::InteractiveTimedOut);
    assert_eq!(t.logins, 1);
    assert_eq!(t.looks, LOGIN_MAX_CHECKS);
    assert_eq!(t.surface_opened, 1);
    assert_eq!(t.surface_closed, 1);
    assert_eq!(t.fetch_headers.len(), 1);
    assert!(t.persisted.is_empty());
    assert_eq!(t.phase, Phase::Failed);
}

#[test]
fn sign_in_that_is_closed_fails_as_cancelled() {
    let t = scrape(JarLoad::NotFound, vec![Reply::Page(DENIED_BODY)], Surface::ClosedAt(5));
    assert_eq!(t.verdict.unwrap_err(), ScrapeError::InteractiveCancelled);
    assert_eq!(t.logins, 1);
    assert_eq!(t.looks, 5);
    assert_eq!(t.surface_closed, 1);
    assert_eq!(t.fetch_headers.len(), 1);
}

#[test]
fn result_without_room_data_is_no_success() {
    let empty = LiveInfo { room_info: String::new(), ttwid: "t".to_string(), unique_id: "u".to_string() };
    let mut o = Orchestrator::new();
    o.step(Event::Begin(JarLoad::NotFound));
    assert!(matches!(o.step(Event::Attempt(Ok(empty.clone()))), Action::RequestLogin { .. }));
    assert_eq!(o.phase(), Phase::AwaitingInteractiveAuth);
    o.step(Event::Login(LoginOutcome::Cookies("a=1".to_string())));
    assert_eq!(o.phase(), Phase::Retrying);
    assert!(matches!(o.step(Event::Attempt(Ok(empty))), Action::Fail(ScrapeError::BlockedNeedsLogin)));
    assert_eq!(o.phase(), Phase::Failed);
}

#[test]
fn events_out_of_turn_are_ignored() {
    let mut o = Orchestrator::new();
    assert!(matches!(o.on_response(LIVE_BODY, &jar(&[])), Action::Nothing));
    assert!(matches!(o.step(Event::Login(LoginOutcome::TimedOut)), Action::Nothing));
    assert!(matches!(o.step(Event::Attempt(Err(ScrapeError::Transport))), Action::Nothing));
    assert_eq!(o.phase(), Phase::Idle);
    assert!(matches!(o.step(Event::Begin(JarLoad::NotFound)), Action::Fetch { cookie_header: None }));
    assert!(matches!(o.step(Event::Begin(JarLoad::NotFound)), Action::Nothing));
    assert!(matches!(o.step(Event::Login(LoginOutcome::Cancelled)), Action::Nothing));
    assert_eq!(o.phase(), Phase::Fetching);
    assert!(matches!(o.on_response(DENIED_BODY, &jar(&[])), Action::RequestLogin { .. }));
    assert!(matches!(o.on_response(LIVE_BODY, &jar(&[])), Action::Nothing));
    assert!(matches!(o.step(Event::Begin(JarLoad::NotFound)), Action::Nothing));
    assert_eq!(o.phase(), Phase::AwaitingInteractiveAuth);
}

#[test]
fn sign_in_budget_is_the_time_of_the_wait() {
    assert_eq!(LOGIN_TIMEOUT_SECS, 600);
    assert_eq!(LOGIN_TIMEOUT_SECS * 1000, u64::from(LOGIN_MAX_CHECKS) * LOGIN_POLL_MILLIS);
}

#[test]
fn error_codes() {
    assert_eq!(ScrapeError::BlockedNeedsLogin.code(), "ACCESS_DENIED_NEED_LOGIN");
    assert_eq!(ScrapeError::BlockedNeedsCaptcha.code(), "CAPTCHA_REQUIRED");
    assert_eq!(ScrapeError::Transport.code(), "TRANSPORT_ERROR");
    assert_eq!(ScrapeError::InteractiveTimedOut.code(), "LOGIN_TIMED_OUT");
    assert_eq!(ScrapeError::InteractiveCancelled.code(), "LOGIN_CANCELLED");
}
