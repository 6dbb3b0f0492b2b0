use livebox::cookie_store::{CookieData, CookieStore};
use livebox::model::{Challenge, ScrapeError};
use livebox::page::{
    assemble, capture_first, classify, read_response, unique_id_pattern_list, DouYinReq,
};

fn cookie(name: &str, value: &str) -> CookieData {
    CookieData {
        name: name.to_string(),
        value: value.to_string(),
        domain: ".douyin.com".to_string(),
        path: "/".to_string(),
    }
}

fn jar(items: &[(&str, &str)]) -> CookieStore {
    CookieStore { cookies: items.iter().map(|(n, v)| cookie(n, v)).collect() }
}

const LIVE_BODY: &str = r#"<script>self.__pace_f.push([1,"{\"roomInfo\":{\"room\":{\"id_str\":\"7301\",\"status\":2,\"title\":\"hello\",\"owner\":{\"nickname\":\"n\"},\"toolbar_data\":{}},\"user_unique_id\":\"u-42\"}"])</script>"#;

const ENDED_BODY: &str = r#"<script>"{\"room\":{\"status\":4,\"anchor\":{\"id_str\":\"99\",\"nickname\":\"gone\",\"open_id_str\":\"\"}}}"</script>"#;

#[test]
fn classify_prefers_captcha_over_denial() {
    assert_eq!(classify("<html>fine</html>"), Challenge::Clear);
    assert_eq!(classify("<h1>Access Denied</h1>"), Challenge::NeedsLogin);
    assert_eq!(classify("X-TT-System-Error: 1"), Challenge::NeedsLogin);
    assert_eq!(classify("please solve the captcha"), Challenge::NeedsCaptcha);
    assert_eq!(classify("<div id=middle_page_loading>"), Challenge::NeedsCaptcha);
    assert_eq!(classify("<title>\u{9a8c}\u{8bc1}\u{7801}\u{4e2d}\u{95f4}\u{9875}</title>"), Challenge::NeedsCaptcha);
    assert_eq!(classify("Access Denied, captcha needed"), Challenge::NeedsCaptcha);
    assert_eq!(classify(""), Challenge::Clear);
}

#[test]
fn live_page_yields_room_data() {
    let info = read_response(LIVE_BODY, &jar(&[("a", "1"), ("ttwid", "tok")])).unwrap();
    assert_eq!(
        info.room_info,
        r#"{"id_str":"7301","status":2,"title":"hello","owner":{"nickname":"n"}}"#
    );
    assert_eq!(info.unique_id, "u-42");
    assert_eq!(info.ttwid, "tok");
}

#[test]
fn ended_stream_uses_the_anchor() {
    let info = read_response(ENDED_BODY, &jar(&[])).unwrap();
    assert_eq!(info.room_info, r#"{"id_str":"99","nickname":"gone"}"#);
    assert!(!info.room_info.is_empty());
    assert_eq!(info.unique_id, "");
    assert_eq!(info.ttwid, "");
}

#[test]
fn last_ttwid_cookie_wins() {
    let info = read_response(LIVE_BODY, &jar(&[("ttwid", "old"), ("x", "y"), ("ttwid", "new")])).unwrap();
    assert_eq!(info.ttwid, "new");
}

#[test]
fn page_without_room_data_counts_as_login_wall() {
    let r = read_response("<html>nothing here</html>", &jar(&[]));
    assert_eq!(r.unwrap_err(), ScrapeError::BlockedNeedsLogin);
}

#[test]
fn markers_block_before_extraction() {
    let denied = format!("{} Access Denied", LIVE_BODY);
    assert_eq!(read_response(&denied, &jar(&[])).unwrap_err(), ScrapeError::BlockedNeedsLogin);
    let captcha = format!("{} captcha", LIVE_BODY);
    assert_eq!(read_response(&captcha, &jar(&[])).unwrap_err(), ScrapeError::BlockedNeedsCaptcha);
}

#[test]
fn unique_id_patterns_are_tried_in_order() {
    let list = unique_id_pattern_list();
    assert_eq!(list.len(), 4);
    // strict: escaped JSON closed by a brace
    assert_eq!(
        capture_first(&list, r#"user_unique_id\":\"strict\"} user_unique_id":"plain""#),
        Some("strict".to_string())
    );
    // plain quotes
    assert_eq!(capture_first(&list, r#"{"user_unique_id":"plain"}"#), Some("plain".to_string()));
    // escaped JSON that is not closed by a brace
    assert_eq!(capture_first(&list, r#"user_unique_id\":\"loose\",\"x"#), Some("loose".to_string()));
    assert_eq!(capture_first(&list, "no id here"), None);
    assert_eq!(capture_first(&Vec::new(), r#"{"user_unique_id":"plain"}"#), None);
}

#[test]
fn assemble_closes_and_unescapes() {
    let info = assemble(Some(r#"{\"a\":\"b\""#.to_string()), Some("id".to_string()), "t".to_string()).unwrap();
    assert_eq!(info.room_info, r#"{"a":"b"}"#);
    assert_eq!(info.unique_id, "id");
    assert_eq!(info.ttwid, "t");
    let bare = assemble(Some(String::new()), None, String::new()).unwrap();
    assert_eq!(bare.room_info, "}");
    assert_eq!(bare.unique_id, "");
    assert_eq!(
        assemble(None, Some("id".to_string()), "t".to_string()).unwrap_err(),
        ScrapeError::BlockedNeedsLogin
    );
}

#[test]
fn session_keeps_the_room_data_of_a_success() {
    let mut req = DouYinReq::new("https://live.douyin.com/7301");
    assert_eq!(req.room_url(), "https://live.douyin.com/7301");
    assert_eq!(req.room_info(), "");
    let err = req.get_room_info("Access Denied", &jar(&[])).unwrap_err();
    assert_eq!(err, ScrapeError::BlockedNeedsLogin);
    assert_eq!(req.room_info(), "");
    let info = req.get_room_info(LIVE_BODY, &jar(&[("ttwid", "tok")])).unwrap();
    assert_eq!(req.room_info(), info.room_info);
    let again = req.get_room_info("captcha", &jar(&[])).unwrap_err();
    assert_eq!(again, ScrapeError::BlockedNeedsCaptcha);
    assert_eq!(req.room_info(), info.room_info);
    assert_eq!(req.room_url(), "https://live.douyin.com/7301");
}

#[test]
fn attempt_asks_for_the_home_page_first() {
    let req = DouYinReq::new("https://live.douyin.com/7301");
    let plan = req.plan(Some("sid=1"));
    assert_eq!(plan.len(), 2);
    assert_eq!(plan[0].url, "https://www.douyin.com/");
    assert!(!plan[0].required);
    assert_eq!(plan[0].headers.len(), 13);
    assert!(plan[0].headers.iter().all(|h| h.name != "cookie" && h.name != "referer"));
    assert_eq!(plan[1].url, "https://live.douyin.com/7301");
    assert!(plan[1].required);
    assert_eq!(plan[1].headers.len(), 16);
    let referer = plan[1].headers.iter().find(|h| h.name == "referer").unwrap();
    assert_eq!(referer.value, "https://www.douyin.com/");
    let cookie = plan[1].headers.iter().find(|h| h.name == "cookie").unwrap();
    assert_eq!(cookie.value, "sid=1");
    let bare = req.plan(None);
    assert_eq!(bare[1].headers.len(), 15);
    assert!(bare[1].headers.iter().all(|h| h.name != "cookie"));
}

#[test]
fn ended_stream_gives_the_anchor_as_json() {
    let mut req = DouYinReq::new("https://live.douyin.com/7301");
    let body = r#"status\":4,\"anchor\":{\"nickname\":\"bob\",\"open_id_str\":\"x\"}"#;
    let info = req.get_room_info(body, &jar(&[])).unwrap();
    assert_eq!(info.room_info, r#"{"nickname":"bob"}"#);
    assert_eq!(info.unique_id, "");
    assert_eq!(req.room_info(), r#"{"nickname":"bob"}"#);
}

#[test]
fn ended_stream_without_an_anchor_counts_as_login_wall() {
    let body = r#"status\":4,\"user_unique_id\":\"u-1\"}"#;
    assert_eq!(read_response(body, &jar(&[])).unwrap_err(), ScrapeError::BlockedNeedsLogin);
}

#[test]
fn token_is_looked_for_with_the_short_headers() {
    let req = DouYinReq::new("https://live.douyin.com/7301");
    let plan = req.token_plan();
    assert_eq!(plan.len(), 2);
    assert_eq!(plan[0].url, "https://www.douyin.com/");
    assert!(!plan[0].required);
    let names: Vec<&str> = plan[0].headers.iter().map(|h| h.name.as_str()).collect();
    assert_eq!(names, vec!["accept", "accept-language", "cache-control", "user-agent"]);
    assert_eq!(plan[1].url, "https://live.douyin.com/7301");
    assert!(plan[1].required);
    let names: Vec<&str> = plan[1].headers.iter().map(|h| h.name.as_str()).collect();
    assert_eq!(names, vec!["accept", "accept-language", "cache-control", "referer", "user-agent"]);
    assert_eq!(plan[1].headers[3].value, "https://www.douyin.com/");
    assert_eq!(plan[1].headers[1].value, "zh-CN,zh;q=0.9,en;q=0.8");
    assert_eq!(
        plan[1].headers[0].value,
        "text/html,application/xhtml+xml,application/xml;q=0.9,image/avif,image/webp,image/apng,*/*;q=0.8"
    );
}
