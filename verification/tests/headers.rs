use livebox::headers::{home_headers, room_headers, Header};

fn value_of<'a>(list: &'a [Header], name: &str) -> Option<&'a str> {
    list.iter().find(|h| h.name == name).map(|h| h.value.as_str())
}

fn names(list: &[Header]) -> Vec<&str> {
    list.iter().map(|h| h.name.as_str()).collect()
}

#[test]
fn home_request_looks_like_a_browser() {
    let list = home_headers();
    assert_eq!(
        names(&list),
        vec![
            "accept",
            "accept-language",
            "cache-control",
            "dnt",
            "sec-ch-ua",
            "sec-ch-ua-mobile",
            "sec-ch-ua-platform",
            "sec-fetch-dest",
            "sec-fetch-mode",
            "sec-fetch-site",
            "sec-fetch-user",
            "upgrade-insecure-requests",
            "user-agent",
        ]
    );
    assert_eq!(value_of(&list, "sec-fetch-site"), Some("none"));
    assert_eq!(value_of(&list, "accept-language"), Some("zh-CN,zh;q=0.9,en;q=0.8,en-GB;q=0.7,en-US;q=0.6"));
    assert_eq!(
        value_of(&list, "user-agent"),
        Some("Mozilla/5.0 (Windows NT 10.0; Win64; x64) AppleWebKit/537.36 (KHTML, like Gecko) Chrome/131.0.0.0 Safari/537.36")
    );
    assert_eq!(value_of(&list, "referer"), None);
    assert_eq!(value_of(&list, "cookie"), None);
}

#[test]
fn room_request_names_the_home_page_as_referer() {
    let list = room_headers(None);
    assert_eq!(list.len(), 15);
    assert_eq!(value_of(&list, "referer"), Some("https://www.douyin.com/"));
    assert_eq!(value_of(&list, "sec-fetch-site"), Some("same-origin"));
    assert_eq!(value_of(&list, "priority"), Some("u=0, i"));
    assert_eq!(value_of(&list, "sec-ch-ua"), Some("\"Chromium\";v=\"131\", \"Not_A Brand\";v=\"24\""));
    assert_eq!(value_of(&list, "cookie"), None);
}

#[test]
fn room_request_carries_the_cookies_last() {
    let list = room_headers(Some("sid=1; ttwid=t"));
    assert_eq!(list.len(), 16);
    assert_eq!(list[15].name, "cookie");
    assert_eq!(list[15].value, "sid=1; ttwid=t");
    assert_eq!(names(&list)[..15], names(&room_headers(None))[..]);
    let empty = room_headers(Some(""));
    assert_eq!(value_of(&empty, "cookie"), Some(""));
}
