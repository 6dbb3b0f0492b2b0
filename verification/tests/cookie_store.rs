use livebox::cookie_store::{CookieData, CookieStore};
use livebox::credentials::{
    clear_credentials, load_credentials, save_credentials, ClearPlan, JarLoad, StoreError,
};

fn pairs(store: &CookieStore) -> Vec<(String, String)> {
    store.cookies.iter().map(|c| (c.name.clone(), c.value.clone())).collect()
}

fn pair(name: &str, value: &str) -> (String, String) {
    (name.to_string(), value.to_string())
}

fn cookie(name: &str, value: &str, domain: &str, path: &str) -> CookieData {
    CookieData {
        name: name.to_string(),
        value: value.to_string(),
        domain: domain.to_string(),
        path: path.to_string(),
    }
}

#[test]
fn new_store_is_empty() {
    let store = CookieStore::new();
    assert!(store.cookies.is_empty());
    assert_eq!(store.to_cookie_string(), "");
    assert!(store.has_distinct_keys());
}

#[test]
fn parses_pairs_in_order() {
    let store = CookieStore::from_cookie_string("a=1; b=2;c=3", ".douyin.com");
    assert_eq!(pairs(&store), vec![pair("a", "1"), pair("b", "2"), pair("c", "3")]);
    for c in &store.cookies {
        assert_eq!(c.domain, ".douyin.com");
        assert_eq!(c.path, "/");
    }
}

#[test]
fn segments_without_equals_are_skipped() {
    let store = CookieStore::from_cookie_string("junk; a=1; ; more junk ;b=2; tail", "d");
    assert_eq!(pairs(&store), vec![pair("a", "1"), pair("b", "2")]);
    assert!(CookieStore::from_cookie_string("", "d").cookies.is_empty());
    assert!(CookieStore::from_cookie_string(";;;", "d").cookies.is_empty());
    assert!(CookieStore::from_cookie_string("no pairs at all", "d").cookies.is_empty());
}

#[test]
fn dropping_a_malformed_segment_changes_nothing() {
    let with = CookieStore::from_cookie_string("a=1;oops;b=2", "d");
    let without = CookieStore::from_cookie_string("a=1;b=2", "d");
    assert_eq!(pairs(&with), pairs(&without));
    let lead = CookieStore::from_cookie_string("oops;b=2", "d");
    assert_eq!(pairs(&lead), vec![pair("b", "2")]);
    let trail = CookieStore::from_cookie_string("a=1;oops", "d");
    assert_eq!(pairs(&trail), vec![pair("a", "1")]);
}

#[test]
fn names_and_values_are_trimmed() {
    let store = CookieStore::from_cookie_string("  a  =  1  ;\tb\t=\t2\n;\u{3000}c\u{a0}=\u{2003}3\u{85}", "d");
    assert_eq!(pairs(&store), vec![pair("a", "1"), pair("b", "2"), pair("c", "3")]);
    let inner = CookieStore::from_cookie_string(" a b = c d ", "d");
    assert_eq!(pairs(&inner), vec![pair("a b", "c d")]);
}

#[test]
fn only_the_first_equals_splits() {
    let store = CookieStore::from_cookie_string("token=abc==; =v; k=; x = ", "d");
    assert_eq!(
        pairs(&store),
        vec![pair("token", "abc=="), pair("", "v"), pair("k", ""), pair("x", "")]
    );
}

#[test]
fn of_a_repeated_name_the_first_stays() {
    let store = CookieStore::from_cookie_string("a=1; a=2", "d");
    assert_eq!(pairs(&store), vec![pair("a", "1")]);
    assert!(store.has_distinct_keys());
    let store = CookieStore::from_cookie_string("a=1; b=2; a=3;junk; b =4; c=5; =x; =y", "d");
    assert_eq!(pairs(&store), vec![pair("a", "1"), pair("b", "2"), pair("c", "5"), pair("", "x")]);
    assert!(store.has_distinct_keys());
    // names are told apart as they stand: case counts
    let store = CookieStore::from_cookie_string("a=1; A=2", "d");
    assert_eq!(pairs(&store), vec![pair("a", "1"), pair("A", "2")]);
}

#[test]
fn no_cookie_stands_twice_in_a_jar_that_was_read() {
    let headers = ["", "a=1", "a=1;a=1;a=1", "x=1; y=2; x=3; y=4", "=;=;=", " k = v ;k=w;K=v"];
    for header in headers {
        let store = CookieStore::from_cookie_string(header, ".douyin.com");
        assert!(store.has_distinct_keys(), "{:?}", header);
    }
}

#[test]
fn distinct_keys_look_at_name_domain_and_path() {
    let jar = CookieStore {
        cookies: vec![
            cookie("a", "1", "x", "/"),
            cookie("a", "1", "y", "/"),
            cookie("a", "1", "x", "/p"),
            cookie("b", "1", "x", "/"),
        ],
    };
    assert!(jar.has_distinct_keys());
    let twice = CookieStore {
        cookies: vec![cookie("a", "1", "x", "/"), cookie("b", "2", "x", "/"), cookie("a", "3", "x", "/")],
    };
    assert!(!twice.has_distinct_keys());
}

#[test]
fn header_joins_with_semicolon_and_space() {
    let jar = CookieStore {
        cookies: vec![cookie("a", "1", "x", "/"), cookie("b", "2", "y", "/p"), cookie("c", "", "z", "/")],
    };
    assert_eq!(jar.to_cookie_string(), "a=1; b=2; c=");
    let one = CookieStore { cookies: vec![cookie("only", "v", "x", "/")] };
    assert_eq!(one.to_cookie_string(), "only=v");
}

#[test]
fn round_trip_keeps_names_and_values() {
    let jar = CookieStore {
        cookies: vec![
            cookie("ttwid", "1%7Cabc", ".a.com", "/x"),
            cookie("sid", "v=with=equals", ".b.com", "/"),
            cookie("", "nameless", ".c.com", "/"),
            cookie("empty", "", ".c.com", "/"),
            cookie("sp ace", "in ner", ".c.com", "/"),
        ],
    };
    let back = CookieStore::from_cookie_string(&jar.to_cookie_string(), ".douyin.com");
    assert_eq!(pairs(&back), pairs(&jar));
    for c in &back.cookies {
        assert_eq!(c.domain, ".douyin.com");
        assert_eq!(c.path, "/");
    }
    let empty = CookieStore::new();
    assert!(CookieStore::from_cookie_string(&empty.to_cookie_string(), "d").cookies.is_empty());
}

#[test]
fn round_trip_fails_on_an_unsafe_cookie() {
    let jar = CookieStore { cookies: vec![cookie("a", "1;2", "x", "/")] };
    let back = CookieStore::from_cookie_string(&jar.to_cookie_string(), "x");
    assert_eq!(pairs(&back), vec![pair("a", "1")]);
    let spaced = CookieStore { cookies: vec![cookie(" a", "1", "x", "/")] };
    let back = CookieStore::from_cookie_string(&spaced.to_cookie_string(), "x");
    assert_eq!(pairs(&back), vec![pair("a", "1")]);
}

#[test]
fn round_trip_keeps_the_first_of_a_name() {
    // Two cookies of one name in two domains: a header tells no domains apart.
    let jar = CookieStore { cookies: vec![cookie("a", "1", "x", "/"), cookie("a", "2", "y", "/")] };
    assert!(jar.has_distinct_keys());
    assert_eq!(jar.to_cookie_string(), "a=1; a=2");
    let back = CookieStore::from_cookie_string(&jar.to_cookie_string(), "x");
    assert_eq!(pairs(&back), vec![pair("a", "1")]);
}

#[test]
fn parse_then_format_normalises() {
    let store = CookieStore::from_cookie_string(" a = 1 ;; b=2 ;junk", "d");
    assert_eq!(store.to_cookie_string(), "a=1; b=2");
}

#[test]
fn what_was_read_is_read_again_without_loss() {
    let headers = ["", "a=1", " x = y = z ;;q;\t=;k= v v ", "==;;= =", "a=1; a=2; a=1"];
    for header in headers {
        let first = CookieStore::from_cookie_string(header, "one");
        let second = CookieStore::from_cookie_string(&first.to_cookie_string(), "two");
        assert_eq!(pairs(&second), pairs(&first), "{:?}", header);
        for c in &second.cookies {
            assert_eq!(c.domain, "two");
            assert_eq!(c.path, "/");
        }
    }
}

#[test]
fn first_and_last_value() {
    let jar = CookieStore {
        cookies: vec![
            cookie("ttwid", "one", "x", "/"),
            cookie("other", "o", "x", "/"),
            cookie("ttwid", "two", "x", "/"),
        ],
    };
    assert_eq!(jar.first_value("ttwid"), "one");
    assert_eq!(jar.last_value("ttwid"), "two");
    assert_eq!(jar.first_value("other"), "o");
    assert_eq!(jar.last_value("other"), "o");
    assert_eq!(jar.first_value("missing"), "");
    assert_eq!(jar.last_value("missing"), "");
    assert_eq!(CookieStore::new().first_value("ttwid"), "");
    assert_eq!(CookieStore::new().last_value("ttwid"), "");
}

#[test]
fn default_path_prefers_home() {
    let p = CookieStore::get_default_path(Some("/home/u".to_string()), Some("C:\\Users\\u".to_string()));
    assert_eq!(p.base, "/home/u");
    assert_eq!(p.dir, ".livebox");
    assert_eq!(p.file, "douyin_cookies.json");
    let p = CookieStore::get_default_path(None, Some("C:\\Users\\u".to_string()));
    assert_eq!(p.base, "C:\\Users\\u");
    let p = CookieStore::get_default_path(None, None);
    assert_eq!(p.base, ".");
    assert_eq!(p.dir, ".livebox");
    assert_eq!(p.file, "douyin_cookies.json");
}

#[test]
fn save_credentials_reads_for_the_site_domain() {
    let jar = save_credentials("sid=1; ttwid=t");
    assert_eq!(pairs(&jar), vec![pair("sid", "1"), pair("ttwid", "t")]);
    for c in &jar.cookies {
        assert_eq!(c.domain, ".douyin.com");
        assert_eq!(c.path, "/");
    }
}

#[test]
fn load_credentials_reports_what_was_found() {
    let found = JarLoad::Found(save_credentials("sid=1;ttwid=t"));
    assert_eq!(load_credentials(&found), Ok("sid=1; ttwid=t".to_string()));
    assert_eq!(load_credentials(&JarLoad::Found(CookieStore::new())), Ok(String::new()));
    assert_eq!(load_credentials(&JarLoad::NotFound), Err(StoreError::NotFound));
    assert_eq!(load_credentials(&JarLoad::Corrupt), Err(StoreError::Parse));
}

#[test]
fn clearing_twice_finds_nothing_the_second_time() {
    let mut present = true;
    let first = clear_credentials(present);
    assert_eq!(first, ClearPlan::Remove);
    if first == ClearPlan::Remove {
        present = false;
    }
    let second = clear_credentials(present);
    assert_eq!(second, ClearPlan::NothingToClear);
}
