//! The stored credentials: where the jar is kept, and what saving, loading
//! and clearing it come to. The caller touches the disk; this module says
//! what to read, what to write and what to report.

use vstd::prelude::*;
use crate::cookie_store::{
    distinct_keys, format_header, parse_header, CookieStore, CookieView,
};

verus! {

/// The domain that stored cookies belong to.
pub const SITE_DOMAIN: &'static str = ".douyin.com";

/// The site's home page, which is also where a user signs in.
pub const HOME_URL: &'static str = "https://www.douyin.com/";

/// The directory under the user's home that holds the jar.
pub const STORE_DIR: &'static str = ".livebox";

/// The file that holds the jar.
pub const STORE_FILE: &'static str = "douyin_cookies.json";

/// The base directory where neither home variable is set.
pub const CURRENT_DIR: &'static str = ".";

/// What was found where the jar is kept.
#[derive(Debug)]
pub enum JarLoad {
    /// A file that holds this jar.
    Found(CookieStore),
    /// No file.
    NotFound,
    /// A file that does not hold a jar.
    Corrupt,
}

/// A `JarLoad` as the contracts see it.
pub enum JarLoadView {
    Found(Seq<CookieView>),
    NotFound,
    Corrupt,
}

impl View for JarLoad {
    type V = JarLoadView;

    open spec fn view(&self) -> JarLoadView {
        match self {
            JarLoad::Found(jar) => JarLoadView::Found(jar@),
            JarLoad::NotFound => JarLoadView::NotFound,
            JarLoad::Corrupt => JarLoadView::Corrupt,
        }
    }
}

/// Why stored credentials could not be handed out.
#[derive(Debug, Clone, Copy, PartialEq, Eq, Structural)]
pub enum StoreError {
    /// Nothing is stored.
    NotFound,
    /// What is stored is no jar.
    Parse,
}

/// What clearing the credentials has to do.
#[derive(Debug, Clone, Copy, PartialEq, Eq, Structural)]
pub enum ClearPlan {
    /// Remove the file.
    Remove,
    /// Nothing is stored: report that there was nothing to clear.
    NothingToClear,
}

/// Where the jar is kept: the parts of its path, outermost first.
#[derive(Debug)]
pub struct StorePath {
    /// The user's home directory.
    pub base: String,
    /// The directory under it.
    pub dir: String,
    /// The file in that directory.
    pub file: String,
}

/// The base directory: `home` where it is set, else `user_profile` where
/// that is set, else the current directory.
pub open spec fn base_dir(home: Option<Seq<char>>, user_profile: Option<Seq<char>>) -> Seq<char> {
    match home {
        Some(h) => h,
        None => match user_profile {
            Some(p) => p,
            None => CURRENT_DIR@,
        },
    }
}

/// The header that a loaded jar gives to a request: none where no jar
/// could be read.
pub open spec fn saved_header(load: JarLoadView) -> Option<Seq<char>> {
    match load {
        JarLoadView::Found(jar) => Some(format_header(jar)),
        _ => None,
    }
}

/// What loading the credentials reports.
pub open spec fn loaded(load: JarLoadView) -> Result<Seq<char>, StoreError> {
    match load {
        JarLoadView::Found(jar) => Ok(format_header(jar)),
        JarLoadView::NotFound => Err(StoreError::NotFound),
        JarLoadView::Corrupt => Err(StoreError::Parse),
    }
}

impl CookieStore {
    /// Where the jar is kept, from the values of the environment's `HOME`
    /// and `USERPROFILE`: under the first of them that is set, or under
    /// the current directory.
    pub fn get_default_path(home: Option<String>, user_profile: Option<String>) -> (path: StorePath)
        ensures
            path.base@ == base_dir(
                match home {
                    Some(h) => Some(h@),
                    None => None,
                },
                match user_profile {
                    Some(p) => Some(p@),
                    None => None,
                },
            ),
            path.dir@ == STORE_DIR@,
            path.file@ == STORE_FILE@,
    {
        let base = match home {
            Some(h) => h,
            None => match user_profile {
                Some(p) => p,
                None => CURRENT_DIR.to_owned(),
            },
        };
        StorePath { base, dir: STORE_DIR.to_owned(), file: STORE_FILE.to_owned() }
    }
}

/// The jar to store for a cookie header that the user supplied: the header
/// read for the site's domain. It replaces whatever was stored.
pub fn save_credentials(cookie_header: &str) -> (jar: CookieStore)
    ensures
        jar@ == parse_header(cookie_header@, SITE_DOMAIN@),
        distinct_keys(jar@),
{
    CookieStore::from_cookie_string(cookie_header, SITE_DOMAIN)
}

/// The stored credentials as a cookie header. Nothing stored is
/// `NotFound`; a file that holds no jar is `Parse`.
pub fn load_credentials(load: &JarLoad) -> (r: Result<String, StoreError>)
    ensures
        match r {
            Ok(header) => loaded(load@) == Ok::<Seq<char>, StoreError>(header@),
            Err(e) => loaded(load@) == Err::<Seq<char>, StoreError>(e),
        },
{
    match load {
        JarLoad::Found(jar) => Ok(jar.to_cookie_string()),
        JarLoad::NotFound => Err(StoreError::NotFound),
        JarLoad::Corrupt => Err(StoreError::Parse),
    }
}

/// What clearing has to do, given whether a file is there.
pub open spec fn clear_plan(present: bool) -> ClearPlan {
    if present {
        ClearPlan::Remove
    } else {
        ClearPlan::NothingToClear
    }
}

/// Whether a file is there once `plan` has been carried out.
pub open spec fn present_after(present: bool, plan: ClearPlan) -> bool {
    match plan {
        ClearPlan::Remove => false,
        ClearPlan::NothingToClear => present,
    }
}

/// Clearing twice: once the first plan has been carried out, the second
/// finds nothing to clear.
pub proof fn law_clear_twice(present: bool)
    ensures
        clear_plan(present_after(present, clear_plan(present))) == ClearPlan::NothingToClear,
{
}

/// What clearing has to do, given whether a file is there: remove it, or
/// report that there was nothing to clear. Clearing what is absent is no
/// error.
pub fn clear_credentials(present: bool) -> (plan: ClearPlan)
    ensures
        plan == clear_plan(present),
{
    if present {
        ClearPlan::Remove
    } else {
        ClearPlan::NothingToClear
    }
}

} // verus!
