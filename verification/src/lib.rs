//! Decision logic of a live-room scraper.
//!
//! The crate decides and the caller acts: nothing here opens a socket, a
//! file or a window. The caller hands over what it read (a response body,
//! the cookies that came with it, the address of a browser window) and is
//! told what that means and what to do next.
//!
//! - `cookie_store`: the cookie jar and its header form.
//! - `credentials`: where the jar is kept, and saving, loading and
//!   clearing it.
//! - `headers`: the request headers of an HTTP attempt.
//! - `page`: one HTTP attempt, from the requests to make to the verdict on
//!   the response.
//! - `bridge`: the wait for a user to sign in on an interactive surface.
//! - `extraction`: the wait for a rendered page to report a room.
//! - `orchestrator`: the order of a whole scrape.
//! - `model`: results and errors.
//! - `text`: character sequences.
//! - `outside`: the calls into other crates, with the contracts that are
//!   taken on trust.

pub mod bridge;
pub mod cookie_store;
pub mod credentials;
pub mod extraction;
pub mod headers;
pub mod model;
pub mod orchestrator;
pub mod outside;
pub mod page;
pub mod text;
