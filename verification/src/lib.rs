//! Verified core of a small record-keeping service: member profiles and the
//! weight measurements taken of them, served over HTTP from a SQL store.
//!
//! The library holds what the service decides; reading requests, talking to
//! the database and sending answers is left to the program around it.
//!
//! - [`member`] and [`weight`]: the two resources, each with create, list
//!   and delete.
//! - [`store`]: the statements they issue, and a model of the two tables.
//! - [`route`]: the routes of the site and how a request finds its handler;
//!   the site itself is built by [`rocket`].
//! - [`startup`]: the migrations that must succeed before anything is served.
//! - [`error`], [`reply`], [`ident`], [`text`]: failures, answers,
//!   identifiers, and numbers as text.
//! - [`laws`]: what holds across requests.

use vstd::prelude::*;
use crate::route::{Handler, Method, Route, RouteView, Segment, SegmentView, Site};
use crate::text::{decimal, decimal_text};

pub mod error;
pub mod ident;
pub mod laws;
pub mod member;
pub mod reply;
pub mod route;
pub mod startup;
pub mod store;
pub mod text;
pub mod weight;

verus! {

/// The greeting served at the site root.
pub open spec fn greeting() -> Seq<char> {
    "Hello, world!"@
}

/// Body of `GET /`.
pub fn index() -> (body: &'static str)
    ensures
        body@ == greeting(),
{
    "Hello, world!"
}

/// Body of `GET /hello/world`.
pub fn world() -> (body: &'static str)
    ensures
        body@ == greeting(),
{
    "Hello, world!"
}

/// The reason phrase that `rocket::http::Status::reason_lossy` has for a
/// status code: the canonical phrase of a known code, and the name of its
/// class for any other.
pub uninterp spec fn reason_phrase(code: u16) -> Seq<char>;

/// What `rocket::http::Status` displays for a status code: the code in
/// decimal, a space, and its reason phrase.
pub open spec fn status_line(code: u16) -> Seq<char> {
    decimal_text(code as nat) + seq![' '] + reason_phrase(code)
}

/// The text of a status, as the `Display` of `rocket::http::Status` writes
/// it. Trusted: the text is the code in decimal, a space, and the reason
/// phrase, which depends on the code alone and which [`reason_phrase`]
/// names.
#[verifier::external_body]
fn status_text(code: u16) -> (text: String)
    ensures
        text@ == decimal_text(code as nat) + seq![' '] + reason_phrase(code),
{
    rocket::http::Status::new(code).to_string()
}

/// The diagnostic sent when nothing else answers: the status, and the path
/// that was asked for.
pub open spec fn diagnostic(status: Seq<char>, uri: Seq<char>) -> Seq<char> {
    "'"@ + status + "' \n I couldn't find '"@ + uri + "'. Try something else?"@
}

/// Writes the diagnostic for a status given as text.
pub fn diagnose(status: &str, uri: &str) -> (body: String)
    ensures
        body@ == diagnostic(status@, uri@),
{
    let mut body = String::from_str("'");
    body.append(status);
    body.append("' \n I couldn't find '");
    body.append(uri);
    body.append("'. Try something else?");
    body
}

/// Body of the answer to a request that no route served, or that a handler
/// failed with `status`: the status as the server displays it, and `uri`.
pub fn default_catcher(status: u16, uri: &str) -> (body: String)
    ensures
        body@ == diagnostic(status_line(status), uri@),
{
    let status = status_text(status);
    diagnose(status.as_str(), uri)
}

/// What `GET /delay/<seconds>` answers once the delay has passed.
pub open spec fn waited(seconds: u64) -> Seq<char> {
    "Waited for "@ + decimal_text(seconds as nat) + " seconds"@
}

/// Body of `GET /delay/<seconds>`, sent after waiting that long.
pub fn delay(seconds: u64) -> (body: String)
    ensures
        body@ == waited(seconds),
{
    let mut body = String::from_str("Waited for ");
    let count = decimal(seconds);
    body.append(count.as_str());
    body.append(" seconds");
    body
}

/// Every route of the site, in mounting order.
pub open spec fn site_table() -> Seq<RouteView> {
    seq![
        RouteView { method: Method::Get, path: seq![], handler: Handler::Index },
        RouteView {
            method: Method::Get,
            path: seq![SegmentView::Fixed("hello"@), SegmentView::Fixed("world"@)],
            handler: Handler::World,
        },
        RouteView {
            method: Method::Get,
            path: seq![SegmentView::Fixed("delay"@), SegmentView::Param],
            handler: Handler::Delay,
        },
        RouteView {
            method: Method::Post,
            path: seq![SegmentView::Fixed("member"@)],
            handler: Handler::MemberCreate,
        },
        RouteView {
            method: Method::Get,
            path: seq![SegmentView::Fixed("member"@)],
            handler: Handler::MemberList,
        },
        RouteView {
            method: Method::Delete,
            path: seq![SegmentView::Fixed("member"@), SegmentView::Param],
            handler: Handler::MemberDelete,
        },
        RouteView {
            method: Method::Post,
            path: seq![SegmentView::Fixed("weight"@)],
            handler: Handler::WeightCreate,
        },
        RouteView {
            method: Method::Get,
            path: seq![SegmentView::Fixed("weight"@)],
            handler: Handler::WeightList,
        },
        RouteView {
            method: Method::Delete,
            path: seq![SegmentView::Fixed("weight"@), SegmentView::Param],
            handler: Handler::WeightDelete,
        },
    ]
}

/// The site: the greeting at `/` and `/hello/world`, the delay under
/// `/delay`, then the member and the weight stage.
pub fn rocket() -> (site: Site)
    ensures
        site.deep_view() == site_table(),
{
    let mut site = Site::new();

    let root: Vec<String> = Vec::new();
    let mut routes: Vec<Route> = Vec::new();
    routes.push(Route::new(Method::Get, Vec::new(), Handler::Index));
    site.mount(&root, routes);

    let mut hello: Vec<String> = Vec::new();
    hello.push(String::from_str("hello"));
    let mut path: Vec<Segment> = Vec::new();
    path.push(Segment::Fixed(String::from_str("world")));
    let mut routes: Vec<Route> = Vec::new();
    routes.push(Route::new(Method::Get, path, Handler::World));
    site.mount(&hello, routes);

    let mut base: Vec<String> = Vec::new();
    base.push(String::from_str("delay"));
    let mut path: Vec<Segment> = Vec::new();
    path.push(Segment::Param);
    let mut routes: Vec<Route> = Vec::new();
    routes.push(Route::new(Method::Get, path, Handler::Delay));
    site.mount(&base, routes);

    site.attach(crate::member::stage());
    site.attach(crate::weight::stage());

    proof {
        let table = site_table();
        let built = site.deep_view();
        assert(built[0].path =~= table[0].path);
        assert(built[1].path =~= table[1].path);
        assert(built[2].path =~= table[2].path);
        assert(built[3].path =~= table[3].path);
        assert(built[4].path =~= table[4].path);
        assert(built[5].path =~= table[5].path);
        assert(built[6].path =~= table[6].path);
        assert(built[7].path =~= table[7].path);
        assert(built[8].path =~= table[8].path);
    }
    site
}

} // verus!
