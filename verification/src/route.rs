//! Exact-literal route matching: the first line of a request is compared,
//! case-sensitively and byte for byte, against a fixed table of request
//! lines; anything else falls to the not-found route.

use vstd::prelude::*;

verus! {

/// The closed set of routes the server serves.
#[derive(Clone, Copy, Debug, PartialEq, Eq, Structural)]
pub enum Route {
    /// `GET / HTTP/1.1`: the index page.
    Index,
    /// `GET /features HTTP/1.1`: the features page.
    Features,
    /// `GET /sleep HTTP/1.1`: the index page after a deliberate delay.
    Sleep,
    /// Any other request line: the not-found page.
    NotFound,
}

/// The route a request line maps to: one of three exact literals, or the
/// catch-all.
pub open spec fn spec_route_of(line: Seq<char>) -> Route {
    if line == "GET / HTTP/1.1"@ {
        Route::Index
    } else if line == "GET /features HTTP/1.1"@ {
        Route::Features
    } else if line == "GET /sleep HTTP/1.1"@ {
        Route::Sleep
    } else {
        Route::NotFound
    }
}

/// The status line sent for a route.
pub open spec fn spec_status_line(r: Route) -> Seq<char> {
    if r is NotFound {
        "HTTP/1.1 404 NOT FOUND"@
    } else {
        "HTTP/1.1 200 OK"@
    }
}

/// The HTML resource rendered for a route.
pub open spec fn spec_resource(r: Route) -> Seq<char> {
    match r {
        Route::Index => "index.html"@,
        Route::Features => "features.html"@,
        Route::Sleep => "index.html"@,
        Route::NotFound => "404.html"@,
    }
}

/// Maps a request line to its route by exact literal comparison.
pub fn route_of(line: &str) -> (r: Route)
    ensures
        r == spec_route_of(line@),
{
    let l = line.to_owned();
    if l == "GET / HTTP/1.1".to_owned() {
        Route::Index
    } else if l == "GET /features HTTP/1.1".to_owned() {
        Route::Features
    } else if l == "GET /sleep HTTP/1.1".to_owned() {
        Route::Sleep
    } else {
        Route::NotFound
    }
}

/// Classifies what was read from a fresh connection. A connection that
/// yields no request line at all (immediate end of stream) is dropped:
/// there is no route to serve, and the caller simply closes it.
pub fn classify_request(line: Option<&str>) -> (r: Option<Route>)
    ensures
        line is None ==> r is None,
        line matches Some(l) ==> r == Some(spec_route_of(l@)),
{
    match line {
        None => None,
        Some(l) => Some(route_of(l)),
    }
}

/// The status line for a route, as text.
pub fn status_line_of(r: Route) -> (s: &'static str)
    ensures
        s@ == spec_status_line(r),
{
    match r {
        Route::NotFound => "HTTP/1.1 404 NOT FOUND",
        _ => "HTTP/1.1 200 OK",
    }
}

/// The file name of the HTML body fragment for a route.
pub fn resource_of(r: Route) -> (s: &'static str)
    ensures
        s@ == spec_resource(r),
{
    match r {
        Route::Index => "index.html",
        Route::Features => "features.html",
        Route::Sleep => "index.html",
        Route::NotFound => "404.html",
    }
}

/// Whether serving the route is deliberately delayed before rendering.
pub fn is_delayed(r: Route) -> (b: bool)
    ensures
        b == (r is Sleep),
{
    match r {
        Route::Sleep => true,
        _ => false,
    }
}

} // verus!
