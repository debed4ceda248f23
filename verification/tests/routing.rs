use httpserver::route::{classify_request, is_delayed, resource_of, route_of, status_line_of, Route};

#[test]
fn index_line_routes_to_index() {
    assert_eq!(route_of("GET / HTTP/1.1"), Route::Index);
}

#[test]
fn features_line_routes_to_features() {
    assert_eq!(route_of("GET /features HTTP/1.1"), Route::Features);
}

#[test]
fn sleep_line_routes_to_sleep() {
    assert_eq!(route_of("GET /sleep HTTP/1.1"), Route::Sleep);
}

#[test]
fn unknown_line_routes_to_not_found() {
    assert_eq!(route_of("GET /nope HTTP/1.1"), Route::NotFound);
}

#[test]
fn matching_is_exact_literal() {
    // Case, spacing and version must match exactly.
    assert_eq!(route_of("get / http/1.1"), Route::NotFound);
    assert_eq!(route_of("GET /  HTTP/1.1"), Route::NotFound);
    assert_eq!(route_of("GET / HTTP/1.0"), Route::NotFound);
    assert_eq!(route_of("GET /features HTTP/1.1 "), Route::NotFound);
    assert_eq!(route_of(""), Route::NotFound);
}

#[test]
fn status_lines_per_route() {
    assert_eq!(status_line_of(Route::Index), "HTTP/1.1 200 OK");
    assert_eq!(status_line_of(Route::Features), "HTTP/1.1 200 OK");
    assert_eq!(status_line_of(Route::Sleep), "HTTP/1.1 200 OK");
    assert_eq!(status_line_of(Route::NotFound), "HTTP/1.1 404 NOT FOUND");
}

#[test]
fn resources_per_route() {
    assert_eq!(resource_of(Route::Index), "index.html");
    assert_eq!(resource_of(Route::Features), "features.html");
    assert_eq!(resource_of(Route::Sleep), "index.html");
    assert_eq!(resource_of(Route::NotFound), "404.html");
}

#[test]
fn only_sleep_is_delayed() {
    assert!(is_delayed(Route::Sleep));
    assert!(!is_delayed(Route::Index));
    assert!(!is_delayed(Route::Features));
    assert!(!is_delayed(Route::NotFound));
}

#[test]
fn immediate_eof_drops_the_connection() {
    // A connection with no readable line yields no route at all: the job
    // is over without a response, and nothing else is touched.
    assert_eq!(classify_request(None), None);
}

#[test]
fn readable_line_is_classified() {
    assert_eq!(classify_request(Some("GET / HTTP/1.1")), Some(Route::Index));
    assert_eq!(classify_request(Some("gibberish")), Some(Route::NotFound));
}
