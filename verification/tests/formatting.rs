use httpserver::decimal::u64_to_decimal;
use httpserver::response::{build_response, join_host_port, response_for};
use httpserver::route::Route;

#[test]
fn decimal_of_zero() {
    assert_eq!(u64_to_decimal(0), "0");
}

#[test]
fn decimal_of_small_numbers() {
    assert_eq!(u64_to_decimal(7), "7");
    assert_eq!(u64_to_decimal(10), "10");
    assert_eq!(u64_to_decimal(7878), "7878");
    assert_eq!(u64_to_decimal(120500), "120500");
}

#[test]
fn decimal_of_largest_value() {
    assert_eq!(u64_to_decimal(u64::MAX), "18446744073709551615");
}

#[test]
fn response_wire_format() {
    let resp = build_response("HTTP/1.1 200 OK", "hello");
    assert_eq!(resp, "HTTP/1.1 200 OK\r\nContent-Length: 5\r\n\r\nhello");
}

#[test]
fn response_of_empty_body() {
    let resp = build_response("HTTP/1.1 404 NOT FOUND", "");
    assert_eq!(resp, "HTTP/1.1 404 NOT FOUND\r\nContent-Length: 0\r\n\r\n");
}

#[test]
fn content_length_counts_bytes_not_chars() {
    // "é" is one character but two bytes on the wire.
    let resp = build_response("HTTP/1.1 200 OK", "é");
    assert_eq!(resp, "HTTP/1.1 200 OK\r\nContent-Length: 2\r\n\r\né");
}

#[test]
fn response_for_route_uses_its_status_line() {
    let ok = response_for(Route::Index, "<p>hi</p>");
    assert_eq!(ok, "HTTP/1.1 200 OK\r\nContent-Length: 9\r\n\r\n<p>hi</p>");
    let missing = response_for(Route::NotFound, "gone");
    assert_eq!(missing, "HTTP/1.1 404 NOT FOUND\r\nContent-Length: 4\r\n\r\ngone");
}

#[test]
fn host_port_join() {
    assert_eq!(join_host_port("localhost", 7878), "localhost:7878");
    assert_eq!(join_host_port("127.0.0.1", 80), "127.0.0.1:80");
    assert_eq!(join_host_port("example.org", u16::MAX), "example.org:65535");
}
