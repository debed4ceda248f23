//! Building the bytes that go back on the wire: one status line, a
//! `Content-Length` header, a blank line, then the body. Also the
//! `host:port` address string the listener binds to.

use vstd::prelude::*;

verus! {

use crate::decimal::decimal_chars;
use crate::decimal::u64_to_decimal;
use crate::route::Route;
use crate::route::spec_status_line;
use crate::route::status_line_of;
use vstd::string::StringExecFns;
use vstd::string::StringSliceAdditionalSpecFns;

/// The full response text for a status line and a body whose encoding
/// takes `body_bytes` bytes: `STATUS\r\nContent-Length: N\r\n\r\nBODY`.
pub open spec fn spec_response(status: Seq<char>, body_bytes: nat, body: Seq<char>) -> Seq<char> {
    status + "\r\nContent-Length: "@ + decimal_chars(body_bytes) + "\r\n\r\n"@ + body
}

/// The `host:port` form a listener address is written in.
pub open spec fn spec_host_port(host: Seq<char>, port: nat) -> Seq<char> {
    host + ":"@ + decimal_chars(port)
}

/// Builds the response for a status line and an already-rendered body.
/// The advertised length is the length of the body in bytes, not in
/// characters.
pub fn build_response(status: &str, body: &str) -> (resp: String)
    requires
        body.spec_bytes().len() <= usize::MAX,
    ensures
        resp@ == spec_response(status@, body.spec_bytes().len(), body@),
{
    let len = body.len();
    let mut resp = status.to_owned();
    resp.append("\r\nContent-Length: ");
    let digits = u64_to_decimal(len as u64);
    resp.append(digits.as_str());
    resp.append("\r\n\r\n");
    resp.append(body);
    proof {
        assert(resp@ =~= spec_response(status@, body.spec_bytes().len(), body@));
    }
    resp
}

/// Builds the complete response for a route once its body has been
/// rendered: the route's own status line, the body's byte length, the body.
pub fn response_for(r: Route, body: &str) -> (resp: String)
    requires
        body.spec_bytes().len() <= usize::MAX,
    ensures
        resp@ == spec_response(spec_status_line(r), body.spec_bytes().len(), body@),
{
    let status = status_line_of(r);
    build_response(status, body)
}

/// Joins a host name and a port into the address a listener binds to.
pub fn join_host_port(host: &str, port: u16) -> (addr: String)
    ensures
        addr@ == spec_host_port(host@, port as nat),
{
    let mut addr = host.to_owned();
    addr.append(":");
    let digits = u64_to_decimal(port as u64);
    addr.append(digits.as_str());
    proof {
        assert(addr@ =~= spec_host_port(host@, port as nat));
    }
    addr
}

} // verus!
