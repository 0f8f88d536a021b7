//! The polite-client rules of the API client: its user agent and the pacing
//! of its requests.
use vstd::prelude::*;
use vstd::string::StringExecFns;

verus! {

/// The imageboard asks clients for at most one request per second, in
/// nanoseconds.
pub const MIN_INTERVAL_NANOS: u128 = 1_000_000_000;

/// How long to wait before the next request, given the time since the
/// previous one (none before the first request): the rest of the minimum
/// interval, or nothing once it has passed.
pub open spec fn throttle_wait_spec(since_last: Option<u128>) -> u128 {
    match since_last {
        Some(since) => if since < MIN_INTERVAL_NANOS { (MIN_INTERVAL_NANOS - since) as u128 } else { 0 },
        None => 0,
    }
}

/// How long to wait before the next request, in nanoseconds.
pub fn throttle_wait(since_last: Option<u128>) -> (r: u128)
    ensures
        r == throttle_wait_spec(since_last),
        since_last matches Some(since) ==> since + r >= MIN_INTERVAL_NANOS,
{
    match since_last {
        Some(since) => if since < MIN_INTERVAL_NANOS {
            MIN_INTERVAL_NANOS - since
        } else {
            0
        },
        None => 0,
    }
}

/// The user agent the client sends: the program, its version and where it
/// lives.
pub fn user_agent(version: &str) -> (r: String)
    ensures
        r@ == "nanashi/"@ + version@ + " (+https://github.com/jtieri/nanashi)"@,
{
    let mut s = "nanashi/".to_owned();
    s.append(version);
    s.append(" (+https://github.com/jtieri/nanashi)");
    s
}

} // verus!
