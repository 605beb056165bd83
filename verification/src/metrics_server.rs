//! The rules of the endpoint that serves the telemetry: which port to try,
//! which request gets which answer, and what the answer is.

use crate::error::AppError;
use crate::text::{decimal_digits, decimal_string, is_prefix, starts_with};
use vstd::prelude::*;
use vstd::string::*;

verus! {

/// How many ports are tried, counting up from the one asked for.
pub const MAX_PORT_ATTEMPTS: u16 = 10;

/// The port of the attempt numbered `attempt`, from 0: that many above the
/// port asked for. There is none past the last attempt or the last port.
pub open spec fn port_to_try(port: u16, attempt: u16) -> Option<u16> {
    if attempt < MAX_PORT_ATTEMPTS && port + attempt <= u16::MAX {
        Some((port + attempt) as u16)
    } else {
        None
    }
}

/// The port to bind at the given attempt, if there is one left to try.
pub fn candidate_port(port: u16, attempt: u16) -> (r: Option<u16>)
    ensures
        r == port_to_try(port, attempt),
{
    if attempt < MAX_PORT_ATTEMPTS {
        port.checked_add(attempt)
    } else {
        None
    }
}

/// What a request asks for.
#[derive(Debug, Clone, Copy, PartialEq, Eq, Structural)]
pub enum Route {
    /// The telemetry, in the text form of its exposition.
    Metrics,
    /// Whether the process is alive.
    Health,
    /// Anything else.
    NotFound,
}

/// The route of a request, by how its text begins.
pub open spec fn route_of(request: Seq<char>) -> Route {
    if is_prefix("GET /metrics"@, request) {
        Route::Metrics
    } else if is_prefix("GET /health"@, request) {
        Route::Health
    } else {
        Route::NotFound
    }
}

/// Decides what a request asks for.
pub fn route_request(request: &str) -> (route: Route)
    ensures
        route == route_of(request@),
{
    if starts_with(request, "GET /metrics") {
        Route::Metrics
    } else if starts_with(request, "GET /health") {
        Route::Health
    } else {
        Route::NotFound
    }
}

/// The answer to a request on `route`, where `body` is the telemetry's
/// text. The length that the answer to `Metrics` declares is the number of
/// bytes of the body.
pub open spec fn response_to(route: Route, body: &str) -> Seq<char> {
    match route {
        Route::Metrics =>
            "HTTP/1.1 200 OK\r\nContent-Type: text/plain; version=0.0.4\r\nContent-Length: "@
                + decimal_digits(body.len() as nat) + "\r\n\r\n"@ + body@,
        Route::Health => "HTTP/1.1 200 OK\r\nContent-Type: text/plain\r\nContent-Length: 2\r\n\r\nOK"@,
        Route::NotFound => "HTTP/1.1 404 Not Found\r\nContent-Length: 9\r\n\r\nNot Found"@,
    }
}

/// Writes the answer to a request.
pub fn respond(route: Route, body: &str) -> (response: String)
    ensures
        response@ == response_to(route, body),
{
    match route {
        Route::Metrics => {
            let length = decimal_string(body.len() as u64);
            String::from_str(
                "HTTP/1.1 200 OK\r\nContent-Type: text/plain; version=0.0.4\r\nContent-Length: ",
            ).concat(length.as_str()).concat("\r\n\r\n").concat(body)
        },
        Route::Health => String::from_str(
            "HTTP/1.1 200 OK\r\nContent-Type: text/plain\r\nContent-Length: 2\r\n\r\nOK",
        ),
        Route::NotFound => String::from_str(
            "HTTP/1.1 404 Not Found\r\nContent-Length: 9\r\n\r\nNot Found",
        ),
    }
}

/// The words of the error when no port could be bound: the ports tried,
/// from `port` to `failed_port`, what the last attempt failed with, and
/// what to do about it.
pub open spec fn bind_failure_words(port: u16, failed_port: u16, detail: Seq<char>) -> Seq<char> {
    "Failed to bind metrics server after 10 attempts (ports "@ + decimal_digits(port as nat)
        + "-"@ + decimal_digits(failed_port as nat) + "): "@ + detail
        + ". All ports are in use. Try: 1) Stop processes using these ports (find with: lsof -i :"@
        + decimal_digits(port as nat) + "-"@ + decimal_digits(failed_port as nat)
        + " or ss -tulpn | grep :"@ + decimal_digits(port as nat)
        + "), 2) Set METRICS_PORT to a different range"@
}

/// The error when every attempt to bind has failed.
pub fn bind_failure(port: u16, failed_port: u16, detail: &str) -> (e: AppError)
    ensures
        e matches AppError::Config(words) && words@ == bind_failure_words(
            port,
            failed_port,
            detail@,
        ),
{
    let first = decimal_string(port as u64);
    let last = decimal_string(failed_port as u64);
    let words = String::from_str("Failed to bind metrics server after 10 attempts (ports ").concat(
        first.as_str(),
    ).concat("-").concat(last.as_str()).concat("): ").concat(detail).concat(
        ". All ports are in use. Try: 1) Stop processes using these ports (find with: lsof -i :",
    ).concat(first.as_str()).concat("-").concat(last.as_str()).concat(
        " or ss -tulpn | grep :",
    ).concat(first.as_str()).concat("), 2) Set METRICS_PORT to a different range");
    AppError::Config(words)
}

} // verus!
