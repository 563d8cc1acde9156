use vstd::prelude::*;
use crate::command::{build_off_command, build_state_command, off_command_text, state_command_text};
use crate::encoder::Run;

verus! {

/// Why a request to the device did not succeed.
#[derive(PartialEq, Eq, Structural, Clone, Copy, Debug)]
pub enum TransportError {
    /// The host could not be reached, or the address did not resolve.
    ConnectionFailed,
    /// The device did not answer in time.
    Timeout,
    /// The device answered with a status outside `200..=299`.
    NonSuccessStatus(u16),
}

/// What an attempt to send a request ended with.
#[derive(PartialEq, Eq, Structural, Clone, Copy, Debug)]
pub enum SendOutcome {
    /// The device answered with this HTTP status.
    Status(u16),
    TimedOut,
    Unreachable,
}

#[derive(PartialEq, Eq, Structural, Clone, Copy, Debug)]
pub enum HttpMethod {
    Get,
    Post,
}

/// Where the device is found: an IP address or a host name.
#[derive(Clone, Debug)]
pub struct DeviceConfig {
    pub address: String,
}

/// A request ready to be sent: method, URL and an optional JSON body, which is
/// sent as-is.
#[derive(Clone, Debug)]
pub struct Request {
    pub method: HttpMethod,
    pub url: String,
    pub body: Option<String>,
}

pub open spec fn state_url_text(address: Seq<char>) -> Seq<char> {
    "http://"@ + address + "/json/state"@
}

pub open spec fn user_agent_text() -> Seq<char> {
    "curl/7.85.0"@
}

pub open spec fn json_content_type_text() -> Seq<char> {
    "application/json"@
}

/// The URL of the device's state endpoint, `http://<address>/json/state`.
pub fn state_url(device: &DeviceConfig) -> (r: String)
    ensures
        r@ == state_url_text(device.address@),
{
    let mut s = String::from_str("http://");
    s.append(device.address.as_str());
    s.append("/json/state");
    s
}

/// The headers sent with every request: `User-Agent: curl/7.85.0` and
/// `Content-Type: application/json`.
pub fn request_headers() -> (r: Vec<(String, String)>)
    ensures
        r@.len() == 2,
        r@[0].0@ == "User-Agent"@,
        r@[0].1@ == user_agent_text(),
        r@[1].0@ == "Content-Type"@,
        r@[1].1@ == json_content_type_text(),
{
    let mut r: Vec<(String, String)> = Vec::new();
    r.push((String::from_str("User-Agent"), String::from_str("curl/7.85.0")));
    r.push((String::from_str("Content-Type"), String::from_str("application/json")));
    r
}

/// A POST of the segment-update payload for `runs` to the state endpoint.
pub fn state_update_request(device: &DeviceConfig, on: bool, brightness: u8, runs: &Vec<Run>) -> (r:
    Request)
    ensures
        r.method == HttpMethod::Post,
        r.url@ == state_url_text(device.address@),
        r.body is Some,
        r.body->Some_0@ == state_command_text(on, brightness, runs@),
{
    Request {
        method: HttpMethod::Post,
        url: state_url(device),
        body: Some(build_state_command(on, brightness, runs)),
    }
}

/// A POST of the payload that switches the panel off.
pub fn off_request(device: &DeviceConfig) -> (r: Request)
    ensures
        r.method == HttpMethod::Post,
        r.url@ == state_url_text(device.address@),
        r.body is Some,
        r.body->Some_0@ == off_command_text(),
{
    Request { method: HttpMethod::Post, url: state_url(device), body: Some(build_off_command()) }
}

/// A read-only GET of the device's current state, without a body.
pub fn query_request(device: &DeviceConfig) -> (r: Request)
    ensures
        r.method == HttpMethod::Get,
        r.url@ == state_url_text(device.address@),
        r.body is None,
{
    Request { method: HttpMethod::Get, url: state_url(device), body: None }
}

/// Reads the outcome of a send: a status in `200..=299` is success, any other
/// status is an error carrying it, and failures to connect or answer in time
/// are reported as such. Nothing is retried.
pub fn interpret_outcome(outcome: SendOutcome) -> (r: Result<u16, TransportError>)
    ensures
        match outcome {
            SendOutcome::Status(code) => if 200 <= code <= 299 {
                r == Ok::<u16, TransportError>(code)
            } else {
                r == Err::<u16, TransportError>(TransportError::NonSuccessStatus(code))
            },
            SendOutcome::TimedOut => r == Err::<u16, TransportError>(TransportError::Timeout),
            SendOutcome::Unreachable => r == Err::<u16, TransportError>(
                TransportError::ConnectionFailed,
            ),
        },
{
    match outcome {
        SendOutcome::Status(code) => {
            if 200 <= code && code <= 299 {
                Ok(code)
            } else {
                Err(TransportError::NonSuccessStatus(code))
            }
        },
        SendOutcome::TimedOut => Err(TransportError::Timeout),
        SendOutcome::Unreachable => Err(TransportError::ConnectionFailed),
    }
}

} // verus!
