//! The health endpoint of the backend: what is asked and how the answer
//! is read.
//!
//! One probe is one `GET /health` on the loopback interface. The caller
//! sends the request and collects the answer; the functions below write
//! the request and judge the answer. A probe changes nothing and can be
//! repeated at will.

use vstd::prelude::*;
use vstd::string::StringExecFns;
use crate::text::{decimal, push_decimal};

verus! {

/// What came back from one probe.
#[derive(Clone, Debug, PartialEq, Eq)]
pub enum ProbeReply {
    /// The bytes of a response, starting with its status line.
    Response(Vec<u8>),
    /// The connection failed or broke.
    TransportError,
    /// No answer came within the client's own limit.
    TimedOut,
}

/// The address of the health endpoint on `port`.
pub open spec fn health_url_of(port: u16) -> Seq<char> {
    "http://127.0.0.1:"@ + decimal(port as nat) + "/health"@
}

/// The request that asks the backend on `port` for its health.
pub open spec fn health_request_of(port: u16) -> Seq<char> {
    "GET /health HTTP/1.1\r\nHost: 127.0.0.1:"@ + decimal(port as nat)
        + "\r\nConnection: close\r\n\r\n"@
}

/// Whether `byte` is an ASCII decimal digit.
pub open spec fn is_digit_byte(byte: u8) -> bool {
    0x30 <= byte <= 0x39
}

/// Whether `response` begins with a well-formed status line head:
/// `HTTP/`, a digit, a dot, a digit, a space, and a status code of
/// exactly three digits.
pub open spec fn has_status_line(response: Seq<u8>) -> bool {
    &&& response.len() >= 12
    // H T T P /
    &&& response[0] == 0x48
    &&& response[1] == 0x54
    &&& response[2] == 0x54
    &&& response[3] == 0x50
    &&& response[4] == 0x2f
    // major version, dot, minor version, space
    &&& is_digit_byte(response[5])
    &&& response[6] == 0x2e
    &&& is_digit_byte(response[7])
    &&& response[8] == 0x20
    // the status code, and no fourth digit behind it
    &&& is_digit_byte(response[9])
    &&& is_digit_byte(response[10])
    &&& is_digit_byte(response[11])
    &&& (response.len() > 12 ==> !is_digit_byte(response[12]))
}

/// The status code that `response` carries, if it begins with a
/// well-formed status line head.
pub open spec fn status_code_of(response: Seq<u8>) -> Option<u16> {
    if has_status_line(response) {
        Some(
            ((response[9] - 0x30) * 100 + (response[10] - 0x30) * 10 + (response[11]
                - 0x30)) as u16,
        )
    } else {
        None
    }
}

/// Whether a status code reports success: the codes from 200 to 299.
pub open spec fn is_success(code: u16) -> bool {
    200 <= code <= 299
}

/// Whether a reply shows a healthy backend: a response with a success
/// status. A failed transport, a timeout, a malformed response and any
/// other status all count as unhealthy.
pub open spec fn reply_is_healthy(reply: ProbeReply) -> bool {
    match reply {
        ProbeReply::Response(bytes) => match status_code_of(bytes@) {
            Some(code) => is_success(code),
            None => false,
        },
        ProbeReply::TransportError => false,
        ProbeReply::TimedOut => false,
    }
}

/// The address of the health endpoint on `port`.
pub fn health_url(port: u16) -> (url: String)
    ensures
        url@ == health_url_of(port),
{
    let mut url = String::from_str("http://127.0.0.1:");
    push_decimal(&mut url, port as u64);
    url.append("/health");
    url
}

/// The text of the request that asks the backend on `port` for its health.
pub fn health_request(port: u16) -> (request: String)
    ensures
        request@ == health_request_of(port),
{
    let mut request = String::from_str("GET /health HTTP/1.1\r\nHost: 127.0.0.1:");
    push_decimal(&mut request, port as u64);
    request.append("\r\nConnection: close\r\n\r\n");
    request
}

fn digit_at(response: &[u8], index: usize) -> (digit: Option<u16>)
    requires
        index < response@.len(),
    ensures
        match digit {
            Some(value) => is_digit_byte(response@[index as int]) && value == response@[index as int]
                - 0x30,
            None => !is_digit_byte(response@[index as int]),
        },
{
    let byte = response[index];
    if 0x30 <= byte && byte <= 0x39 {
        Some((byte - 0x30) as u16)
    } else {
        None
    }
}

/// Reads the status code off the head of a response.
pub fn parse_status_code(response: &[u8]) -> (code: Option<u16>)
    ensures
        code == status_code_of(response@),
{
    if response.len() < 12 {
        return None;
    }
    if response[0] != 0x48 || response[1] != 0x54 || response[2] != 0x54 || response[3] != 0x50
        || response[4] != 0x2f || response[6] != 0x2e || response[8] != 0x20 {
        return None;
    }
    if digit_at(response, 5).is_none() || digit_at(response, 7).is_none() {
        return None;
    }
    if response.len() > 12 && digit_at(response, 12).is_some() {
        return None;
    }
    let hundreds = match digit_at(response, 9) {
        Some(digit) => digit,
        None => {
            return None;
        },
    };
    let tens = match digit_at(response, 10) {
        Some(digit) => digit,
        None => {
            return None;
        },
    };
    let units = match digit_at(response, 11) {
        Some(digit) => digit,
        None => {
            return None;
        },
    };
    Some(hundreds * 100 + tens * 10 + units)
}

/// Whether a status code reports success.
pub fn status_is_success(code: u16) -> (success: bool)
    ensures
        success == is_success(code),
{
    200 <= code && code <= 299
}

/// Judges one probe: healthy only on a response with a success status.
pub fn probe(reply: &ProbeReply) -> (healthy: bool)
    ensures
        healthy == reply_is_healthy(*reply),
{
    match reply {
        ProbeReply::Response(bytes) => match parse_status_code(bytes.as_slice()) {
            Some(code) => status_is_success(code),
            None => false,
        },
        ProbeReply::TransportError => false,
        ProbeReply::TimedOut => false,
    }
}

} // verus!
