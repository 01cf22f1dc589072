use vstd::prelude::*;
use vstd::string::StringExecFns;
use crate::text::{decimal, decimal_of};

verus! {

/// The port on which the supervised server serves its HTTP endpoints.
pub const SERVICE_PORT: u16 = 8765;

/// The two endpoints the supervised server serves.
#[derive(Clone, Copy, Debug, PartialEq, Eq, Structural)]
pub enum Endpoint {
    Health,
    Capabilities,
}

impl Endpoint {
    pub open spec fn url_spec(self) -> Seq<char> {
        match self {
            Endpoint::Health => "http://localhost:8765/api/health"@,
            Endpoint::Capabilities => "http://localhost:8765/api/capabilities"@,
        }
    }

    /// The address of this endpoint on the service port of the loopback host.
    pub fn url(&self) -> (r: String)
        ensures
            r@ == self.url_spec(),
    {
        match self {
            Endpoint::Health => String::from_str("http://localhost:8765/api/health"),
            Endpoint::Capabilities => String::from_str("http://localhost:8765/api/capabilities"),
        }
    }
}

/// Why a probe is made; each has its own timeout.
#[derive(Clone, Copy, Debug, PartialEq, Eq, Structural)]
pub enum ProbePurpose {
    /// Whether anything already serves on the port, before a start.
    PortCheck,
    /// A health or capabilities query made on the host's behalf.
    Query,
    /// One poll while waiting for readiness.
    ReadinessPoll,
}

impl ProbePurpose {
    pub open spec fn timeout_spec(self) -> u64 {
        match self {
            ProbePurpose::PortCheck => 500,
            ProbePurpose::Query => 2000,
            ProbePurpose::ReadinessPoll => 200,
        }
    }

    /// The time a probe of this kind may take, in milliseconds.
    pub fn timeout_ms(&self) -> (r: u64)
        ensures
            r == self.timeout_spec(),
    {
        match self {
            ProbePurpose::PortCheck => 500,
            ProbePurpose::Query => 2000,
            ProbePurpose::ReadinessPoll => 200,
        }
    }
}

/// What a request brought back, when the endpoint was reached at all: the
/// status code and the body, or why the body could not be read.
pub struct Response {
    pub status: u16,
    pub body: Result<String, String>,
}

/// Whether a port check found the port taken: any answer at all counts,
/// whatever its status, since the service could not bind the port then.
pub fn port_answered(sent: &Result<Response, String>) -> (r: bool)
    ensures
        r == sent is Ok,
{
    sent.is_ok()
}

/// Why a probe did not give a body.
#[derive(Debug, PartialEq, Eq)]
pub enum ProbeError {
    /// The endpoint could not be reached; the transport's account of it.
    Unreachable(String),
    /// The endpoint answered with a status outside 200..=299.
    Rejected(u16),
    /// The endpoint answered with success but its body could not be read.
    Unreadable(String),
}

/// Whether `code` is a success status.
pub open spec fn is_success_spec(code: u16) -> bool {
    200 <= code < 300
}

/// Whether `code` is a success status (200 to 299).
pub fn is_success(code: u16) -> (r: bool)
    ensures
        r == is_success_spec(code),
{
    200 <= code && code < 300
}

pub open spec fn check_spec(sent: Result<Response, String>) -> Result<String, ProbeError> {
    match sent {
        Err(cause) => Err(ProbeError::Unreachable(cause)),
        Ok(resp) => if !is_success_spec(resp.status) {
            Err(ProbeError::Rejected(resp.status))
        } else {
            match resp.body {
                Ok(body) => Ok(body),
                Err(cause) => Err(ProbeError::Unreadable(cause)),
            }
        },
    }
}

/// The outcome of a probe: the body of a successful answer, or why there is
/// none.
pub fn check(sent: Result<Response, String>) -> (r: Result<String, ProbeError>)
    ensures
        r == check_spec(sent),
{
    match sent {
        Err(cause) => Err(ProbeError::Unreachable(cause)),
        Ok(resp) => {
            if !is_success(resp.status) {
                Err(ProbeError::Rejected(resp.status))
            } else {
                match resp.body {
                    Ok(body) => Ok(body),
                    Err(cause) => Err(ProbeError::Unreadable(cause)),
                }
            }
        },
    }
}

/// The contents of an optional string.
pub open spec fn opt_view(o: Option<String>) -> Option<Seq<char>> {
    match o {
        Some(s) => Some(s@),
        None => None,
    }
}

pub open spec fn poll_answer_spec(checked: Result<String, ProbeError>) -> Option<Seq<char>> {
    match checked {
        Ok(body) => Some(body@),
        Err(ProbeError::Unreadable(_)) => Some(Seq::empty()),
        Err(_) => None,
    }
}

/// What a readiness poll learned: a success status means ready, with its
/// body, or with an empty body where the body could not be read; anything
/// else counts as no answer.
pub fn poll_answer(checked: Result<String, ProbeError>) -> (r: Option<String>)
    ensures
        opt_view(r) == poll_answer_spec(checked),
{
    match checked {
        Ok(body) => Some(body),
        Err(ProbeError::Unreadable(_)) => Some(String::new()),
        Err(_) => None,
    }
}

/// The reason phrase registered for a status code, if there is one.
pub uninterp spec fn reason_phrase_of(code: u16) -> Option<Seq<char>>;

/// Relies on http's `StatusCode::canonical_reason`, as re-exported by reqwest:
/// the standard reason phrase of a code, and none for a code outside
/// 100..=999, which `StatusCode::from_u16` refuses.
#[verifier::external_body]
fn canonical_reason(code: u16) -> (r: Option<String>)
    ensures
        opt_view(r) == reason_phrase_of(code),
        code < 100 || code > 999 ==> r is None,
{
    match reqwest::StatusCode::from_u16(code) {
        Ok(status) => status.canonical_reason().map(String::from),
        Err(_) => None,
    }
}

pub open spec fn status_text_spec(code: u16) -> Seq<char> {
    decimal_of(code as nat) + " "@ + match reason_phrase_of(code) {
        Some(phrase) => phrase,
        None => "<unknown status code>"@,
    }
}

/// A status code as HTTP shows it: the number, then its reason phrase.
pub fn status_text(code: u16) -> (r: String)
    ensures
        r@ == status_text_spec(code),
{
    let mut s = decimal(code as u64);
    s.append(" ");
    match canonical_reason(code) {
        Some(phrase) => s.append(phrase.as_str()),
        None => s.append("<unknown status code>"),
    }
    s
}

impl ProbeError {
    pub open spec fn message_spec(self, endpoint: Endpoint) -> Seq<char> {
        match self {
            ProbeError::Unreachable(cause) => match endpoint {
                Endpoint::Health => "Server not responding: "@ + cause@,
                Endpoint::Capabilities => "Failed to get capabilities: "@ + cause@,
            },
            ProbeError::Rejected(code) => "Server returned status: "@ + status_text_spec(code),
            ProbeError::Unreadable(cause) => cause@,
        }
    }

    /// The text shown to the host when a probe of `endpoint` failed so.
    pub fn message(&self, endpoint: Endpoint) -> (r: String)
        ensures
            r@ == self.message_spec(endpoint),
    {
        match self {
            ProbeError::Unreachable(cause) => {
                let mut s = match endpoint {
                    Endpoint::Health => String::from_str("Server not responding: "),
                    Endpoint::Capabilities => String::from_str("Failed to get capabilities: "),
                };
                s.append(cause.as_str());
                s
            },
            ProbeError::Rejected(code) => {
                let mut s = String::from_str("Server returned status: ");
                let t = status_text(*code);
                s.append(t.as_str());
                s
            },
            ProbeError::Unreadable(cause) => cause.clone(),
        }
    }
}

} // verus!
