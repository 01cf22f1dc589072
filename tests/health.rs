use ghoststream_supervisor::health::{
    check, is_success, poll_answer, port_answered, status_text, Endpoint, ProbeError, ProbePurpose, Response,
    SERVICE_PORT,
};
use ghoststream_supervisor::text::{decimal, seconds_text};

fn answered(status: u16, body: &str) -> Result<Response, String> {
    Ok(Response { status, body: Ok(body.to_string()) })
}

#[test]
fn endpoint_urls() {
    assert_eq!(SERVICE_PORT, 8765);
    assert_eq!(Endpoint::Health.url(), "http://localhost:8765/api/health");
    assert_eq!(Endpoint::Capabilities.url(), "http://localhost:8765/api/capabilities");
}

#[test]
fn probe_timeouts() {
    assert_eq!(ProbePurpose::PortCheck.timeout_ms(), 500);
    assert_eq!(ProbePurpose::Query.timeout_ms(), 2000);
    assert_eq!(ProbePurpose::ReadinessPoll.timeout_ms(), 200);
}

#[test]
fn success_range() {
    assert!(!is_success(199));
    assert!(is_success(200));
    assert!(is_success(299));
    assert!(!is_success(300));
    assert!(!is_success(404));
}

#[test]
fn check_outcomes() {
    assert_eq!(check(answered(200, "healthy")), Ok("healthy".to_string()));
    assert_eq!(check(answered(503, "down")), Err(ProbeError::Rejected(503)));
    assert_eq!(
        check(Err("connection refused".to_string())),
        Err(ProbeError::Unreachable("connection refused".to_string()))
    );
    assert_eq!(
        check(Ok(Response { status: 204, body: Err("decode".to_string()) })),
        Err(ProbeError::Unreadable("decode".to_string()))
    );
}

#[test]
fn poll_answers() {
    assert_eq!(poll_answer(Ok("x".to_string())), Some("x".to_string()));
    assert_eq!(poll_answer(Err(ProbeError::Unreadable("e".to_string()))), Some(String::new()));
    assert_eq!(poll_answer(Err(ProbeError::Rejected(500))), None);
    assert_eq!(poll_answer(Err(ProbeError::Unreachable("e".to_string()))), None);
}

#[test]
fn status_texts() {
    assert_eq!(status_text(404), "404 Not Found");
    assert_eq!(status_text(200), "200 OK");
    assert_eq!(status_text(599), "599 <unknown status code>");
    assert_eq!(status_text(42), "42 <unknown status code>");
}

#[test]
fn probe_error_messages() {
    let e = ProbeError::Unreachable("timed out".to_string());
    assert_eq!(e.message(Endpoint::Health), "Server not responding: timed out");
    assert_eq!(e.message(Endpoint::Capabilities), "Failed to get capabilities: timed out");
    assert_eq!(
        ProbeError::Rejected(500).message(Endpoint::Health),
        "Server returned status: 500 Internal Server Error"
    );
    assert_eq!(
        ProbeError::Unreadable("bad body".to_string()).message(Endpoint::Health),
        "bad body"
    );
}

#[test]
fn decimal_rendering() {
    assert_eq!(decimal(0), "0");
    assert_eq!(decimal(8765), "8765");
    assert_eq!(decimal(u64::MAX), "18446744073709551615");
    assert_eq!(seconds_text(0), "0.0");
    assert_eq!(seconds_text(20000), "20.0");
    assert_eq!(seconds_text(1250), "1.2");
}

#[test]
fn any_answer_takes_the_port() {
    assert!(port_answered(&answered(200, "ok")));
    assert!(port_answered(&answered(404, "")));
    assert!(!port_answered(&Err("connection refused".to_string())));
}
