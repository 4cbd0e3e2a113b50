use linux_agent::builder::assemble_envelope;
use linux_agent::envelope::{EventEnvelope, Payload};
use linux_agent::error::{exit_code_of, AgentError, ExitCode};
use linux_agent::transmit::{
    judge_delivery, prepare_delivery, status_is_success, DeliveryAttempt, DeliveryRequest,
    BODY_CONTENT_TYPE, DELIVERY_TIMEOUT_SECS, UNREADABLE_BODY,
};

const URL: &str = "http://localhost:8000/events";
const EVENT_ID: &str = "123e4567-e89b-42d3-a456-426614174000";

fn sample() -> EventEnvelope {
    assemble_envelope(
        "instance-1".to_string(),
        "1.0.0".to_string(),
        "host-1".to_string(),
        "boot-1".to_string(),
        EVENT_ID.to_string(),
        "2024-05-06T07:08:09Z".to_string(),
        Payload::placeholder(),
    )
    .unwrap()
}

#[test]
fn success_is_the_2xx_class() {
    let mut status: u16 = 0;
    loop {
        assert_eq!(status_is_success(status), (200..=299).contains(&status));
        if status == u16::MAX {
            break;
        }
        status += 1;
    }
}

#[test]
fn request_carries_the_canonical_text() {
    let e: EventEnvelope = sample();
    let r: DeliveryRequest = prepare_delivery(&e, URL).unwrap();
    assert_eq!(r.url, URL);
    assert_eq!(r.content_type, "application/json");
    assert_eq!(BODY_CONTENT_TYPE, "application/json");
    assert_eq!(r.body, e.to_json());
    assert_eq!(r.timeout_secs, 30);
    assert_eq!(DELIVERY_TIMEOUT_SECS, 30);
}

#[test]
fn unsealed_envelope_is_not_sent() {
    let mut e: EventEnvelope = sample();
    e.integrity.hash_sha256 = String::new();
    assert_eq!(prepare_delivery(&e, URL), Err(AgentError::NotSealed { event_id: EVENT_ID.to_string() }));
    let mut e: EventEnvelope = sample();
    e.payload.json = "{\"phase\":\"tampered\"}".to_string();
    let r = prepare_delivery(&e, URL);
    assert_eq!(r, Err(AgentError::NotSealed { event_id: EVENT_ID.to_string() }));
    assert_eq!(r.unwrap_err().exit_code(), ExitCode::StartupError);
}

#[test]
fn malformed_envelope_is_not_sent() {
    let malformed = Err(AgentError::NotWellFormed { event_id: EVENT_ID.to_string() });
    let mut e: EventEnvelope = sample();
    e.component = "other_agent".to_string();
    assert!(!e.is_well_formed());
    assert_eq!(prepare_delivery(&e, URL), malformed);
    let mut e: EventEnvelope = sample();
    e.sequence = 1;
    assert!(!e.is_well_formed());
    assert_eq!(prepare_delivery(&e, URL), malformed);
    let mut e: EventEnvelope = sample();
    e.integrity.prev_hash_sha256 = Some("0".repeat(64));
    assert!(!e.is_well_formed());
    assert_eq!(prepare_delivery(&e, URL), malformed);
    let mut e: EventEnvelope = sample();
    e.observed_at = "yesterday".to_string();
    assert!(!e.is_well_formed());
    assert_eq!(prepare_delivery(&e, URL), malformed);
    let mut e: EventEnvelope = sample();
    e.ingested_at = "2024-05-06T07:08:09+01:00".to_string();
    assert!(!e.is_well_formed());
    assert_eq!(prepare_delivery(&e, URL), malformed);
}

#[test]
fn chained_envelope_is_well_formed_with_a_link() {
    let mut e: EventEnvelope = sample();
    assert!(e.is_well_formed());
    e.sequence = 7;
    e.integrity.prev_hash_sha256 = Some("0".repeat(64));
    assert!(e.is_well_formed());
    assert_eq!(
        prepare_delivery(&e, URL),
        Err(AgentError::NotSealed { event_id: EVENT_ID.to_string() })
    );
    linux_agent::integrity::seal(&mut e);
    let r: DeliveryRequest = prepare_delivery(&e, URL).unwrap();
    assert_eq!(r.body, e.to_json());
}

#[test]
fn status_200_is_success_with_exit_code_0() {
    let e: EventEnvelope = sample();
    let request: DeliveryRequest = prepare_delivery(&e, URL).unwrap();
    let v: serde_json::Value = serde_json::from_str(&request.body).unwrap();
    assert_eq!(v["sequence"].as_u64(), Some(0));
    assert!(v["integrity"]["prev_hash_sha256"].is_null());
    let hash: &str = v["integrity"]["hash_sha256"].as_str().unwrap();
    assert_eq!(hash.len(), 64);
    assert!(hash.chars().all(|c| c.is_ascii_hexdigit()));
    let outcome = judge_delivery(
        DeliveryAttempt::Response {
            status: 200,
            status_text: "200 OK".to_string(),
            body: Some("ok".to_string()),
        },
        &e,
        URL,
    );
    assert_eq!(outcome, Ok(()));
    assert_eq!(exit_code_of(&outcome), ExitCode::Success);
    assert_eq!(exit_code_of(&outcome).code(), 0);
}

#[test]
fn every_2xx_status_is_success() {
    let e: EventEnvelope = sample();
    for status in [200u16, 201, 204, 299] {
        let attempt = DeliveryAttempt::Response { status, status_text: status.to_string(), body: None };
        assert_eq!(judge_delivery(attempt, &e, URL), Ok(()));
    }
}

#[test]
fn other_status_is_a_runtime_error_and_leaves_the_hash() {
    let e: EventEnvelope = sample();
    let before: EventEnvelope = e.clone();
    for status in [0u16, 100, 199, 300, 404, 500, 599, u16::MAX] {
        let outcome = judge_delivery(
            DeliveryAttempt::Response {
                status,
                status_text: format!("{} Some Reason", status),
                body: Some("nope".to_string()),
            },
            &e,
            URL,
        );
        assert_eq!(
            outcome,
            Err(AgentError::RejectedStatus {
                status,
                status_text: format!("{} Some Reason", status),
                body: "nope".to_string(),
                event_id: EVENT_ID.to_string()
            })
        );
        assert_eq!(
            outcome.as_ref().unwrap_err().message(),
            format!("Ingest service returned error status {} Some Reason: nope", status)
        );
        assert_eq!(exit_code_of(&outcome), ExitCode::RuntimeError);
        assert_eq!(exit_code_of(&outcome).code(), 3);
    }
    assert_eq!(e, before);
    assert_eq!(e.integrity.hash_sha256, before.integrity.hash_sha256);
}

#[test]
fn unreadable_body_gets_a_placeholder() {
    let e: EventEnvelope = sample();
    let outcome = judge_delivery(
        DeliveryAttempt::Response {
            status: 503,
            status_text: "503 Service Unavailable".to_string(),
            body: None,
        },
        &e,
        URL,
    );
    assert_eq!(UNREADABLE_BODY, "(no response body)");
    assert_eq!(
        outcome,
        Err(AgentError::RejectedStatus {
            status: 503,
            status_text: "503 Service Unavailable".to_string(),
            body: "(no response body)".to_string(),
            event_id: EVENT_ID.to_string()
        })
    );
    assert_eq!(
        outcome.unwrap_err().message(),
        "Ingest service returned error status 503 Service Unavailable: (no response body)"
    );
}

#[test]
fn transport_failure_is_a_runtime_error() {
    let e: EventEnvelope = sample();
    let outcome = judge_delivery(
        DeliveryAttempt::NoResponse { reason: "connection refused".to_string() },
        &e,
        URL,
    );
    assert_eq!(
        outcome,
        Err(AgentError::TransportFailure {
            ingest_url: URL.to_string(),
            event_id: EVENT_ID.to_string(),
            reason: "connection refused".to_string()
        })
    );
    assert_eq!(exit_code_of(&outcome).code(), 3);
    assert_eq!(
        outcome.unwrap_err().message(),
        "HTTP request failed: connection refused"
    );
}

#[test]
fn status_404_is_rejected_with_its_reason_phrase() {
    let e: EventEnvelope = sample();
    let status = reqwest::StatusCode::NOT_FOUND;
    let outcome = judge_delivery(
        DeliveryAttempt::Response {
            status: status.as_u16(),
            status_text: status.to_string(),
            body: Some("nf".to_string()),
        },
        &e,
        URL,
    );
    let error: AgentError = outcome.unwrap_err();
    assert_eq!(error.message(), "Ingest service returned error status 404 Not Found: nf");
    assert_eq!(error.exit_code(), ExitCode::RuntimeError);
    assert_eq!(error.cause(), None);
}

#[test]
fn a_step_keeps_the_cause_and_the_exit_code() {
    let inner = AgentError::TransportFailure {
        ingest_url: URL.to_string(),
        event_id: EVENT_ID.to_string(),
        reason: "refused".to_string(),
    };
    let outer: AgentError = inner.context("Failed to transmit");
    assert_eq!(outer.message(), "Failed to transmit");
    assert_eq!(outer.exit_code(), ExitCode::RuntimeError);
    assert_eq!(outer.cause().unwrap().message(), "HTTP request failed: refused");
    let twice: AgentError = AgentError::HostnameEmpty.context("a").context("b");
    assert_eq!(twice.message(), "b");
    assert_eq!(twice.cause().unwrap().message(), "a");
    assert_eq!(twice.cause().unwrap().cause(), Some(&AgentError::HostnameEmpty));
    assert_eq!(twice.exit_code(), ExitCode::StartupError);
}

#[test]
fn exit_codes_have_their_numbers() {
    assert_eq!(ExitCode::Success.code(), 0);
    assert_eq!(ExitCode::ConfigError.code(), 1);
    assert_eq!(ExitCode::StartupError.code(), 2);
    assert_eq!(ExitCode::RuntimeError.code(), 3);
    assert_eq!(ExitCode::FatalError.code(), 4);
}

#[test]
fn failures_before_delivery_are_startup_errors() {
    let errors: Vec<AgentError> = vec![
        AgentError::MissingVariable { name: "N".to_string(), description: "D".to_string() },
        AgentError::HostnameUnavailable,
        AgentError::HostnameNotText,
        AgentError::HostnameEmpty,
        AgentError::BootIdUnreadable { source: "s".to_string() },
        AgentError::BootIdEmpty { source: "s".to_string() },
        AgentError::InvalidTimestamp { value: "v".to_string() },
        AgentError::NotWellFormed { event_id: "e".to_string() },
        AgentError::NotSealed { event_id: "e".to_string() },
        AgentError::ClientSetup { reason: "r".to_string() },
    ];
    for e in errors {
        assert_eq!(e.exit_code(), ExitCode::StartupError);
        assert_eq!(exit_code_of(&Err(e)).code(), 2);
    }
}

#[test]
fn messages_name_what_failed() {
    assert_eq!(AgentError::HostnameUnavailable.message(), "Failed to get hostname");
    assert_eq!(AgentError::HostnameNotText.message(), "Hostname is not valid UTF-8");
    assert_eq!(AgentError::HostnameEmpty.message(), "Hostname is empty");
    assert_eq!(
        AgentError::BootIdUnreadable { source: "/proc/x".to_string() }.message(),
        "Failed to read boot_id from /proc/x"
    );
    assert_eq!(
        AgentError::BootIdEmpty { source: "/proc/x".to_string() }.message(),
        "boot_id is empty after reading from /proc/x"
    );
    assert_eq!(
        AgentError::InvalidTimestamp { value: "now".to_string() }.message(),
        "Timestamp is not RFC 3339 in UTC: now"
    );
    assert_eq!(
        AgentError::NotWellFormed { event_id: "id".to_string() }.message(),
        "Envelope is not well formed: id"
    );
    assert_eq!(
        AgentError::NotSealed { event_id: "id".to_string() }.message(),
        "Envelope does not carry its own hash: id"
    );
    assert_eq!(
        AgentError::ClientSetup { reason: "no tls".to_string() }.message(),
        "Failed to create HTTP client: no tls"
    );
    assert_eq!(
        AgentError::RejectedStatus {
            status: 404,
            status_text: "404 Not Found".to_string(),
            body: "nf".to_string(),
            event_id: "id".to_string()
        }
        .message(),
        "Ingest service returned error status 404 Not Found: nf"
    );
    assert_eq!(
        AgentError::TransportFailure {
            ingest_url: "u".to_string(),
            event_id: "id".to_string(),
            reason: "timed out".to_string()
        }
        .message(),
        "HTTP request failed: timed out"
    );
}
