use linux_agent::builder::{
    construct_event_envelope, BOOT_ID_STEP, MACHINE_ID_STEP, READ_INSTANCE_ID_STEP,
    READ_VERSION_STEP,
};
use linux_agent::config::{
    read_env_var, resolve_ingest_url, DEFAULT_INGEST_URL, INGEST_URL_VARIABLE,
    INSTANCE_ID_PURPOSE, INSTANCE_ID_VARIABLE, VERSION_PURPOSE, VERSION_VARIABLE,
};
use linux_agent::envelope::EventEnvelope;
use linux_agent::error::{AgentError, ExitCode};
use linux_agent::identity::{get_boot_id, get_machine_id, machine_id_from, HostnameLookup, BOOT_ID_SOURCE};
use linux_agent::integrity::{compute_hash, verify_hash};
use linux_agent::timestamp::is_rfc3339_utc_text;

fn is_uuid_v4_text(s: &str) -> bool {
    let chars: Vec<char> = s.chars().collect();
    chars.len() == 36
        && chars.iter().enumerate().all(|(i, c)| {
            if i == 8 || i == 13 || i == 18 || i == 23 {
                *c == '-'
            } else {
                matches!(c, '0'..='9' | 'a'..='f')
            }
        })
        && chars[14] == '4'
        && matches!(chars[19], '8' | '9' | 'a' | 'b')
}

fn is_hostname_failure(e: &AgentError) -> bool {
    matches!(
        e,
        AgentError::HostnameUnavailable | AgentError::HostnameNotText | AgentError::HostnameEmpty
    )
}

fn is_machine_id_failure(e: &AgentError) -> bool {
    e.message() == "Failed to get machine_id"
        && match e.cause() {
            Some(cause) => is_hostname_failure(cause),
            None => false,
        }
}

fn in_step(step: &str, cause: AgentError) -> AgentError {
    AgentError::Context { context: step.to_string(), cause: Box::new(cause) }
}

#[test]
fn names_of_the_inputs() {
    assert_eq!(INSTANCE_ID_VARIABLE, "RANSOMEYE_COMPONENT_INSTANCE_ID");
    assert_eq!(VERSION_VARIABLE, "RANSOMEYE_VERSION");
    assert_eq!(INGEST_URL_VARIABLE, "RANSOMEYE_INGEST_URL");
    assert_eq!(DEFAULT_INGEST_URL, "http://localhost:8000/events");
    assert_eq!(BOOT_ID_SOURCE, "/proc/sys/kernel/random/boot_id");
}

#[test]
fn required_input_is_taken_as_it_is() {
    assert_eq!(read_env_var("NAME", "what for", Some("value".to_string())), Ok("value".to_string()));
    assert_eq!(read_env_var("NAME", "what for", Some(String::new())), Ok(String::new()));
}

#[test]
fn missing_required_input_names_key_and_purpose() {
    let r = read_env_var("NAME", "what for", None);
    assert_eq!(
        r,
        Err(AgentError::MissingVariable {
            name: "NAME".to_string(),
            description: "what for".to_string()
        })
    );
    let e: AgentError = r.unwrap_err();
    assert_eq!(e.message(), "Missing required environment variable: NAME (what for)");
    assert_eq!(e.exit_code(), ExitCode::StartupError);
}

#[test]
fn destination_falls_back_to_the_default() {
    assert_eq!(resolve_ingest_url(None), "http://localhost:8000/events");
    assert_eq!(resolve_ingest_url(Some("https://ingest.example/events".to_string())), "https://ingest.example/events");
    assert_eq!(resolve_ingest_url(Some(String::new())), "");
}

#[test]
fn machine_id_is_the_reported_name() {
    assert_eq!(machine_id_from(HostnameLookup::Name("host-1".to_string())), Ok("host-1".to_string()));
    assert_eq!(machine_id_from(HostnameLookup::Name(" ".to_string())), Ok(" ".to_string()));
}

#[test]
fn machine_id_fails_closed() {
    assert_eq!(machine_id_from(HostnameLookup::Name(String::new())), Err(AgentError::HostnameEmpty));
    assert_eq!(machine_id_from(HostnameLookup::Unavailable), Err(AgentError::HostnameUnavailable));
    assert_eq!(machine_id_from(HostnameLookup::NotText), Err(AgentError::HostnameNotText));
}

#[test]
fn machine_id_of_this_host_is_not_empty() {
    match get_machine_id() {
        Ok(id) => assert!(!id.is_empty()),
        Err(e) => assert!(is_hostname_failure(&e)),
    }
}

#[test]
fn boot_id_is_trimmed() {
    assert_eq!(
        get_boot_id("src", Some("0b7e2dd5-6a1c-4d0f-9f5e-2f5f0a1b2c3d\n")),
        Ok("0b7e2dd5-6a1c-4d0f-9f5e-2f5f0a1b2c3d".to_string())
    );
    assert_eq!(get_boot_id("src", Some("  a b  ")), Ok("a b".to_string()));
    assert_eq!(get_boot_id("src", Some("a b")), Ok("a b".to_string()));
    let once: String = get_boot_id("src", Some("\u{3000} x y\n\n")).unwrap();
    assert_eq!(get_boot_id("src", Some(&once)), Ok(once.clone()));
    assert_eq!(
        get_boot_id("/proc/x", None).unwrap_err().message(),
        "Failed to read boot_id from /proc/x"
    );
    assert_eq!(
        get_boot_id("/proc/x", Some("\n")).unwrap_err().message(),
        "boot_id is empty after reading from /proc/x"
    );
}

#[test]
fn boot_id_fails_closed() {
    assert_eq!(get_boot_id("src", None), Err(AgentError::BootIdUnreadable { source: "src".to_string() }));
    assert_eq!(get_boot_id("src", Some("")), Err(AgentError::BootIdEmpty { source: "src".to_string() }));
    assert_eq!(get_boot_id("src", Some(" \n\t")), Err(AgentError::BootIdEmpty { source: "src".to_string() }));
}

#[test]
fn steps_have_their_texts() {
    assert_eq!(READ_INSTANCE_ID_STEP, "Failed to read RANSOMEYE_COMPONENT_INSTANCE_ID");
    assert_eq!(READ_VERSION_STEP, "Failed to read RANSOMEYE_VERSION");
    assert_eq!(MACHINE_ID_STEP, "Failed to get machine_id");
    assert_eq!(BOOT_ID_STEP, "Failed to get boot_id");
}

#[test]
fn construction_aborts_on_a_missing_instance_id() {
    let expected = || {
        in_step(
            "Failed to read RANSOMEYE_COMPONENT_INSTANCE_ID",
            AgentError::MissingVariable {
                name: INSTANCE_ID_VARIABLE.to_string(),
                description: INSTANCE_ID_PURPOSE.to_string(),
            },
        )
    };
    let r = construct_event_envelope(None, Some("1.0.0".to_string()), Some("boot\n".to_string()));
    assert_eq!(r, Err(expected()));
    let r = construct_event_envelope(None, None, None);
    assert_eq!(r, Err(expected()));
    let e: AgentError = r.unwrap_err();
    assert_eq!(e.message(), "Failed to read RANSOMEYE_COMPONENT_INSTANCE_ID");
    assert_eq!(
        e.cause().unwrap().message(),
        "Missing required environment variable: RANSOMEYE_COMPONENT_INSTANCE_ID (Component instance identifier (required, UUID format recommended))"
    );
    let code: ExitCode = e.exit_code();
    assert_eq!(code, ExitCode::StartupError);
    assert_ne!(code.code(), 0);
}

#[test]
fn construction_aborts_on_a_missing_version() {
    let r = construct_event_envelope(Some("instance-1".to_string()), None, Some("boot\n".to_string()));
    assert_eq!(
        r,
        Err(in_step(
            "Failed to read RANSOMEYE_VERSION",
            AgentError::MissingVariable {
                name: VERSION_VARIABLE.to_string(),
                description: VERSION_PURPOSE.to_string()
            }
        ))
    );
    let e: AgentError = r.unwrap_err();
    assert_eq!(e.message(), "Failed to read RANSOMEYE_VERSION");
    assert_eq!(
        e.cause().unwrap().message(),
        "Missing required environment variable: RANSOMEYE_VERSION (Agent version string (required, e.g., '1.0.0'))"
    );
    assert_eq!(e.exit_code().code(), 2);
}

#[test]
fn construction_aborts_on_a_missing_boot_id() {
    let unreadable = construct_event_envelope(Some("instance-1".to_string()), Some("1.0.0".to_string()), None);
    match unreadable {
        Ok(_) => panic!("an envelope was built without a boot id"),
        Err(e) => {
            assert!(
                is_machine_id_failure(&e)
                    || e == in_step(
                        "Failed to get boot_id",
                        AgentError::BootIdUnreadable { source: BOOT_ID_SOURCE.to_string() }
                    )
            );
            assert_eq!(e.exit_code().code(), 2);
        }
    }
    let empty = construct_event_envelope(
        Some("instance-1".to_string()),
        Some("1.0.0".to_string()),
        Some(" \n".to_string()),
    );
    match empty {
        Ok(_) => panic!("an envelope was built with an empty boot id"),
        Err(e) => assert!(
            is_machine_id_failure(&e)
                || e == in_step(
                    "Failed to get boot_id",
                    AgentError::BootIdEmpty { source: BOOT_ID_SOURCE.to_string() }
                )
        ),
    }
}

fn construct() -> Option<EventEnvelope> {
    match construct_event_envelope(
        Some("instance-1".to_string()),
        Some("1.0.0".to_string()),
        Some("0b7e2dd5-6a1c-4d0f-9f5e-2f5f0a1b2c3d\n".to_string()),
    ) {
        Ok(e) => Some(e),
        Err(e) => {
            assert!(is_machine_id_failure(&e));
            None
        }
    }
}

#[test]
fn constructed_envelope_is_a_sealed_genesis_envelope() {
    if let Some(e) = construct() {
        assert_eq!(e.component, "linux_agent");
        assert_eq!(e.component_instance_id, "instance-1");
        assert_eq!(e.identity.agent_version, "1.0.0");
        assert_eq!(e.identity.boot_id, "0b7e2dd5-6a1c-4d0f-9f5e-2f5f0a1b2c3d");
        assert!(!e.machine_id.is_empty());
        assert_eq!(e.identity.hostname, e.machine_id);
        assert_eq!(e.payload.json, "{\"phase\":\"phase4_minimal\"}");
        assert_eq!(e.sequence, 0);
        assert_eq!(e.integrity.prev_hash_sha256, None);
        assert_eq!(e.ingested_at, e.observed_at);
        assert!(is_rfc3339_utc_text(&e.observed_at));
        assert!(e.observed_at.ends_with("+00:00"));
        assert!(is_uuid_v4_text(&e.event_id));
        assert_eq!(e.integrity.hash_sha256.len(), 64);
        assert_eq!(compute_hash(&e), e.integrity.hash_sha256);
        assert!(verify_hash(&e));
    }
}

#[test]
fn constructed_envelope_has_the_name_of_this_host() {
    if let (Some(e), Ok(id)) = (construct(), get_machine_id()) {
        assert_eq!(e.machine_id, id);
    }
}

#[test]
fn event_ids_are_fresh() {
    if let (Some(a), Some(b)) = (construct(), construct()) {
        assert_ne!(a.event_id, b.event_id);
        assert_ne!(a.integrity.hash_sha256, b.integrity.hash_sha256);
    }
}
