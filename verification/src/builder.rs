//! Building the one envelope of a run: resolve the inputs, assemble the
//! fields, install the digest.

use crate::config::{
    read_env_var, INSTANCE_ID_PURPOSE, INSTANCE_ID_VARIABLE, VERSION_PURPOSE, VERSION_VARIABLE,
};
use crate::envelope::{
    component_name, placeholder_json, EnvelopeModel, EventEnvelope, EventIdentity,
    EventIntegrity, IdentityModel, IntegrityModel, Payload, PayloadModel,
};
use crate::error::{in_step, AgentError, ErrorModel, ExitCode};
use crate::identity::{
    boot_id_of, get_boot_id, get_machine_id, is_hostname_failure, BOOT_ID_SOURCE,
};
use crate::integrity::seal;
use crate::text::is_lower_hex_char;
use crate::timestamp::{current_utc_timestamp, is_rfc3339_utc, is_rfc3339_utc_text};
use vstd::prelude::*;

verus! {

/// Whether `s` is the hyphenated lowercase text of a version-4 UUID:
/// `xxxxxxxx-xxxx-4xxx-yxxx-xxxxxxxxxxxx`, with `y` one of `8`, `9`, `a`, `b`.
pub open spec fn is_uuid_v4_text(s: Seq<char>) -> bool {
    &&& s.len() == 36
    &&& forall|i: int|
        0 <= i < 36 ==> if i == 8 || i == 13 || i == 18 || i == 23 {
            #[trigger] s[i] == '-'
        } else {
            is_lower_hex_char(s[i])
        }
    &&& s[14] == '4'
    &&& (s[19] == '8' || s[19] == '9' || s[19] == 'a' || s[19] == 'b')
}

/// Calls `uuid::Uuid::new_v4` and renders the identifier with its `Display`
/// form.
///
/// The identifier is random, so only its form is stated: new_v4 fixes the
/// version to 4 and the variant to RFC 9562, and `Display` writes the
/// hyphenated lowercase form. Like the crate's function, the call does not
/// return if the system's source of random bytes fails.
#[verifier::external_body]
fn new_event_id() -> (id: String)
    ensures
        is_uuid_v4_text(id@),
{
    uuid::Uuid::new_v4().to_string()
}

/// The first envelope of a chain, before its digest is installed: sequence 0,
/// no predecessor, an empty digest, the host name equal to the machine
/// identifier and the ingestion time equal to the observation time.
pub open spec fn genesis_envelope(
    component_instance_id: Seq<char>,
    agent_version: Seq<char>,
    machine_id: Seq<char>,
    boot_id: Seq<char>,
    event_id: Seq<char>,
    observed_at: Seq<char>,
    payload: PayloadModel,
) -> EnvelopeModel {
    EnvelopeModel {
        event_id,
        machine_id,
        component: component_name(),
        component_instance_id,
        observed_at,
        ingested_at: observed_at,
        sequence: 0,
        payload,
        identity: IdentityModel { hostname: machine_id, boot_id, agent_version },
        integrity: IntegrityModel { hash_sha256: Seq::empty(), prev_hash_sha256: None },
    }
}

/// Every first envelope keeps the rules on its fields once its time is valid,
/// sealed or not: its sequence is 0 and it has no predecessor, so the one
/// holds exactly if the other does.
pub proof fn lemma_genesis_is_well_formed(
    component_instance_id: Seq<char>,
    agent_version: Seq<char>,
    machine_id: Seq<char>,
    boot_id: Seq<char>,
    event_id: Seq<char>,
    observed_at: Seq<char>,
    payload: PayloadModel,
)
    requires
        is_rfc3339_utc(observed_at),
    ensures
        ({
            let e = genesis_envelope(
                component_instance_id,
                agent_version,
                machine_id,
                boot_id,
                event_id,
                observed_at,
                payload,
            );
            &&& e.well_formed() && e.is_genesis()
            &&& e.sealed().well_formed() && e.sealed().is_genesis()
            &&& (e.sealed().sequence == 0 <==> e.sealed().integrity.prev_hash_sha256 is None)
            &&& e.sealed().ingested_at == e.sealed().observed_at
            &&& e.sealed().identity.hostname == e.sealed().machine_id
        }),
{
}

/// Assembles and seals the first envelope of a chain from values that are
/// already resolved. The one thing that is checked is the observation time:
/// it has to be an RFC 3339 date-time in UTC.
pub fn assemble_envelope(
    component_instance_id: String,
    agent_version: String,
    machine_id: String,
    boot_id: String,
    event_id: String,
    observed_at: String,
    payload: Payload,
) -> (r: Result<EventEnvelope, AgentError>)
    ensures
        !is_rfc3339_utc(observed_at@) ==> r is Err && r->Err_0@ == (ErrorModel::InvalidTimestamp {
            value: observed_at@,
        }),
        is_rfc3339_utc(observed_at@) ==> r is Ok && r->Ok_0@ == genesis_envelope(
            component_instance_id@,
            agent_version@,
            machine_id@,
            boot_id@,
            event_id@,
            observed_at@,
            payload@,
        ).sealed(),
        r is Ok ==> r->Ok_0@.well_formed() && r->Ok_0@.is_genesis() && r->Ok_0@.is_sealed(),
{
    if !is_rfc3339_utc_text(observed_at.as_str()) {
        return Err(AgentError::InvalidTimestamp { value: observed_at });
    }
    let hostname = machine_id.clone();
    let ingested_at = observed_at.clone();
    let mut envelope = EventEnvelope {
        event_id,
        machine_id,
        component: String::from_str("linux_agent"),
        component_instance_id,
        observed_at,
        ingested_at,
        sequence: 0,
        payload,
        identity: EventIdentity { hostname, boot_id, agent_version },
        integrity: EventIntegrity { hash_sha256: String::new(), prev_hash_sha256: None },
    };
    proof {
        lemma_genesis_is_well_formed(
            component_instance_id@,
            agent_version@,
            machine_id@,
            boot_id@,
            event_id@,
            observed_at@,
            payload@,
        );
    }
    seal(&mut envelope);
    Ok(envelope)
}

/// The step that reads the instance identifier.
pub const READ_INSTANCE_ID_STEP: &'static str = "Failed to read RANSOMEYE_COMPONENT_INSTANCE_ID";

/// The step that reads the agent's version.
pub const READ_VERSION_STEP: &'static str = "Failed to read RANSOMEYE_VERSION";

/// The step that resolves the machine identifier.
pub const MACHINE_ID_STEP: &'static str = "Failed to get machine_id";

/// The step that resolves the boot token.
pub const BOOT_ID_STEP: &'static str = "Failed to get boot_id";

/// Builds the envelope of this run.
///
/// `component_instance_id` and `agent_version` are the values of the two
/// required inputs, `None` where one is not set; `boot_id_contents` is what
/// was read from the source of the boot token, `None` where it could not be
/// read. The host name, the event identifier and the observation time are
/// taken from the system here.
///
/// The inputs are resolved in a fixed order and the first failure ends the
/// run: instance identifier, version, host name, boot token. Each of these
/// failures names its step and holds what caused it.
pub fn construct_event_envelope(
    component_instance_id: Option<String>,
    agent_version: Option<String>,
    boot_id_contents: Option<String>,
) -> (r: Result<EventEnvelope, AgentError>)
    ensures
        component_instance_id is None ==> r is Err && r->Err_0@ == in_step(
            READ_INSTANCE_ID_STEP@,
            ErrorModel::MissingVariable {
                name: INSTANCE_ID_VARIABLE@,
                description: INSTANCE_ID_PURPOSE@,
            },
        ),
        component_instance_id is Some && agent_version is None ==> r is Err && r->Err_0@
            == in_step(
            READ_VERSION_STEP@,
            ErrorModel::MissingVariable { name: VERSION_VARIABLE@, description: VERSION_PURPOSE@ },
        ),
        component_instance_id is Some && agent_version is Some && r is Err ==> {
            let boot = boot_id_of(BOOT_ID_SOURCE@, contents_model(boot_id_contents));
            ||| exists|cause: ErrorModel|
                is_hostname_failure(cause) && r->Err_0@ == in_step(MACHINE_ID_STEP@, cause)
            ||| boot is Err && r->Err_0@ == in_step(BOOT_ID_STEP@, boot->Err_0)
            ||| boot is Ok && r->Err_0@ is InvalidTimestamp
        },
        r is Err ==> r->Err_0@.exit_code() == ExitCode::StartupError,
        r is Ok ==> {
            let e = r->Ok_0@;
            let boot = boot_id_of(BOOT_ID_SOURCE@, contents_model(boot_id_contents));
            &&& component_instance_id is Some && agent_version is Some && boot is Ok
            &&& e == genesis_envelope(
                component_instance_id->0@,
                agent_version->0@,
                e.machine_id,
                boot->Ok_0,
                e.event_id,
                e.observed_at,
                PayloadModel { json: placeholder_json() },
            ).sealed()
            &&& e.machine_id.len() > 0
            &&& e.identity.boot_id.len() > 0
            &&& is_uuid_v4_text(e.event_id)
            &&& e.well_formed()
            &&& e.is_genesis()
            &&& e.is_sealed()
        },
{
    let component_instance_id = match read_env_var(
        INSTANCE_ID_VARIABLE,
        INSTANCE_ID_PURPOSE,
        component_instance_id,
    ) {
        Ok(v) => v,
        Err(e) => {
            return Err(e.context(READ_INSTANCE_ID_STEP));
        },
    };
    let agent_version = match read_env_var(VERSION_VARIABLE, VERSION_PURPOSE, agent_version) {
        Ok(v) => v,
        Err(e) => {
            return Err(e.context(READ_VERSION_STEP));
        },
    };
    let machine_id = match get_machine_id() {
        Ok(v) => v,
        Err(e) => {
            return Err(e.context(MACHINE_ID_STEP));
        },
    };
    let contents: Option<&str> = match &boot_id_contents {
        Some(text) => Some(text.as_str()),
        None => None,
    };
    let boot_id = match get_boot_id(BOOT_ID_SOURCE, contents) {
        Ok(v) => v,
        Err(e) => {
            return Err(e.context(BOOT_ID_STEP));
        },
    };
    let event_id = new_event_id();
    let observed_at = current_utc_timestamp();
    assemble_envelope(
        component_instance_id,
        agent_version,
        machine_id,
        boot_id,
        event_id,
        observed_at,
        Payload::placeholder(),
    )
}

/// The characters of what was read, where something was read.
pub open spec fn contents_model(contents: Option<String>) -> Option<Seq<char>> {
    match contents {
        Some(text) => Some(text@),
        None => None,
    }
}

} // verus!
