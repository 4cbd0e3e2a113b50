//! The event envelope, its mathematical model and its canonical JSON text.

use crate::json::{json_string, to_json_string};
use crate::text::{decimal, to_decimal};
use crate::timestamp::{is_rfc3339_utc, is_rfc3339_utc_text};
use vstd::prelude::*;

verus! {

/// Who produced an event: the host's name, the token of its current boot and
/// the version of the agent.
#[derive(Clone, Debug, PartialEq, Eq)]
pub struct EventIdentity {
    pub hostname: String,
    pub boot_id: String,
    pub agent_version: String,
}

/// The envelope's own digest and the link to the envelope before it.
#[derive(Clone, Debug, PartialEq, Eq)]
pub struct EventIntegrity {
    pub hash_sha256: String,
    pub prev_hash_sha256: Option<String>,
}

/// What the component reports: any JSON value, held as its canonical text.
/// The envelope does not look into it and writes it as it is.
#[derive(Clone, Debug, PartialEq, Eq)]
pub struct Payload {
    pub json: String,
}

/// One observed event with its producer, its times and its integrity data.
#[derive(Clone, Debug, PartialEq, Eq)]
pub struct EventEnvelope {
    pub event_id: String,
    pub machine_id: String,
    pub component: String,
    pub component_instance_id: String,
    pub observed_at: String,
    pub ingested_at: String,
    pub sequence: u64,
    pub payload: Payload,
    pub identity: EventIdentity,
    pub integrity: EventIntegrity,
}

/// Model of [`EventIdentity`].
pub ghost struct IdentityModel {
    pub hostname: Seq<char>,
    pub boot_id: Seq<char>,
    pub agent_version: Seq<char>,
}

/// Model of [`EventIntegrity`].
pub ghost struct IntegrityModel {
    pub hash_sha256: Seq<char>,
    pub prev_hash_sha256: Option<Seq<char>>,
}

/// Model of [`Payload`]: the characters of its text.
pub ghost struct PayloadModel {
    pub json: Seq<char>,
}

/// Model of [`EventEnvelope`]: every text as its sequence of characters.
pub ghost struct EnvelopeModel {
    pub event_id: Seq<char>,
    pub machine_id: Seq<char>,
    pub component: Seq<char>,
    pub component_instance_id: Seq<char>,
    pub observed_at: Seq<char>,
    pub ingested_at: Seq<char>,
    pub sequence: u64,
    pub payload: PayloadModel,
    pub identity: IdentityModel,
    pub integrity: IntegrityModel,
}

impl View for EventIdentity {
    type V = IdentityModel;

    open spec fn view(&self) -> IdentityModel {
        IdentityModel {
            hostname: self.hostname@,
            boot_id: self.boot_id@,
            agent_version: self.agent_version@,
        }
    }
}

impl View for EventIntegrity {
    type V = IntegrityModel;

    open spec fn view(&self) -> IntegrityModel {
        IntegrityModel {
            hash_sha256: self.hash_sha256@,
            prev_hash_sha256: match self.prev_hash_sha256 {
                Some(h) => Some(h@),
                None => None,
            },
        }
    }
}

impl View for Payload {
    type V = PayloadModel;

    open spec fn view(&self) -> PayloadModel {
        PayloadModel { json: self.json@ }
    }
}

impl View for EventEnvelope {
    type V = EnvelopeModel;

    open spec fn view(&self) -> EnvelopeModel {
        EnvelopeModel {
            event_id: self.event_id@,
            machine_id: self.machine_id@,
            component: self.component@,
            component_instance_id: self.component_instance_id@,
            observed_at: self.observed_at@,
            ingested_at: self.ingested_at@,
            sequence: self.sequence,
            payload: self.payload@,
            identity: self.identity@,
            integrity: self.integrity@,
        }
    }
}

/// The component name that every envelope of this agent carries.
pub open spec fn component_name() -> Seq<char> {
    "linux_agent"@
}

/// The text of the payload that this agent reports: an object with the name
/// of its phase.
pub open spec fn placeholder_json() -> Seq<char> {
    "{\"phase\":\"phase4_minimal\"}"@
}

impl Payload {
    /// The fixed payload of this agent.
    pub fn placeholder() -> (payload: Payload)
        ensures
            payload@.json == placeholder_json(),
    {
        Payload { json: String::from_str("{\"phase\":\"phase4_minimal\"}") }
    }
}

impl EnvelopeModel {
    /// The same envelope with `hash` as its digest.
    pub open spec fn with_hash(self, hash: Seq<char>) -> EnvelopeModel {
        EnvelopeModel {
            integrity: IntegrityModel {
                hash_sha256: hash,
                prev_hash_sha256: self.integrity.prev_hash_sha256,
            },
            ..self
        }
    }

    /// The same envelope with the empty text as its digest: the form that is
    /// hashed.
    pub open spec fn blanked(self) -> EnvelopeModel {
        self.with_hash(Seq::empty())
    }

    /// The rules that hold of an envelope whatever its digest: the component
    /// is this agent's, both times are RFC 3339 in UTC, and the envelope has a
    /// predecessor exactly if it is not the first of its chain.
    pub open spec fn well_formed(self) -> bool {
        &&& self.component == component_name()
        &&& is_rfc3339_utc(self.observed_at)
        &&& is_rfc3339_utc(self.ingested_at)
        &&& (self.sequence == 0 <==> self.integrity.prev_hash_sha256 is None)
    }

    /// Whether this is the first envelope of a chain.
    pub open spec fn is_genesis(self) -> bool {
        self.sequence == 0 && self.integrity.prev_hash_sha256 is None
    }
}

/// Canonical JSON text of a payload: the text that it holds.
pub open spec fn payload_json(p: PayloadModel) -> Seq<char> {
    p.json
}

/// Canonical JSON text of an identity record.
pub open spec fn identity_json(i: IdentityModel) -> Seq<char> {
    "{\"hostname\":"@ + json_string(i.hostname) + ",\"boot_id\":"@ + json_string(i.boot_id)
        + ",\"agent_version\":"@ + json_string(i.agent_version) + "}"@
}

/// Canonical JSON text of the link to the previous envelope: `null` where
/// there is none.
pub open spec fn link_json(prev: Option<Seq<char>>) -> Seq<char> {
    match prev {
        Some(h) => json_string(h),
        None => "null"@,
    }
}

/// Canonical JSON text of an integrity record.
pub open spec fn integrity_json(i: IntegrityModel) -> Seq<char> {
    "{\"hash_sha256\":"@ + json_string(i.hash_sha256) + ",\"prev_hash_sha256\":"@ + link_json(
        i.prev_hash_sha256,
    ) + "}"@
}

/// Canonical JSON text of an envelope: one object, its members in the fixed
/// order below, with no white space between the tokens.
pub open spec fn envelope_json(e: EnvelopeModel) -> Seq<char> {
    "{\"event_id\":"@ + json_string(e.event_id) + ",\"machine_id\":"@ + json_string(e.machine_id)
        + ",\"component\":"@ + json_string(e.component) + ",\"component_instance_id\":"@
        + json_string(e.component_instance_id) + ",\"observed_at\":"@ + json_string(e.observed_at)
        + ",\"ingested_at\":"@ + json_string(e.ingested_at) + ",\"sequence\":"@ + decimal(
        e.sequence as nat,
    ) + ",\"payload\":"@ + payload_json(e.payload) + ",\"identity\":"@ + identity_json(e.identity)
        + ",\"integrity\":"@ + integrity_json(e.integrity) + "}"@
}

/// Appends the member `"key":` and the string literal for `value` to `out`,
/// where `key` is the member's name with its punctuation.
fn put_text(out: &mut String, key: &str, value: &str)
    ensures
        final(out)@ == old(out)@ + key@ + json_string(value@),
{
    out.append(key);
    let literal = to_json_string(value);
    out.append(literal.as_str());
}

impl Payload {
    /// Appends the canonical JSON text of the payload to `out`.
    pub fn write_json(&self, out: &mut String)
        ensures
            final(out)@ == old(out)@ + payload_json(self@),
    {
        out.append(self.json.as_str());
    }
}

impl EventIdentity {
    /// Appends the canonical JSON text of the record to `out`.
    pub fn write_json(&self, out: &mut String)
        ensures
            final(out)@ == old(out)@ + identity_json(self@),
    {
        put_text(out, "{\"hostname\":", self.hostname.as_str());
        put_text(out, ",\"boot_id\":", self.boot_id.as_str());
        put_text(out, ",\"agent_version\":", self.agent_version.as_str());
        out.append("}");
        assert(final(out)@ =~= old(out)@ + identity_json(self@));
    }
}

impl EventIntegrity {
    /// Appends the canonical JSON text of the record to `out`, with `hash` in
    /// the place of the stored digest.
    pub fn write_json_with_hash(&self, hash: &str, out: &mut String)
        ensures
            final(out)@ == old(out)@ + integrity_json(
                IntegrityModel { hash_sha256: hash@, prev_hash_sha256: self@.prev_hash_sha256 },
            ),
    {
        put_text(out, "{\"hash_sha256\":", hash);
        match &self.prev_hash_sha256 {
            Some(prev) => {
                put_text(out, ",\"prev_hash_sha256\":", prev.as_str());
            },
            None => {
                out.append(",\"prev_hash_sha256\":");
                out.append("null");
            },
        }
        out.append("}");
        assert(final(out)@ =~= old(out)@ + integrity_json(
            IntegrityModel { hash_sha256: hash@, prev_hash_sha256: self@.prev_hash_sha256 },
        ));
    }
}

impl EventEnvelope {
    /// Whether the envelope keeps the rules that hold whatever its digest.
    pub fn is_well_formed(&self) -> (ok: bool)
        ensures
            ok == self@.well_formed(),
    {
        let component = String::from_str("linux_agent");
        self.component == component && is_rfc3339_utc_text(self.observed_at.as_str())
            && is_rfc3339_utc_text(self.ingested_at.as_str()) && (self.sequence == 0)
            == self.integrity.prev_hash_sha256.is_none()
    }

    /// The canonical JSON text of the envelope with `hash` in the place of the
    /// stored digest.
    pub fn to_json_with_hash(&self, hash: &str) -> (text: String)
        ensures
            text@ == envelope_json(self@.with_hash(hash@)),
    {
        let mut out = String::new();
        put_text(&mut out, "{\"event_id\":", self.event_id.as_str());
        put_text(&mut out, ",\"machine_id\":", self.machine_id.as_str());
        put_text(&mut out, ",\"component\":", self.component.as_str());
        put_text(&mut out, ",\"component_instance_id\":", self.component_instance_id.as_str());
        put_text(&mut out, ",\"observed_at\":", self.observed_at.as_str());
        put_text(&mut out, ",\"ingested_at\":", self.ingested_at.as_str());
        out.append(",\"sequence\":");
        let number = to_decimal(self.sequence);
        out.append(number.as_str());
        out.append(",\"payload\":");
        self.payload.write_json(&mut out);
        out.append(",\"identity\":");
        self.identity.write_json(&mut out);
        out.append(",\"integrity\":");
        self.integrity.write_json_with_hash(hash, &mut out);
        out.append("}");
        assert(out@ =~= envelope_json(self@.with_hash(hash@)));
        out
    }

    /// The canonical JSON text of the envelope as it is: the body that is
    /// sent to the ingestion service.
    pub fn to_json(&self) -> (text: String)
        ensures
            text@ == envelope_json(self@),
    {
        let text = self.to_json_with_hash(self.integrity.hash_sha256.as_str());
        assert(self@.with_hash(self.integrity.hash_sha256@) == self@);
        text
    }
}

} // verus!
