//! The canonical text determines the envelope: two envelopes whose payload
//! texts do not begin with one another never share one text. A verifier that
//! rebuilds the text from the fields it received therefore hashes the same
//! bytes only for the same fields.

use crate::envelope::{
    envelope_json, identity_json, integrity_json, link_json, payload_json, EnvelopeModel,
    IdentityModel, IntegrityModel, PayloadModel,
};
use crate::json::{json_string, lemma_json_string_prefix_free};
use crate::text::{decimal, lemma_decimal_delimited};
use vstd::prelude::*;

verus! {

/// The same text in front of two texts does not hide a difference.
pub proof fn lemma_same_prefix(k: Seq<char>, x: Seq<char>, y: Seq<char>)
    requires
        k + x == k + y,
    ensures
        x == y,
{
    assert(x =~= (k + x).skip(k.len() as int));
    assert(y =~= (k + y).skip(k.len() as int));
}

/// Appending is associative.
proof fn lemma_regroup(a: Seq<char>, b: Seq<char>, c: Seq<char>)
    ensures
        (a + b) + c == a + (b + c),
{
    assert((a + b) + c =~= a + (b + c));
}

/// A member at the end of a text, followed by `r`, regrouped so that the
/// member and `r` stand together.
proof fn lemma_regroup_member(p: Seq<char>, k: Seq<char>, v: Seq<char>, r: Seq<char>)
    ensures
        ((p + k) + v) + r == p + (k + (v + r)),
{
    assert(((p + k) + v) + r =~= p + (k + (v + r)));
}

/// A member name in front of a string literal: the string and what follows
/// the literal can be read back.
proof fn lemma_text_member(
    k: Seq<char>,
    s1: Seq<char>,
    r1: Seq<char>,
    s2: Seq<char>,
    r2: Seq<char>,
)
    requires
        k + (json_string(s1) + r1) == k + (json_string(s2) + r2),
    ensures
        s1 == s2,
        r1 == r2,
{
    lemma_same_prefix(k, json_string(s1) + r1, json_string(s2) + r2);
    lemma_json_string_prefix_free(s1, r1, s2, r2);
}

/// The identity record's text followed by `r`, read member by member.
spec fn identity_then(i: IdentityModel, r: Seq<char>) -> Seq<char> {
    "{\"hostname\":"@ + (json_string(i.hostname) + (",\"boot_id\":"@ + (json_string(i.boot_id) + (
    ",\"agent_version\":"@ + (json_string(i.agent_version) + ("}"@ + r))))))
}

/// The integrity record's text followed by `r`, read member by member.
spec fn integrity_then(i: IntegrityModel, r: Seq<char>) -> Seq<char> {
    "{\"hash_sha256\":"@ + (json_string(i.hash_sha256) + (",\"prev_hash_sha256\":"@ + (link_json(
        i.prev_hash_sha256,
    ) + ("}"@ + r))))
}

/// Reading the identity record's text member by member gives the text
/// itself.
proof fn lemma_identity_then(i: IdentityModel, r: Seq<char>)
    ensures
        identity_json(i) + r == identity_then(i, r),
{
    let x0 = "{\"hostname\":"@ + json_string(i.hostname);
    let x1 = x0 + ",\"boot_id\":"@ + json_string(i.boot_id);
    let x2 = x1 + ",\"agent_version\":"@ + json_string(i.agent_version);
    let t2 = "}"@ + r;
    let t1 = ",\"agent_version\":"@ + (json_string(i.agent_version) + t2);
    let t0 = ",\"boot_id\":"@ + (json_string(i.boot_id) + t1);
    lemma_regroup(x2, "}"@, r);
    lemma_regroup_member(x1, ",\"agent_version\":"@, json_string(i.agent_version), t2);
    lemma_regroup_member(x0, ",\"boot_id\":"@, json_string(i.boot_id), t1);
    lemma_regroup("{\"hostname\":"@, json_string(i.hostname), t0);
}

/// Reading the integrity record's text member by member gives the text
/// itself.
proof fn lemma_integrity_then(i: IntegrityModel, r: Seq<char>)
    ensures
        integrity_json(i) + r == integrity_then(i, r),
{
    let x0 = "{\"hash_sha256\":"@ + json_string(i.hash_sha256);
    let x1 = x0 + ",\"prev_hash_sha256\":"@ + link_json(i.prev_hash_sha256);
    let t1 = "}"@ + r;
    let t0 = ",\"prev_hash_sha256\":"@ + (link_json(i.prev_hash_sha256) + t1);
    lemma_regroup(x1, "}"@, r);
    lemma_regroup_member(x0, ",\"prev_hash_sha256\":"@, link_json(i.prev_hash_sha256), t1);
    lemma_regroup("{\"hash_sha256\":"@, json_string(i.hash_sha256), t0);
}

/// Whether `text` begins with `start`.
pub open spec fn begins_with(text: Seq<char>, start: Seq<char>) -> bool {
    start.len() <= text.len() && text.take(start.len() as int) == start
}

/// Whether two payloads can be told apart where their texts stand in front
/// of other text: they are the same, or neither text begins with the other.
pub open spec fn payloads_separate(a: PayloadModel, b: PayloadModel) -> bool {
    a == b || (!begins_with(a.json, b.json) && !begins_with(b.json, a.json))
}

/// The texts of two separate payloads say where they end.
pub proof fn lemma_payload_json_prefix_free(
    pa: PayloadModel,
    r1: Seq<char>,
    pb: PayloadModel,
    r2: Seq<char>,
)
    requires
        payloads_separate(pa, pb),
        payload_json(pa) + r1 == payload_json(pb) + r2,
    ensures
        pa == pb,
        r1 == r2,
{
    let t1 = pa.json + r1;
    let t2 = pb.json + r2;
    if pa.json.len() <= pb.json.len() {
        assert(t1.take(pa.json.len() as int) =~= pa.json);
        assert(t2.take(pa.json.len() as int) =~= pb.json.take(pa.json.len() as int));
        assert(begins_with(pb.json, pa.json));
    } else {
        assert(t2.take(pb.json.len() as int) =~= pb.json);
        assert(t1.take(pb.json.len() as int) =~= pa.json.take(pb.json.len() as int));
        assert(begins_with(pa.json, pb.json));
    }
    assert(pa == pb);
    lemma_same_prefix(pa.json, r1, r2);
}

/// The identity record's text says where it ends and which record it is.
pub proof fn lemma_identity_json_prefix_free(
    i1: IdentityModel,
    r1: Seq<char>,
    i2: IdentityModel,
    r2: Seq<char>,
)
    requires
        identity_json(i1) + r1 == identity_json(i2) + r2,
    ensures
        i1 == i2,
        r1 == r2,
{
    lemma_identity_then(i1, r1);
    lemma_identity_then(i2, r2);
    let c1 = json_string(i1.agent_version) + ("}"@ + r1);
    let c2 = json_string(i2.agent_version) + ("}"@ + r2);
    let b1 = json_string(i1.boot_id) + (",\"agent_version\":"@ + c1);
    let b2 = json_string(i2.boot_id) + (",\"agent_version\":"@ + c2);
    lemma_text_member(
        "{\"hostname\":"@,
        i1.hostname,
        ",\"boot_id\":"@ + b1,
        i2.hostname,
        ",\"boot_id\":"@ + b2,
    );
    lemma_text_member(
        ",\"boot_id\":"@,
        i1.boot_id,
        ",\"agent_version\":"@ + c1,
        i2.boot_id,
        ",\"agent_version\":"@ + c2,
    );
    lemma_text_member(",\"agent_version\":"@, i1.agent_version, "}"@ + r1, i2.agent_version, "}"@
        + r2);
    lemma_same_prefix("}"@, r1, r2);
}

/// The link's text says where it ends and which link it is, whatever
/// follows: a literal starts with a quotation mark, `null` does not.
pub proof fn lemma_link_json_prefix_free(
    pa: Option<Seq<char>>,
    r1: Seq<char>,
    pb: Option<Seq<char>>,
    r2: Seq<char>,
)
    requires
        link_json(pa) + r1 == link_json(pb) + r2,
    ensures
        pa == pb,
        r1 == r2,
{
    reveal_strlit("null");
    let t1 = link_json(pa) + r1;
    let t2 = link_json(pb) + r2;
    match (pa, pb) {
        (Some(h1), Some(h2)) => {
            lemma_json_string_prefix_free(h1, r1, h2, r2);
        },
        (None, None) => {
            lemma_same_prefix("null"@, r1, r2);
        },
        (Some(h1), None) => {
            assert(t1[0] == '"');
            assert(t2[0] == 'n');
            assert(false);
        },
        (None, Some(h2)) => {
            assert(t1[0] == 'n');
            assert(t2[0] == '"');
            assert(false);
        },
    }
}

/// The integrity record's text says where it ends and which record it is.
pub proof fn lemma_integrity_json_prefix_free(
    i1: IntegrityModel,
    r1: Seq<char>,
    i2: IntegrityModel,
    r2: Seq<char>,
)
    requires
        integrity_json(i1) + r1 == integrity_json(i2) + r2,
    ensures
        i1 == i2,
        r1 == r2,
{
    lemma_integrity_then(i1, r1);
    lemma_integrity_then(i2, r2);
    let l1 = link_json(i1.prev_hash_sha256) + ("}"@ + r1);
    let l2 = link_json(i2.prev_hash_sha256) + ("}"@ + r2);
    lemma_text_member(
        "{\"hash_sha256\":"@,
        i1.hash_sha256,
        ",\"prev_hash_sha256\":"@ + l1,
        i2.hash_sha256,
        ",\"prev_hash_sha256\":"@ + l2,
    );
    lemma_same_prefix(",\"prev_hash_sha256\":"@, l1, l2);
    lemma_link_json_prefix_free(i1.prev_hash_sha256, "}"@ + r1, i2.prev_hash_sha256, "}"@ + r2);
    lemma_same_prefix("}"@, r1, r2);
}

/// What follows the sequence number in an envelope's text.
spec fn after_sequence(e: EnvelopeModel) -> Seq<char> {
    ",\"payload\":"@ + (payload_json(e.payload) + (",\"identity\":"@ + (identity_json(e.identity)
        + (",\"integrity\":"@ + (integrity_json(e.integrity) + "}"@)))))
}

/// What follows the component's instance in an envelope's text.
spec fn after_instance(e: EnvelopeModel) -> Seq<char> {
    ",\"observed_at\":"@ + (json_string(e.observed_at) + (",\"ingested_at\":"@ + (json_string(
        e.ingested_at,
    ) + (",\"sequence\":"@ + (decimal(e.sequence as nat) + after_sequence(e))))))
}

/// An envelope's text, read member by member.
spec fn envelope_members(e: EnvelopeModel) -> Seq<char> {
    "{\"event_id\":"@ + (json_string(e.event_id) + (",\"machine_id\":"@ + (json_string(
        e.machine_id,
    ) + (",\"component\":"@ + (json_string(e.component) + (",\"component_instance_id\":"@ + (
    json_string(e.component_instance_id) + after_instance(e))))))))
}

/// Reading member by member gives the text itself.
proof fn lemma_envelope_members(e: EnvelopeModel)
    ensures
        envelope_json(e) == envelope_members(e),
{
    let x0 = "{\"event_id\":"@ + json_string(e.event_id);
    let x1 = x0 + ",\"machine_id\":"@ + json_string(e.machine_id);
    let x2 = x1 + ",\"component\":"@ + json_string(e.component);
    let x3 = x2 + ",\"component_instance_id\":"@ + json_string(e.component_instance_id);
    let x4 = x3 + ",\"observed_at\":"@ + json_string(e.observed_at);
    let x5 = x4 + ",\"ingested_at\":"@ + json_string(e.ingested_at);
    let x6 = x5 + ",\"sequence\":"@ + decimal(e.sequence as nat);
    let x7 = x6 + ",\"payload\":"@ + payload_json(e.payload);
    let x8 = x7 + ",\"identity\":"@ + identity_json(e.identity);
    let x9 = x8 + ",\"integrity\":"@ + integrity_json(e.integrity);
    let t9 = "}"@;
    let t8 = ",\"integrity\":"@ + (integrity_json(e.integrity) + t9);
    let t7 = ",\"identity\":"@ + (identity_json(e.identity) + t8);
    let t6 = ",\"payload\":"@ + (payload_json(e.payload) + t7);
    let t5 = ",\"sequence\":"@ + (decimal(e.sequence as nat) + t6);
    let t4 = ",\"ingested_at\":"@ + (json_string(e.ingested_at) + t5);
    let t3 = ",\"observed_at\":"@ + (json_string(e.observed_at) + t4);
    let t2 = ",\"component_instance_id\":"@ + (json_string(e.component_instance_id) + t3);
    let t1 = ",\"component\":"@ + (json_string(e.component) + t2);
    let t0 = ",\"machine_id\":"@ + (json_string(e.machine_id) + t1);
    assert(envelope_json(e) == x9 + t9);
    lemma_regroup_member(x8, ",\"integrity\":"@, integrity_json(e.integrity), t9);
    lemma_regroup_member(x7, ",\"identity\":"@, identity_json(e.identity), t8);
    lemma_regroup_member(x6, ",\"payload\":"@, payload_json(e.payload), t7);
    assert(t6 == after_sequence(e));
    lemma_regroup_member(x5, ",\"sequence\":"@, decimal(e.sequence as nat), t6);
    lemma_regroup_member(x4, ",\"ingested_at\":"@, json_string(e.ingested_at), t5);
    lemma_regroup_member(x3, ",\"observed_at\":"@, json_string(e.observed_at), t4);
    assert(t3 == after_instance(e));
    lemma_regroup_member(
        x2,
        ",\"component_instance_id\":"@,
        json_string(e.component_instance_id),
        t3,
    );
    lemma_regroup_member(x1, ",\"component\":"@, json_string(e.component), t2);
    lemma_regroup_member(x0, ",\"machine_id\":"@, json_string(e.machine_id), t1);
    lemma_regroup("{\"event_id\":"@, json_string(e.event_id), t0);
}

/// Two envelopes with the same canonical text are the same envelope, where
/// their payloads are separate: every field can be read back from the text.
pub proof fn lemma_envelope_json_injective(a: EnvelopeModel, b: EnvelopeModel)
    requires
        payloads_separate(a.payload, b.payload),
        envelope_json(a) == envelope_json(b),
    ensures
        a == b,
{
    lemma_envelope_members(a);
    lemma_envelope_members(b);
    let a3 = json_string(a.component_instance_id) + after_instance(a);
    let b3 = json_string(b.component_instance_id) + after_instance(b);
    let a2 = json_string(a.component) + (",\"component_instance_id\":"@ + a3);
    let b2 = json_string(b.component) + (",\"component_instance_id\":"@ + b3);
    let a1 = json_string(a.machine_id) + (",\"component\":"@ + a2);
    let b1 = json_string(b.machine_id) + (",\"component\":"@ + b2);
    lemma_text_member(
        "{\"event_id\":"@,
        a.event_id,
        ",\"machine_id\":"@ + a1,
        b.event_id,
        ",\"machine_id\":"@ + b1,
    );
    lemma_text_member(
        ",\"machine_id\":"@,
        a.machine_id,
        ",\"component\":"@ + a2,
        b.machine_id,
        ",\"component\":"@ + b2,
    );
    lemma_text_member(
        ",\"component\":"@,
        a.component,
        ",\"component_instance_id\":"@ + a3,
        b.component,
        ",\"component_instance_id\":"@ + b3,
    );
    lemma_text_member(
        ",\"component_instance_id\":"@,
        a.component_instance_id,
        after_instance(a),
        b.component_instance_id,
        after_instance(b),
    );
    let a6 = decimal(a.sequence as nat) + after_sequence(a);
    let b6 = decimal(b.sequence as nat) + after_sequence(b);
    let a5 = json_string(a.ingested_at) + (",\"sequence\":"@ + a6);
    let b5 = json_string(b.ingested_at) + (",\"sequence\":"@ + b6);
    lemma_text_member(
        ",\"observed_at\":"@,
        a.observed_at,
        ",\"ingested_at\":"@ + a5,
        b.observed_at,
        ",\"ingested_at\":"@ + b5,
    );
    lemma_text_member(
        ",\"ingested_at\":"@,
        a.ingested_at,
        ",\"sequence\":"@ + a6,
        b.ingested_at,
        ",\"sequence\":"@ + b6,
    );
    lemma_same_prefix(",\"sequence\":"@, a6, b6);
    reveal_strlit(",\"payload\":");
    assert(after_sequence(a).len() > 0 && after_sequence(a)[0] == ',');
    assert(after_sequence(b).len() > 0 && after_sequence(b)[0] == ',');
    lemma_decimal_delimited(
        a.sequence as nat,
        after_sequence(a),
        b.sequence as nat,
        after_sequence(b),
    );
    let a9 = integrity_json(a.integrity) + "}"@;
    let b9 = integrity_json(b.integrity) + "}"@;
    let a8 = identity_json(a.identity) + (",\"integrity\":"@ + a9);
    let b8 = identity_json(b.identity) + (",\"integrity\":"@ + b9);
    let a7 = payload_json(a.payload) + (",\"identity\":"@ + a8);
    let b7 = payload_json(b.payload) + (",\"identity\":"@ + b8);
    lemma_same_prefix(",\"payload\":"@, a7, b7);
    lemma_payload_json_prefix_free(
        a.payload,
        ",\"identity\":"@ + a8,
        b.payload,
        ",\"identity\":"@ + b8,
    );
    lemma_same_prefix(",\"identity\":"@, a8, b8);
    lemma_identity_json_prefix_free(
        a.identity,
        ",\"integrity\":"@ + a9,
        b.identity,
        ",\"integrity\":"@ + b9,
    );
    lemma_same_prefix(",\"integrity\":"@, a9, b9);
    lemma_integrity_json_prefix_free(a.integrity, "}"@, b.integrity, "}"@);
}

} // verus!
