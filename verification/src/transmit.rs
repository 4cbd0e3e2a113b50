//! Delivery of a sealed envelope: what is sent, and how one attempt is judged.
//! The request itself is made by the caller; there is one attempt and no
//! retry.

use crate::envelope::{envelope_json, EventEnvelope};
use crate::error::{run_exit_code, AgentError, ErrorModel, ExitCode};
use crate::integrity::verify_hash;
use vstd::prelude::*;

verus! {

/// The bound on the one request, in seconds.
pub const DELIVERY_TIMEOUT_SECS: u64 = 30;

/// What stands for a response body that could not be read.
pub const UNREADABLE_BODY: &'static str = "(no response body)";

/// The media type of the body.
pub const BODY_CONTENT_TYPE: &'static str = "application/json";

/// One HTTP POST: where it goes, what it carries and how long it may take.
#[derive(Clone, Debug, PartialEq, Eq)]
pub struct DeliveryRequest {
    pub url: String,
    pub content_type: String,
    pub body: String,
    pub timeout_secs: u64,
}

/// Model of [`DeliveryRequest`].
pub ghost struct RequestModel {
    pub url: Seq<char>,
    pub content_type: Seq<char>,
    pub body: Seq<char>,
    pub timeout_secs: u64,
}

impl View for DeliveryRequest {
    type V = RequestModel;

    open spec fn view(&self) -> RequestModel {
        RequestModel {
            url: self.url@,
            content_type: self.content_type@,
            body: self.body@,
            timeout_secs: self.timeout_secs,
        }
    }
}

/// How the one request ended.
#[derive(Clone, Debug, PartialEq, Eq)]
pub enum DeliveryAttempt {
    /// No response came: the connection failed or the time ran out.
    NoResponse { reason: String },
    /// A response came: its status as a number and as the response shows it
    /// (`404 Not Found`), and its body where it could be read.
    Response { status: u16, status_text: String, body: Option<String> },
}

/// Model of [`DeliveryAttempt`].
pub ghost enum AttemptModel {
    NoResponse { reason: Seq<char> },
    Response { status: u16, status_text: Seq<char>, body: Option<Seq<char>> },
}

impl View for DeliveryAttempt {
    type V = AttemptModel;

    open spec fn view(&self) -> AttemptModel {
        match self {
            DeliveryAttempt::NoResponse { reason } => AttemptModel::NoResponse {
                reason: reason@,
            },
            DeliveryAttempt::Response { status, status_text, body } => AttemptModel::Response {
                status: *status,
                status_text: status_text@,
                body: match body {
                    Some(text) => Some(text@),
                    None => None,
                },
            },
        }
    }
}

/// Whether `status` is in the 2xx class.
pub open spec fn is_success_status(status: u16) -> bool {
    200 <= status < 300
}

/// Executable form of [`is_success_status`].
pub fn status_is_success(status: u16) -> (r: bool)
    ensures
        r == is_success_status(status),
{
    200 <= status && status < 300
}

/// The request that delivers `envelope` to `ingest_url`: its body is the
/// envelope's canonical JSON text. Only a finished envelope is sent: one that
/// keeps the rules on its fields and stores its own digest.
pub fn prepare_delivery(envelope: &EventEnvelope, ingest_url: &str) -> (r: Result<
    DeliveryRequest,
    AgentError,
>)
    ensures
        !envelope@.well_formed() ==> r is Err && r->Err_0@ == (ErrorModel::NotWellFormed {
            event_id: envelope@.event_id,
        }),
        envelope@.well_formed() && !envelope@.is_sealed() ==> r is Err && r->Err_0@ == (
        ErrorModel::NotSealed { event_id: envelope@.event_id }),
        envelope@.well_formed() && envelope@.is_sealed() ==> r is Ok && r->Ok_0@ == (
        RequestModel {
            url: ingest_url@,
            content_type: BODY_CONTENT_TYPE@,
            body: envelope_json(envelope@),
            timeout_secs: DELIVERY_TIMEOUT_SECS,
        }),
{
    if !envelope.is_well_formed() {
        Err(AgentError::NotWellFormed { event_id: envelope.event_id.clone() })
    } else if !verify_hash(envelope) {
        Err(AgentError::NotSealed { event_id: envelope.event_id.clone() })
    } else {
        Ok(
            DeliveryRequest {
                url: String::from_str(ingest_url),
                content_type: String::from_str(BODY_CONTENT_TYPE),
                body: envelope.to_json(),
                timeout_secs: DELIVERY_TIMEOUT_SECS,
            },
        )
    }
}

/// What an attempt to deliver the event `event_id` to `ingest_url` amounts
/// to: success for a response in the 2xx class, a rejection for any other
/// response, a transport failure where no response came.
pub open spec fn delivery_outcome(
    attempt: AttemptModel,
    ingest_url: Seq<char>,
    event_id: Seq<char>,
) -> Result<(), ErrorModel> {
    match attempt {
        AttemptModel::NoResponse { reason } => Err(
            ErrorModel::TransportFailure { ingest_url, event_id, reason },
        ),
        AttemptModel::Response { status, status_text, body } => if is_success_status(status) {
            Ok(())
        } else {
            Err(
                ErrorModel::RejectedStatus {
                    status,
                    status_text,
                    body: match body {
                        Some(text) => text,
                        None => UNREADABLE_BODY@,
                    },
                    event_id,
                },
            )
        },
    }
}

/// Judges the one attempt to deliver `envelope` to `ingest_url`. The envelope
/// is only read: whatever the outcome, it stays as it was built.
pub fn judge_delivery(attempt: DeliveryAttempt, envelope: &EventEnvelope, ingest_url: &str) -> (r:
    Result<(), AgentError>)
    ensures
        match delivery_outcome(attempt@, ingest_url@, envelope@.event_id) {
            Ok(_) => r is Ok,
            Err(e) => r is Err && r->Err_0@ == e,
        },
{
    match attempt {
        DeliveryAttempt::NoResponse { reason } => Err(
            AgentError::TransportFailure {
                ingest_url: String::from_str(ingest_url),
                event_id: envelope.event_id.clone(),
                reason,
            },
        ),
        DeliveryAttempt::Response { status, status_text, body } => {
            if status_is_success(status) {
                Ok(())
            } else {
                let body = match body {
                    Some(text) => text,
                    None => String::from_str(UNREADABLE_BODY),
                };
                Err(
                    AgentError::RejectedStatus {
                        status,
                        status_text,
                        body,
                        event_id: envelope.event_id.clone(),
                    },
                )
            }
        },
    }
}

/// A response outside the 2xx class ends the run with the runtime-error code,
/// and a response inside it with success.
pub proof fn lemma_status_decides_exit_code(
    status: u16,
    status_text: Seq<char>,
    body: Option<Seq<char>>,
    ingest_url: Seq<char>,
    event_id: Seq<char>,
)
    ensures
        ({
            let outcome = delivery_outcome(
                AttemptModel::Response { status, status_text, body },
                ingest_url,
                event_id,
            );
            &&& is_success_status(status) ==> outcome is Ok && run_exit_code(outcome)
                == ExitCode::Success
            &&& !is_success_status(status) ==> outcome is Err && outcome->Err_0 is RejectedStatus
                && run_exit_code(outcome) == ExitCode::RuntimeError && run_exit_code(
                outcome,
            ).number() == 3
        }),
{
}

/// A request without a response ends the run with the runtime-error code.
pub proof fn lemma_transport_failure_exit_code(
    reason: Seq<char>,
    ingest_url: Seq<char>,
    event_id: Seq<char>,
)
    ensures
        run_exit_code(
            delivery_outcome(AttemptModel::NoResponse { reason }, ingest_url, event_id),
        ) == ExitCode::RuntimeError,
{
}

} // verus!
