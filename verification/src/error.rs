//! What can end a run, and the exit code that each ending maps to.

use vstd::prelude::*;

verus! {

/// The ways a run can fail. Every one of them is final: nothing is retried.
#[derive(Debug, PartialEq, Eq)]
pub enum AgentError {
    /// A required configuration input is not set.
    MissingVariable { name: String, description: String },
    /// The system did not report a host name.
    HostnameUnavailable,
    /// The host name is not valid text.
    HostnameNotText,
    /// The system reported an empty host name.
    HostnameEmpty,
    /// The boot token could not be read from its source.
    BootIdUnreadable { source: String },
    /// The boot token is empty once the white space around it is removed.
    BootIdEmpty { source: String },
    /// The observation time is not an RFC 3339 date-time in UTC.
    InvalidTimestamp { value: String },
    /// The envelope breaks one of the rules on its fields.
    NotWellFormed { event_id: String },
    /// The envelope does not store its own digest.
    NotSealed { event_id: String },
    /// The HTTP client could not be set up.
    ClientSetup { reason: String },
    /// The request got no response.
    TransportFailure { ingest_url: String, event_id: String, reason: String },
    /// The destination answered with a status outside the 2xx class.
    /// `status_text` is the status as the response shows it, such as
    /// `404 Not Found`.
    RejectedStatus { status: u16, status_text: String, body: String, event_id: String },
    /// A failure together with the step that it ended.
    Context { context: String, cause: Box<AgentError> },
}

/// Model of [`AgentError`]: every text as its sequence of characters.
pub ghost enum ErrorModel {
    MissingVariable { name: Seq<char>, description: Seq<char> },
    HostnameUnavailable,
    HostnameNotText,
    HostnameEmpty,
    BootIdUnreadable { source: Seq<char> },
    BootIdEmpty { source: Seq<char> },
    InvalidTimestamp { value: Seq<char> },
    NotWellFormed { event_id: Seq<char> },
    NotSealed { event_id: Seq<char> },
    ClientSetup { reason: Seq<char> },
    TransportFailure { ingest_url: Seq<char>, event_id: Seq<char>, reason: Seq<char> },
    RejectedStatus { status: u16, status_text: Seq<char>, body: Seq<char>, event_id: Seq<char> },
    Context { context: Seq<char>, cause: Box<ErrorModel> },
}

impl View for AgentError {
    type V = ErrorModel;

    open spec fn view(&self) -> ErrorModel
        decreases self,
    {
        match self {
            AgentError::MissingVariable { name, description } => ErrorModel::MissingVariable {
                name: name@,
                description: description@,
            },
            AgentError::HostnameUnavailable => ErrorModel::HostnameUnavailable,
            AgentError::HostnameNotText => ErrorModel::HostnameNotText,
            AgentError::HostnameEmpty => ErrorModel::HostnameEmpty,
            AgentError::BootIdUnreadable { source } => ErrorModel::BootIdUnreadable {
                source: source@,
            },
            AgentError::BootIdEmpty { source } => ErrorModel::BootIdEmpty { source: source@ },
            AgentError::InvalidTimestamp { value } => ErrorModel::InvalidTimestamp {
                value: value@,
            },
            AgentError::NotWellFormed { event_id } => ErrorModel::NotWellFormed {
                event_id: event_id@,
            },
            AgentError::NotSealed { event_id } => ErrorModel::NotSealed { event_id: event_id@ },
            AgentError::ClientSetup { reason } => ErrorModel::ClientSetup { reason: reason@ },
            AgentError::TransportFailure {
                ingest_url,
                event_id,
                reason,
            } => ErrorModel::TransportFailure {
                ingest_url: ingest_url@,
                event_id: event_id@,
                reason: reason@,
            },
            AgentError::RejectedStatus {
                status,
                status_text,
                body,
                event_id,
            } => ErrorModel::RejectedStatus {
                status: *status,
                status_text: status_text@,
                body: body@,
                event_id: event_id@,
            },
            AgentError::Context { context, cause } => ErrorModel::Context {
                context: context@,
                cause: Box::new((**cause)@),
            },
        }
    }
}

/// How the process ends.
#[derive(Clone, Copy, Debug, PartialEq, Eq, Structural)]
pub enum ExitCode {
    /// The envelope was built and delivered.
    Success,
    /// Reserved for configuration errors; they end as start-up errors today.
    ConfigError,
    /// The envelope could not be built, or the client could not be set up.
    StartupError,
    /// The envelope was built and its delivery failed.
    RuntimeError,
    /// Reserved.
    FatalError,
}

impl ExitCode {
    /// The number of the exit code.
    pub open spec fn number(self) -> int {
        match self {
            ExitCode::Success => 0,
            ExitCode::ConfigError => 1,
            ExitCode::StartupError => 2,
            ExitCode::RuntimeError => 3,
            ExitCode::FatalError => 4,
        }
    }

    /// The number that the process exits with.
    pub fn code(self) -> (n: i32)
        ensures
            n == self.number(),
    {
        match self {
            ExitCode::Success => 0,
            ExitCode::ConfigError => 1,
            ExitCode::StartupError => 2,
            ExitCode::RuntimeError => 3,
            ExitCode::FatalError => 4,
        }
    }
}

impl ErrorModel {
    /// The failure itself, without the steps that it ended.
    pub open spec fn root(self) -> ErrorModel
        decreases self,
    {
        match self {
            ErrorModel::Context { context, cause } => cause.root(),
            _ => self,
        }
    }

    /// Whether the failure lies in the delivery, after the envelope was built.
    pub open spec fn is_delivery_failure(self) -> bool {
        self.root() is TransportFailure || self.root() is RejectedStatus
    }

    /// The exit code of a run that ends with this failure: a delivery failure
    /// is a runtime error, everything before it a start-up error.
    pub open spec fn exit_code(self) -> ExitCode {
        if self.is_delivery_failure() {
            ExitCode::RuntimeError
        } else {
            ExitCode::StartupError
        }
    }

    /// The text that describes the failure. A failure with a step shows the
    /// step; what caused it is in `cause`.
    pub open spec fn message(self) -> Seq<char> {
        match self {
            ErrorModel::MissingVariable { name, description } =>
                "Missing required environment variable: "@ + name + " ("@ + description + ")"@,
            ErrorModel::HostnameUnavailable => "Failed to get hostname"@,
            ErrorModel::HostnameNotText => "Hostname is not valid UTF-8"@,
            ErrorModel::HostnameEmpty => "Hostname is empty"@,
            ErrorModel::BootIdUnreadable { source } => "Failed to read boot_id from "@ + source,
            ErrorModel::BootIdEmpty { source } =>
                "boot_id is empty after reading from "@ + source,
            ErrorModel::InvalidTimestamp { value } =>
                "Timestamp is not RFC 3339 in UTC: "@ + value,
            ErrorModel::NotWellFormed { event_id } => "Envelope is not well formed: "@ + event_id,
            ErrorModel::NotSealed { event_id } =>
                "Envelope does not carry its own hash: "@ + event_id,
            ErrorModel::ClientSetup { reason } => "Failed to create HTTP client: "@ + reason,
            ErrorModel::TransportFailure { ingest_url, event_id, reason } =>
                "HTTP request failed: "@ + reason,
            ErrorModel::RejectedStatus { status, status_text, body, event_id } =>
                "Ingest service returned error status "@ + status_text + ": "@ + body,
            ErrorModel::Context { context, cause } => context,
        }
    }
}

impl AgentError {
    /// The exit code of a run that ends with this failure.
    pub fn exit_code(&self) -> (code: ExitCode)
        ensures
            code == self@.exit_code(),
        decreases self,
    {
        match self {
            AgentError::TransportFailure { .. } => ExitCode::RuntimeError,
            AgentError::RejectedStatus { .. } => ExitCode::RuntimeError,
            AgentError::Context { cause, .. } => cause.exit_code(),
            _ => ExitCode::StartupError,
        }
    }

    /// The failure that this one was caused by, where it names a step.
    pub fn cause(&self) -> (inner: Option<&AgentError>)
        ensures
            match self@ {
                ErrorModel::Context { context, cause } => inner is Some && inner->0@ == *cause,
                _ => inner is None,
            },
    {
        match self {
            AgentError::Context { cause, .. } => Some(&**cause),
            _ => None,
        }
    }

    /// The same failure as the end of the step `context`.
    pub fn context(self, context: &str) -> (wrapped: AgentError)
        ensures
            wrapped@ == in_step(context@, self@),
            wrapped@.exit_code() == self@.exit_code(),
    {
        proof {
            lemma_step_keeps_exit_code(context@, self@);
        }
        AgentError::Context { context: String::from_str(context), cause: Box::new(self) }
    }

    /// The text that describes the failure, with the identifiers it concerns.
    pub fn message(&self) -> (text: String)
        ensures
            text@ == self@.message(),
    {
        match self {
            AgentError::MissingVariable { name, description } => {
                let mut text = String::from_str("Missing required environment variable: ");
                text.append(name.as_str());
                text.append(" (");
                text.append(description.as_str());
                text.append(")");
                text
            },
            AgentError::HostnameUnavailable => String::from_str("Failed to get hostname"),
            AgentError::HostnameNotText => String::from_str("Hostname is not valid UTF-8"),
            AgentError::HostnameEmpty => String::from_str("Hostname is empty"),
            AgentError::BootIdUnreadable { source } => {
                let mut text = String::from_str("Failed to read boot_id from ");
                text.append(source.as_str());
                text
            },
            AgentError::BootIdEmpty { source } => {
                let mut text = String::from_str("boot_id is empty after reading from ");
                text.append(source.as_str());
                text
            },
            AgentError::InvalidTimestamp { value } => {
                let mut text = String::from_str("Timestamp is not RFC 3339 in UTC: ");
                text.append(value.as_str());
                text
            },
            AgentError::NotWellFormed { event_id } => {
                let mut text = String::from_str("Envelope is not well formed: ");
                text.append(event_id.as_str());
                text
            },
            AgentError::NotSealed { event_id } => {
                let mut text = String::from_str("Envelope does not carry its own hash: ");
                text.append(event_id.as_str());
                text
            },
            AgentError::ClientSetup { reason } => {
                let mut text = String::from_str("Failed to create HTTP client: ");
                text.append(reason.as_str());
                text
            },
            AgentError::TransportFailure { reason, .. } => {
                let mut text = String::from_str("HTTP request failed: ");
                text.append(reason.as_str());
                text
            },
            AgentError::RejectedStatus { status_text, body, .. } => {
                let mut text = String::from_str("Ingest service returned error status ");
                text.append(status_text.as_str());
                text.append(": ");
                text.append(body.as_str());
                text
            },
            AgentError::Context { context, .. } => context.clone(),
        }
    }
}

/// The failure `cause` as the end of the step `context`.
pub open spec fn in_step(context: Seq<char>, cause: ErrorModel) -> ErrorModel {
    ErrorModel::Context { context, cause: Box::new(cause) }
}

/// Naming the step changes the text of a failure and nothing else: the
/// failure itself and the exit code stay.
pub proof fn lemma_step_keeps_exit_code(context: Seq<char>, cause: ErrorModel)
    ensures
        in_step(context, cause).root() == cause.root(),
        in_step(context, cause).exit_code() == cause.exit_code(),
        in_step(context, cause).message() == context,
{
}

/// No failure ends the run with the code of success: a failure before the
/// delivery ends it with the start-up code 2, a failed delivery with the
/// runtime code 3.
pub proof fn lemma_failure_exit_codes(e: ErrorModel)
    ensures
        e.exit_code() != ExitCode::Success,
        e.exit_code().number() != 0,
        !e.is_delivery_failure() ==> e.exit_code() == ExitCode::StartupError
            && e.exit_code().number() == 2,
        e.is_delivery_failure() ==> e.exit_code() == ExitCode::RuntimeError
            && e.exit_code().number() == 3,
{
}

/// The exit code of a whole run: success if nothing failed, else the code of
/// the failure.
pub open spec fn run_exit_code(outcome: Result<(), ErrorModel>) -> ExitCode {
    match outcome {
        Ok(_) => ExitCode::Success,
        Err(e) => e.exit_code(),
    }
}

/// The exit code of a whole run.
pub fn exit_code_of(outcome: &Result<(), AgentError>) -> (code: ExitCode)
    ensures
        code == run_exit_code(
            match *outcome {
                Ok(_) => Ok(()),
                Err(e) => Err(e@),
            },
        ),
        (code == ExitCode::Success) == (*outcome is Ok),
{
    match outcome {
        Ok(_) => ExitCode::Success,
        Err(e) => e.exit_code(),
    }
}

} // verus!
