//! Deployment parameters: required ones fail closed, the optional one has a
//! default.

use crate::error::{AgentError, ErrorModel};
use vstd::prelude::*;

verus! {

/// Name of the required input that identifies this instance of the agent.
pub const INSTANCE_ID_VARIABLE: &'static str = "RANSOMEYE_COMPONENT_INSTANCE_ID";

/// What the instance identifier is for.
pub const INSTANCE_ID_PURPOSE: &'static str =
    "Component instance identifier (required, UUID format recommended)";

/// Name of the required input that gives the agent's version.
pub const VERSION_VARIABLE: &'static str = "RANSOMEYE_VERSION";

/// What the version is for.
pub const VERSION_PURPOSE: &'static str = "Agent version string (required, e.g., '1.0.0')";

/// Name of the optional input that gives the destination.
pub const INGEST_URL_VARIABLE: &'static str = "RANSOMEYE_INGEST_URL";

/// The destination that is used where none is configured.
pub const DEFAULT_INGEST_URL: &'static str = "http://localhost:8000/events";

/// The value of a required input, or the failure that names the input and its
/// purpose where the input is not set.
pub fn read_env_var(name: &str, description: &str, value: Option<String>) -> (r: Result<
    String,
    AgentError,
>)
    ensures
        value is Some ==> r == Ok::<String, AgentError>(value->0),
        value is None ==> r is Err && r->Err_0@ == (ErrorModel::MissingVariable {
            name: name@,
            description: description@,
        }),
{
    match value {
        Some(v) => Ok(v),
        None => Err(
            AgentError::MissingVariable {
                name: String::from_str(name),
                description: String::from_str(description),
            },
        ),
    }
}

/// The destination: the configured one, taken as it is, or the default.
pub fn resolve_ingest_url(value: Option<String>) -> (url: String)
    ensures
        value is Some ==> url == value->0,
        value is None ==> url@ == DEFAULT_INGEST_URL@,
{
    match value {
        Some(v) => v,
        None => String::from_str(DEFAULT_INGEST_URL),
    }
}

} // verus!
