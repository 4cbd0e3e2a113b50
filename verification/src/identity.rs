//! The machine's identity: its name and the token of its current boot.

use crate::error::{AgentError, ErrorModel};
use crate::text::{lemma_trimmed_is_trimmed, trim, trimmed};
use vstd::prelude::*;

verus! {

/// Where the boot token is read from.
pub const BOOT_ID_SOURCE: &'static str = "/proc/sys/kernel/random/boot_id";

/// What asking the system for its host name gave.
#[derive(Clone, Debug, PartialEq, Eq)]
pub enum HostnameLookup {
    /// The system reported this name.
    Name(String),
    /// The system reported an error.
    Unavailable,
    /// The system reported a name that is not valid UTF-8.
    NotText,
}

/// Calls `hostname::get` and turns the name it reports into text.
///
/// Nothing is promised of the result: it is whatever the system reports. An
/// error of the call becomes `Unavailable`, a name that is not valid UTF-8
/// becomes `NotText`.
#[verifier::external_body]
fn system_hostname() -> (lookup: HostnameLookup) {
    match hostname::get() {
        Ok(name) => match name.into_string() {
            Ok(text) => HostnameLookup::Name(text),
            Err(_) => HostnameLookup::NotText,
        },
        Err(_) => HostnameLookup::Unavailable,
    }
}

/// The machine identifier for a reported host name: the name itself where
/// there is one and it is not empty.
pub open spec fn machine_id_of(lookup: HostnameLookup) -> Result<Seq<char>, ErrorModel> {
    match lookup {
        HostnameLookup::Name(name) => if name@.len() == 0 {
            Err(ErrorModel::HostnameEmpty)
        } else {
            Ok(name@)
        },
        HostnameLookup::Unavailable => Err(ErrorModel::HostnameUnavailable),
        HostnameLookup::NotText => Err(ErrorModel::HostnameNotText),
    }
}

/// The machine identifier for a reported host name, or the failure that says
/// why there is none.
pub fn machine_id_from(lookup: HostnameLookup) -> (r: Result<String, AgentError>)
    ensures
        match machine_id_of(lookup) {
            Ok(id) => r is Ok && r->Ok_0@ == id,
            Err(e) => r is Err && r->Err_0@ == e,
        },
{
    match lookup {
        HostnameLookup::Name(name) => {
            if name.as_str().is_empty() {
                Err(AgentError::HostnameEmpty)
            } else {
                Ok(name)
            }
        },
        HostnameLookup::Unavailable => Err(AgentError::HostnameUnavailable),
        HostnameLookup::NotText => Err(AgentError::HostnameNotText),
    }
}

/// Whether `e` is one of the failures of the host name.
pub open spec fn is_hostname_failure(e: ErrorModel) -> bool {
    e is HostnameUnavailable || e is HostnameNotText || e is HostnameEmpty
}

/// The machine identifier: the system's host name. It is never empty; where
/// the system gives no usable name the run fails.
pub fn get_machine_id() -> (r: Result<String, AgentError>)
    ensures
        r is Ok ==> r->Ok_0@.len() > 0,
        r is Err ==> is_hostname_failure(r->Err_0@),
{
    machine_id_from(system_hostname())
}

/// The boot token for what was read from its source: the text without the
/// white space around it, where something was read and the rest is not empty.
pub open spec fn boot_id_of(source: Seq<char>, contents: Option<Seq<char>>) -> Result<
    Seq<char>,
    ErrorModel,
> {
    match contents {
        None => Err(ErrorModel::BootIdUnreadable { source }),
        Some(text) => if trimmed(text).len() == 0 {
            Err(ErrorModel::BootIdEmpty { source })
        } else {
            Ok(trimmed(text))
        },
    }
}

/// The boot token, given what was read from `source`: `None` where the source
/// could not be read.
pub fn get_boot_id(source: &str, contents: Option<&str>) -> (r: Result<String, AgentError>)
    ensures
        match boot_id_of(
            source@,
            match contents {
                Some(text) => Some(text@),
                None => None,
            },
        ) {
            Ok(id) => r is Ok && r->Ok_0@ == id && id.len() > 0 && trimmed(id) == id,
            Err(e) => r is Err && r->Err_0@ == e,
        },
{
    proof {
        if contents is Some {
            lemma_trimmed_is_trimmed(contents->0@);
        }
    }
    match contents {
        None => Err(AgentError::BootIdUnreadable { source: String::from_str(source) }),
        Some(text) => {
            let token = trim(text);
            if token.as_str().is_empty() {
                Err(AgentError::BootIdEmpty { source: String::from_str(source) })
            } else {
                Ok(token)
            }
        },
    }
}

} // verus!
