//! Finding the cloud project that the service runs in, once, at startup.
//!
//! Resolution is a short chain of sources, tried in order: an explicit
//! identifier from the configuration, then the local metadata service. The
//! caller performs each query; the functions here decide, from what came back,
//! whether the chain has ended and with which identifier or error.
use vstd::prelude::*;
use vstd::string::StringExecFns;

verus! {

/// How the metadata service answered the request for the project identifier.
pub enum MetadataReply {
    /// No answer came; the text describes the transport failure.
    Unreachable(String),
    /// An answer came, with this HTTP status code and the status as text
    /// (such as `404 Not Found`).
    Answered(u16, String),
}

/// Why the project identifier could not be found. Each kind carries only text.
pub enum ResolutionError {
    /// The metadata service could not be reached; the transport error's text.
    Unreachable(String),
    /// The metadata service answered with a failure status; the status as text.
    Rejected(String),
    /// The metadata service's answer could not be read as text; the error's text.
    Unreadable(String),
}

/// What the service does next while it looks for its project identifier.
pub enum ResolutionStep {
    /// The identifier is known; the search is over.
    Resolved(String),
    /// Ask the metadata service for the identifier.
    QueryMetadata,
    /// The metadata service answered with success: read the answer's body.
    ReadBody,
    /// The search failed; the service must not start.
    Failed(ResolutionError),
}

/// Whether an HTTP status code reports success (the 2xx range).
pub open spec fn is_success(status: u16) -> bool {
    200 <= status && status <= 299
}

pub open spec fn unreachable_prefix() -> Seq<char> {
    "Error querying metadata server: "@
}

pub open spec fn rejected_prefix() -> Seq<char> {
    "Metadata server returned error: "@
}

/// The step that the configured identifier leads to: the search ends with it
/// where it is set and not empty; otherwise the metadata service is asked.
pub open spec fn first_step(configured: Option<String>, r: ResolutionStep) -> bool {
    match configured {
        Some(id) => if id@.len() > 0 {
            r matches ResolutionStep::Resolved(found) && found@ == id@
        } else {
            r matches ResolutionStep::QueryMetadata
        },
        None => r matches ResolutionStep::QueryMetadata,
    }
}

/// The step that the metadata service's reply leads to.
pub open spec fn step_after_reply(reply: MetadataReply, r: ResolutionStep) -> bool {
    match reply {
        MetadataReply::Unreachable(e) => r matches ResolutionStep::Failed(
            ResolutionError::Unreachable(err),
        ) && err@ == e@,
        MetadataReply::Answered(status, text) => if is_success(status) {
            r matches ResolutionStep::ReadBody
        } else {
            r matches ResolutionStep::Failed(ResolutionError::Rejected(shown)) && shown@ == text@
        },
    }
}

/// The step that reading the body of a successful reply leads to.
pub open spec fn step_after_body(body: Result<String, String>, r: ResolutionStep) -> bool {
    match body {
        Ok(id) => r matches ResolutionStep::Resolved(found) && found@ == id@,
        Err(e) => r matches ResolutionStep::Failed(ResolutionError::Unreadable(err)) && err@ == e@,
    }
}

impl ResolutionError {
    /// The error's text, as reported when the service refuses to start.
    pub open spec fn message_of(&self) -> Seq<char> {
        match self {
            ResolutionError::Unreachable(e) => unreachable_prefix() + e@,
            ResolutionError::Rejected(status) => rejected_prefix() + status@,
            ResolutionError::Unreadable(e) => e@,
        }
    }

    /// The error's text, as reported when the service refuses to start.
    pub fn message(&self) -> (r: String)
        ensures
            r@ == self.message_of(),
    {
        match self {
            ResolutionError::Unreachable(e) => {
                let mut r = String::from_str("Error querying metadata server: ");
                r.append(e.as_str());
                r
            },
            ResolutionError::Rejected(status) => {
                let mut r = String::from_str("Metadata server returned error: ");
                r.append(status.as_str());
                r
            },
            ResolutionError::Unreadable(e) => e.clone(),
        }
    }
}

/// The first source: a configured identifier ends the search where it is set
/// and not empty; otherwise the metadata service is asked.
pub fn start_resolution(configured: Option<String>) -> (r: ResolutionStep)
    ensures
        first_step(configured, r),
{
    match configured {
        Some(id) => {
            if id.as_str().is_empty() {
                ResolutionStep::QueryMetadata
            } else {
                ResolutionStep::Resolved(id)
            }
        },
        None => ResolutionStep::QueryMetadata,
    }
}

/// The second source: a success status means the body is to be read; a
/// failure status or no answer at all ends the search with an error.
pub fn after_metadata_reply(reply: MetadataReply) -> (r: ResolutionStep)
    ensures
        step_after_reply(reply, r),
{
    match reply {
        MetadataReply::Unreachable(e) => ResolutionStep::Failed(ResolutionError::Unreachable(e)),
        MetadataReply::Answered(status, text) => {
            if 200 <= status && status <= 299 {
                ResolutionStep::ReadBody
            } else {
                ResolutionStep::Failed(ResolutionError::Rejected(text))
            }
        },
    }
}

/// The end of the search: the body of a successful answer is the identifier.
pub fn after_body(body: Result<String, String>) -> (r: ResolutionStep)
    ensures
        step_after_body(body, r),
{
    match body {
        Ok(id) => ResolutionStep::Resolved(id),
        Err(e) => ResolutionStep::Failed(ResolutionError::Unreadable(e)),
    }
}

/// A configured identifier that is not empty ends the search at once, with
/// that identifier: the metadata service is never asked.
pub proof fn configured_identifier_wins(id: String, r: ResolutionStep)
    requires
        id@.len() > 0,
        first_step(Some(id), r),
    ensures
        r matches ResolutionStep::Resolved(found) && found@ == id@,
        !(r matches ResolutionStep::QueryMetadata),
{
}

/// With no identifier configured and the metadata service out of reach, the
/// search fails, and the service must not start.
pub proof fn unreachable_metadata_is_fatal(e: String, first: ResolutionStep, next: ResolutionStep)
    requires
        first_step(None, first),
        step_after_reply(MetadataReply::Unreachable(e), next),
    ensures
        first matches ResolutionStep::QueryMetadata,
        next matches ResolutionStep::Failed(err) && err.message_of() == unreachable_prefix() + e@,
{
}

} // verus!
