//! The error-classification layer and the workflow error taxonomy.
//!
//! The classifier maps an opaque backend failure, read as a
//! [`BackendFailure`], onto the small provider-error taxonomy
//! [`ProvideError`].  The mapping is total: every backend failure reaches
//! exactly one taxonomy member.  The workflow taxonomy [`Error`] wraps a
//! port failure together with the workflow step that produced it.

use vstd::prelude::*;
use vstd::string::{StrSliceExecFns, StringExecFns};

verus! {

/// The workflow step at which a failure surfaced, carried by every
/// [`Error`] so that a caller can tell which call produced it.
#[derive(Debug, Clone, Copy, PartialEq, Eq, Structural)]
pub enum WorkflowStep {
    /// Create workflow: pulling the image and draining its progress stream.
    PullingImage,
    /// Create workflow: asking the engine to create the container.
    CreatingContainer,
    /// Create workflow: asking the engine to start the container.
    Starting,
    /// Create workflow: persisting the record of the started container.
    Persisting,
    /// List workflow: collecting the persisted records.
    ListingRecords,
    /// List workflow: querying the engine for the filtered live set.
    ListingContainers,
    /// List workflow: merging the engine replies into the response.
    MergingResults,
}

/// What the classifier reads from a failure surfaced by the persistence
/// backend: the absence of a matching row, a database-reported error with
/// its classification code, or anything else.
#[derive(Debug)]
pub enum BackendFailure {
    /// No row matched the query.
    RowNotFound,
    /// The database reported an error: its classification code (absent when
    /// the backend supplied none), its human-readable detail string, and its
    /// message.
    Database { code: Option<String>, details: Option<String>, message: String },
    /// Any other failure, described in words.
    Other { description: String },
}

/// An error returned by a provider, classified from a backend failure.
#[derive(Debug)]
pub enum ProvideError {
    /// The requested entity does not exist.
    NotFound,
    /// The operation violates a uniqueness constraint.
    UniqueViolation { details: String },
    /// The requested operation violates the data model.
    ModelViolation { details: String },
    /// Anything not recognized, carrying a description for diagnostics.
    UnHandledError { description: String },
}

/// The classification code family of integrity-constraint violations: the
/// codes that begin with `23`.
pub open spec fn integrity_family(code: Seq<char>) -> bool {
    code.len() >= 2 && code[0] == '2' && code[1] == '3'
}

/// The detail string a unique violation carries: the backend's detail string
/// where it supplied one, else its message.
pub open spec fn unique_details(details: Option<String>, message: String) -> String {
    if details is Some {
        details->Some_0
    } else {
        message
    }
}

/// The taxonomy member a backend failure classifies to: the absence of a row
/// maps to `NotFound`; a database error whose code signals a unique
/// constraint maps to `UniqueViolation`; one whose code is any other member
/// of the integrity-constraint family maps to `ModelViolation`; everything
/// else maps to `UnHandledError`.
pub open spec fn classified(e: BackendFailure) -> ProvideError {
    match e {
        BackendFailure::RowNotFound => ProvideError::NotFound,
        BackendFailure::Database { code, details, message } => {
            if code is Some && code->Some_0@ == "23505"@ {
                ProvideError::UniqueViolation { details: unique_details(details, message) }
            } else if code is Some && integrity_family(code->Some_0@) {
                ProvideError::ModelViolation { details: message }
            } else {
                ProvideError::UnHandledError { description: message }
            }
        },
        BackendFailure::Other { description } => ProvideError::UnHandledError { description },
    }
}

impl ProvideError {
    /// Classification of a database-reported error from its code: the
    /// unique-constraint code `23505` yields `UniqueViolation`, any other
    /// code of the integrity-constraint family yields `ModelViolation`, and
    /// an unrecognized code is bounced back to the caller.
    pub fn try_from_database(code: &String, details: &Option<String>, message: &String) -> (r:
        Result<ProvideError, ()>)
        ensures
            code@ == "23505"@ ==> r == Ok::<ProvideError, ()>(ProvideError::UniqueViolation {
                details: unique_details(*details, *message),
            }),
            code@ != "23505"@ && integrity_family(code@) ==> r == Ok::<ProvideError, ()>(
                ProvideError::ModelViolation { details: *message },
            ),
            !integrity_family(code@) ==> r == Err::<ProvideError, ()>(()),
    {
        proof {
            reveal_strlit("23505");
        }
        if *code == String::from_str("23505") {
            let d = match details {
                Some(d) => d.clone(),
                None => message.clone(),
            };
            Ok(ProvideError::UniqueViolation { details: d })
        } else if code.unicode_len() >= 2 && code.as_str().get_char(0) == '2'
            && code.as_str().get_char(1) == '3' {
            Ok(ProvideError::ModelViolation { details: message.clone() })
        } else {
            Err(())
        }
    }
}

impl From<BackendFailure> for ProvideError {
    /// The total classification of a backend failure; see [`classified`].
    fn from(e: BackendFailure) -> (r: ProvideError) {
        match e {
            BackendFailure::RowNotFound => ProvideError::NotFound,
            BackendFailure::Database { code, details, message } => match code {
                Some(c) => match ProvideError::try_from_database(&c, &details, &message) {
                    Ok(pe) => pe,
                    Err(()) => ProvideError::UnHandledError { description: message },
                },
                None => ProvideError::UnHandledError { description: message },
            },
            BackendFailure::Other { description } => ProvideError::UnHandledError { description },
        }
    }
}

impl vstd::std_specs::convert::FromSpecImpl<BackendFailure> for ProvideError {
    open spec fn obeys_from_spec() -> bool {
        true
    }

    open spec fn from_spec(e: BackendFailure) -> ProvideError {
        classified(e)
    }
}

/// A classified, contextualized workflow failure: an engine-reported fault,
/// a classified store failure, or an abort on an unusable intermediate
/// result, each carrying the step that produced it.
#[derive(Debug)]
pub enum Error {
    /// The container runtime reported a fault.
    EngineError { step: WorkflowStep, msg: String },
    /// The persistence port failed; the source is the classified failure.
    StoreError { step: WorkflowStep, source: ProvideError },
    /// A step's result was unusable for the step after it.
    WorkflowAborted { step: WorkflowStep, msg: String },
}

} // verus!
