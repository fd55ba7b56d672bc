//! Client-side helpers of the query boundary: the query text a client sends
//! to list containers, and the reading of the reply envelope.  The transport
//! itself — sending the query and decoding the reply into plain values —
//! belongs to the surrounding application.

use vstd::prelude::*;
use vstd::string::StringExecFns;

use crate::model::MultiContainersResponseBody;

verus! {

/// A failure read from a list-containers reply envelope.
#[derive(Debug)]
pub enum ClientError {
    /// The reply carried no data and reported this internal error.
    ErrorReply { internal_error: String },
    /// The reply carried no data and no error either.
    NullDataWithoutErrors,
    /// The reply carried data, but no containers field.
    MissingContainers,
}

/// The query a client sends to list containers.
pub fn get_graphql_str_list_containers() -> (r: String)
    ensures
        r@ == "{ \"query\": \"{ containers { containers { name }, containersCount } }\" }"@,
{
    String::from_str("{ \"query\": \"{ containers { containers { name }, containersCount } }\" }")
}

/// What a list-containers reply envelope means: a reply with null data is a
/// failure, carrying the first reported internal error where there is one; a
/// reply with data yields its containers, and is a failure where it carries
/// none.
pub fn interpret_list_reply(
    data_is_null: bool,
    internal_error: Option<String>,
    containers: Option<MultiContainersResponseBody>,
) -> (r: Result<MultiContainersResponseBody, ClientError>)
    ensures
        match r {
            Ok(resp) => !data_is_null && containers == Some(resp),
            Err(ce) => match ce {
                ClientError::ErrorReply { internal_error: m } => data_is_null && internal_error
                    == Some(m),
                ClientError::NullDataWithoutErrors => data_is_null && internal_error is None,
                ClientError::MissingContainers => !data_is_null && containers is None,
            },
        },
{
    if data_is_null {
        match internal_error {
            Some(m) => Err(ClientError::ErrorReply { internal_error: m }),
            None => Err(ClientError::NullDataWithoutErrors),
        }
    } else {
        match containers {
            Some(c) => Ok(c),
            None => Err(ClientError::MissingContainers),
        }
    }
}

} // verus!
