//! The errors that the library reports.
use vstd::prelude::*;
use crate::protocol::CommandErrors;

verus! {

/// Why a request to the service did not succeed.
#[derive(Debug)]
pub enum Error {
    /// The request could not be sent, or its answer could not be read.
    Request(String),
    /// A command or the cache could not be encoded or decoded.
    Serialize(String),
    /// One or more commands of a batch failed.
    ApiError(CommandErrors),
    /// There is no API token to make a client with.
    InvalidApiToken(String),
}

impl From<CommandErrors> for Error {
    fn from(e: CommandErrors) -> (r: Error) {
        Error::ApiError(e)
    }
}

impl vstd::std_specs::convert::FromSpecImpl<CommandErrors> for Error {
    open spec fn obeys_from_spec() -> bool {
        true
    }

    open spec fn from_spec(e: CommandErrors) -> Error {
        Error::ApiError(e)
    }
}

} // verus!
