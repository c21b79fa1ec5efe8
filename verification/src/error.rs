use bevy::ecs::query::QueryEntityError;
use bevy::ecs::query::QuerySingleError;
use vstd::prelude::*;

verus! {

#[verifier::external_type_specification]
#[verifier::external_body]
pub struct ExQuerySingleError(QuerySingleError);

#[verifier::external_type_specification]
#[verifier::external_body]
pub struct ExQueryEntityError(QueryEntityError);

/// The errors that the application's systems report.
#[derive(Debug)]
pub enum Error {
    /// A failure described in words.
    Custom(String),
    /// A query that was to match exactly one entity matched none or several.
    QuerySingleError(QuerySingleError),
    /// A query could not give the components of one entity.
    QueryEntityError(QueryEntityError),
}

impl From<String> for Error {
    fn from(message: String) -> (e: Self) {
        Error::Custom(message)
    }
}

impl vstd::std_specs::convert::FromSpecImpl<String> for Error {
    open spec fn obeys_from_spec() -> bool {
        true
    }

    open spec fn from_spec(v: String) -> Self {
        Error::Custom(v)
    }
}

impl From<QuerySingleError> for Error {
    fn from(err: QuerySingleError) -> (e: Self) {
        Error::QuerySingleError(err)
    }
}

impl vstd::std_specs::convert::FromSpecImpl<QuerySingleError> for Error {
    open spec fn obeys_from_spec() -> bool {
        true
    }

    open spec fn from_spec(v: QuerySingleError) -> Self {
        Error::QuerySingleError(v)
    }
}

impl From<QueryEntityError> for Error {
    fn from(err: QueryEntityError) -> (e: Self) {
        Error::QueryEntityError(err)
    }
}

impl vstd::std_specs::convert::FromSpecImpl<QueryEntityError> for Error {
    open spec fn obeys_from_spec() -> bool {
        true
    }

    open spec fn from_spec(v: QueryEntityError) -> Self {
        Error::QueryEntityError(v)
    }
}

} // verus!
