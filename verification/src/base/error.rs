//! The ways in which one navigation can fail.

use vstd::prelude::*;
use crate::base::json::Json;

verus! {

/// The status code that is the only success of the transport.
pub const STATUS_OK: u16 = 200;

/// A transport failure: the response came with a status other than success.
#[derive(Debug, PartialEq)]
pub struct HttpError(pub u16);

/// A protocol failure: the response carries `errors`, lacks `data`, or lacks a
/// key on the way to the answer. It carries the whole envelope.
#[derive(Debug, PartialEq)]
pub struct GqlError(pub Json);

/// Why a navigation failed.
#[derive(Debug, PartialEq)]
pub enum Error {
    /// The transport answered with a status other than success.
    Http(HttpError),
    /// The envelope does not hold the answer.
    Gql(GqlError),
    /// The answer does not have the shape that was asked for.
    Decode,
    /// The answer names a concrete type that the union does not declare, or
    /// names none.
    UnknownVariant,
}

/// Classifies a response status: only success lets the call go on.
pub fn check_status(code: u16) -> (r: Result<(), HttpError>)
    ensures
        code == STATUS_OK ==> r == Ok::<(), HttpError>(()),
        code != STATUS_OK ==> r == Err::<(), HttpError>(HttpError(code)),
{
    if code == STATUS_OK {
        Ok(())
    } else {
        Err(HttpError(code))
    }
}

} // verus!
