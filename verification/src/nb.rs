//! Non-blocking operations
//!
//! An operation that may not be able to finish right away answers with
//! `Result<T, Error<E>>`: the value, a fatal error, or the news that it would
//! have had to wait. The last is transient: the caller may simply try again.
use vstd::prelude::*;

verus! {

/// Why a non-blocking operation did not produce its value
#[derive(Clone, Copy, Debug, PartialEq, Eq)]
pub enum Error<E> {
    /// The operation failed for good; trying again will not help
    Other(E),
    /// The operation could not finish yet; it should be tried again later
    WouldBlock,
}

/// Sorts the answer of one attempt into "finished" and "try again".
///
/// Returns `None` exactly when the attempt would have blocked, and otherwise
/// the finished result: the value on success, the fatal error on failure.
pub fn ready<T, E>(attempt: Result<T, Error<E>>) -> (finished: Option<Result<T, E>>)
    ensures
        finished == match attempt {
            Ok(value) => Some(Ok(value)),
            Err(Error::Other(error)) => Some(Err(error)),
            Err(Error::WouldBlock) => None,
        },
{
    match attempt {
        Ok(value) => Some(Ok(value)),
        Err(Error::Other(error)) => Some(Err(error)),
        Err(Error::WouldBlock) => None,
    }
}

} // verus!
