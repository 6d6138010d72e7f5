//! The transported representation of a result.

use vstd::prelude::*;

verus! {

/// A result whose variants are numbered in its transported representation.
pub enum Result<T, E> {
    /// The value.
    Success(T),
    /// The error.
    Failure(E),
}

impl<T, E> From<core::result::Result<T, E>> for Result<T, E> {
    fn from(res: core::result::Result<T, E>) -> (r: Self) {
        match res {
            Ok(value) => Result::Success(value),
            Err(err) => Result::Failure(err),
        }
    }
}

impl<T, E> vstd::std_specs::convert::FromSpecImpl<core::result::Result<T, E>> for Result<T, E> {
    open spec fn obeys_from_spec() -> bool {
        true
    }

    open spec fn from_spec(res: core::result::Result<T, E>) -> Result<T, E> {
        match res {
            Ok(value) => Result::Success(value),
            Err(err) => Result::Failure(err),
        }
    }
}

impl<T, E> From<Result<T, E>> for core::result::Result<T, E> {
    fn from(res: Result<T, E>) -> (r: Self) {
        match res {
            Result::Success(value) => Ok(value),
            Result::Failure(err) => Err(err),
        }
    }
}

impl<T, E> vstd::std_specs::convert::FromSpecImpl<Result<T, E>> for core::result::Result<T, E> {
    open spec fn obeys_from_spec() -> bool {
        true
    }

    open spec fn from_spec(res: Result<T, E>) -> core::result::Result<T, E> {
        match res {
            Result::Success(value) => Ok(value),
            Result::Failure(err) => Err(err),
        }
    }
}

} // verus!
