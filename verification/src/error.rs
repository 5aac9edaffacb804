//! Status codes of the native engine and their decoding.
//!
//! Every native entry point that can fail returns an integer status. Zero means
//! success; each of the four failure kinds has a code of its own. Any other
//! value is not a status of the engine this crate was written against.

use vstd::prelude::*;

verus! {

/// The status with which a native call reports success.
pub const STATUS_SUCCESS: i32 = 0;

/// A failure reported by the native engine.
#[derive(Clone, Copy, PartialEq, Eq, Debug, Structural)]
pub enum Error {
    /// The engine could not allocate memory.
    NoMem,
    /// The operation needs a measurement mode that the session was not created with.
    InvalidMode,
    /// The channel index does not name a channel of the session.
    InvalidChannelIndex,
    /// The requested configuration is the one already in effect.
    NoChange,
}

impl Error {
    /// The native status code that stands for this failure.
    pub open spec fn spec_code(self) -> i32 {
        match self {
            Error::NoMem => 1,
            Error::InvalidMode => 2,
            Error::InvalidChannelIndex => 3,
            Error::NoChange => 4,
        }
    }

    /// The failure that a native status code stands for, if it stands for one.
    pub open spec fn spec_from_i32(n: i32) -> Option<Error> {
        if n == 1 {
            Some(Error::NoMem)
        } else if n == 2 {
            Some(Error::InvalidMode)
        } else if n == 3 {
            Some(Error::InvalidChannelIndex)
        } else if n == 4 {
            Some(Error::NoChange)
        } else {
            None
        }
    }

    /// Returns the native status code of this failure.
    #[verifier::when_used_as_spec(spec_code)]
    pub fn code(self) -> (c: i32)
        ensures
            c == self.spec_code(),
            c != STATUS_SUCCESS,
    {
        match self {
            Error::NoMem => 1,
            Error::InvalidMode => 2,
            Error::InvalidChannelIndex => 3,
            Error::NoChange => 4,
        }
    }

    /// Decodes a failure status. The decoding is total: a value that is no
    /// failure code, zero included, gives `None`.
    pub fn from_i32(n: i32) -> (r: Option<Error>)
        ensures
            r == Error::spec_from_i32(n),
            forall|e: Error| r == Some(e) <==> e.spec_code() == n,
    {
        if n == 1 {
            Some(Error::NoMem)
        } else if n == 2 {
            Some(Error::InvalidMode)
        } else if n == 3 {
            Some(Error::InvalidChannelIndex)
        } else if n == 4 {
            Some(Error::NoChange)
        } else {
            None
        }
    }
}

/// Whether `status` is a value the engine is documented to return: success or
/// one of the four failure codes.
pub open spec fn spec_is_known_status(status: i32) -> bool {
    status == STATUS_SUCCESS || Error::spec_from_i32(status) is Some
}

/// What a known status means for a call whose payload is `out`.
pub open spec fn spec_to_result_t<T>(status: i32, out: T) -> Result<T, Error> {
    if status == STATUS_SUCCESS {
        Ok(out)
    } else {
        Err(Error::spec_from_i32(status).unwrap())
    }
}

/// Tells whether `status` can be decoded. A status for which this is false
/// did not come from the engine this crate describes and must be treated as a
/// fault at the boundary, not turned into one of the four failures.
#[verifier::when_used_as_spec(spec_is_known_status)]
pub fn is_known_status(status: i32) -> (known: bool)
    ensures
        known == spec_is_known_status(status),
        known <==> 0 <= status <= 4,
{
    0 <= status && status <= 4
}

/// Decodes the status of a native call that hands back the payload `out`.
///
/// Success keeps the payload; a failure drops it and names the failure. A
/// status that is not known is no input of this function: a caller that has
/// one from the engine tests it with `is_known_status` first.
pub fn to_result_t<T>(status: i32, out: T) -> (r: Result<T, Error>)
    requires
        spec_is_known_status(status),
    ensures
        r == spec_to_result_t(status, out),
        status == STATUS_SUCCESS <==> r == Ok::<T, Error>(out),
        forall|e: Error| r == Err::<T, Error>(e) <==> e.spec_code() == status,
{
    if status == STATUS_SUCCESS {
        Ok(out)
    } else {
        match Error::from_i32(status) {
            Some(e) => Err(e),
            None => unreached(),
        }
    }
}

/// Decodes the status of a native call that hands back nothing else.
pub fn to_result(status: i32) -> (r: Result<(), Error>)
    requires
        spec_is_known_status(status),
    ensures
        r == spec_to_result_t(status, ()),
        status == STATUS_SUCCESS <==> r is Ok,
        forall|e: Error| r == Err::<(), Error>(e) <==> e.spec_code() == status,
{
    to_result_t(status, ())
}

/// Decoding undoes encoding: every failure is recovered from its own code, and
/// a code is decoded to a failure only if it is that failure's code.
pub proof fn lemma_error_code_round_trip(e: Error, n: i32)
    ensures
        Error::spec_from_i32(e.spec_code()) == Some(e),
        Error::spec_from_i32(n) == Some(e) <==> e.spec_code() == n,
        e.spec_code() != STATUS_SUCCESS,
        spec_is_known_status(e.spec_code()),
{
}

} // verus!
