//! The decision core of the API facade.
//!
//! Executing a typed call is a pipeline: build the request descriptor, carry
//! it over the network, parse the bytes that come back as a response
//! envelope, and resolve that envelope into the call's typed result or a
//! structured error. The first step is [`crate::methods::Method`], the
//! network step and the byte-level parse belong to the embedding transport;
//! this module owns the resolution step, stated for every outcome the
//! transport can hand back. No retries happen at this layer: retry policy
//! belongs to callers, or to the long-polling source for its own fetches.

use vstd::prelude::*;

use crate::errors::{ApiClientError, DecodeError, TransportError};

verus! {

/// The wrapper object around every call's response: success or failure,
/// with payload or error details.
#[derive(Clone, Debug, PartialEq)]
pub struct ResponseEnvelope<T> {
    /// Whether the remote platform reports success.
    pub ok: bool,
    /// The payload, present on success.
    pub result: Option<T>,
    /// Numeric error code, present on some failures.
    pub error_code: Option<i64>,
    /// Human-readable error description, present on some failures.
    pub description: Option<String>,
}

impl<T> ResponseEnvelope<T> {
    /// The shape a well-formed envelope has: success carries exactly a
    /// result and no error details, failure carries no result.
    pub open spec fn wf(self) -> bool {
        &&& self.ok <==> (self.result is Some && self.error_code is None && self.description
            is None)
        &&& !self.ok ==> self.result is None
    }
}

/// Resolves a parsed response envelope into the call's result or a
/// structured error: a success envelope yields its payload; a success
/// envelope without a payload is malformed and yields a decode error; a
/// failure envelope yields the platform-reported error, code and description
/// preserved, never retried here.
pub fn interpret_envelope<T>(env: ResponseEnvelope<T>) -> (r: Result<T, ApiClientError>)
    ensures
        env.ok && env.result is Some ==> r == Ok::<T, ApiClientError>(env.result->0),
        env.ok && env.result is None ==> r == Err::<T, ApiClientError>(
            ApiClientError::Decode(DecodeError::BadPayload),
        ),
        !env.ok ==> r == Err::<T, ApiClientError>(
            ApiClientError::Api { code: env.error_code, description: env.description },
        ),
{
    if env.ok {
        match env.result {
            Some(payload) => Ok(payload),
            None => Err(ApiClientError::Decode(DecodeError::BadPayload)),
        }
    } else {
        Err(ApiClientError::Api { code: env.error_code, description: env.description })
    }
}

/// Completes one call from the transport's outcome: a transport failure is
/// surfaced as such, a delivered envelope is resolved by
/// [`interpret_envelope`]. Stated for every value the transport can return.
pub fn complete_call<T>(outcome: Result<ResponseEnvelope<T>, TransportError>) -> (r: Result<
    T,
    ApiClientError,
>)
    ensures
        outcome matches Err(e) ==> r == Err::<T, ApiClientError>(ApiClientError::Transport(e)),
        outcome matches Ok(env) ==> {
            &&& env.ok && env.result is Some ==> r == Ok::<T, ApiClientError>(env.result->0)
            &&& env.ok && env.result is None ==> r == Err::<T, ApiClientError>(
                ApiClientError::Decode(DecodeError::BadPayload),
            )
            &&& !env.ok ==> r == Err::<T, ApiClientError>(
                ApiClientError::Api { code: env.error_code, description: env.description },
            )
        },
{
    match outcome {
        Ok(env) => interpret_envelope(env),
        Err(e) => Err(ApiClientError::Transport(e)),
    }
}

} // verus!
