use vstd::prelude::*;

verus! {

/// Asks the cache service for the value of a key.
#[derive(Debug, PartialEq, Eq)]
pub struct GetRequest {
    pub key: String,
}

/// Asks the cache service to store a value under a key, for `ttl` seconds
/// if a time-to-live is given and for good if none is.
#[derive(Debug, PartialEq, Eq)]
pub struct SetRequest {
    pub key: String,
    pub value: String,
    pub ttl: Option<i32>,
}

/// Asks the cache service to remove a key.
#[derive(Debug, PartialEq, Eq)]
pub struct DelRequest {
    pub key: String,
}

/// The service's answer to a [`GetRequest`]: the value, if the key is
/// present and has not expired.
#[derive(Debug, PartialEq, Eq)]
pub struct GetResponse {
    pub value: Option<String>,
}

/// The service's answer to a [`SetRequest`].
#[derive(Debug, PartialEq, Eq)]
pub struct SetResponse {
    pub success: bool,
}

/// The service's answer to a [`DelRequest`].
#[derive(Debug, PartialEq, Eq)]
pub struct DelResponse {
    pub success: bool,
}

/// Why a call of the cache service did not do its work.
#[derive(Debug, PartialEq, Eq)]
pub enum ClientError {
    /// The call itself failed; the text is the transport's description.
    Transport(String),
    /// The service answered, and said that it did not do the work.
    Refused,
}

/// What a lookup yields, given how the one call went.
pub open spec fn lookup_result(outcome: Result<GetResponse, String>) -> Result<
    Option<String>,
    ClientError,
> {
    match outcome {
        Ok(response) => Ok(response.value),
        Err(detail) => Err(ClientError::Transport(detail)),
    }
}

/// Whether a store or a delete did its work, given how the one call went
/// and, if the service answered, the success flag of its answer.
pub open spec fn change_result(outcome: Result<bool, String>) -> Result<(), ClientError> {
    match outcome {
        Ok(true) => Ok(()),
        Ok(false) => Err(ClientError::Refused),
        Err(detail) => Err(ClientError::Transport(detail)),
    }
}

/// The success flag of an answer to a store, where there is an answer.
pub open spec fn set_flag(outcome: Result<SetResponse, String>) -> Result<bool, String> {
    match outcome {
        Ok(response) => Ok(response.success),
        Err(detail) => Err(detail),
    }
}

/// The success flag of an answer to a delete, where there is an answer.
pub open spec fn del_flag(outcome: Result<DelResponse, String>) -> Result<bool, String> {
    match outcome {
        Ok(response) => Ok(response.success),
        Err(detail) => Err(detail),
    }
}

impl GetRequest {
    /// The lookup of `key`.
    pub fn new(key: String) -> (request: GetRequest)
        ensures
            request.key == key,
    {
        GetRequest { key }
    }
}

impl SetRequest {
    /// The store of `value` under `key`. The time-to-live goes to the
    /// service as it is, zero and negative ones too.
    pub fn new(key: String, value: String, ttl: Option<i32>) -> (request: SetRequest)
        ensures
            request.key == key,
            request.value == value,
            request.ttl == ttl,
    {
        SetRequest { key, value, ttl }
    }
}

impl DelRequest {
    /// The removal of `key`.
    pub fn new(key: String) -> (request: DelRequest)
        ensures
            request.key == key,
    {
        DelRequest { key }
    }
}

/// Reads the outcome of a lookup. An answer gives the value or its
/// absence; a failed call is an error of its own, never an absence.
pub fn get_cache(outcome: Result<GetResponse, String>) -> (found: Result<
    Option<String>,
    ClientError,
>)
    ensures
        found == lookup_result(outcome),
{
    match outcome {
        Ok(response) => Ok(response.value),
        Err(detail) => Err(ClientError::Transport(detail)),
    }
}

/// Reads the outcome of a store: done, refused by the service, or failed
/// on the way.
pub fn set_cache(outcome: Result<SetResponse, String>) -> (stored: Result<(), ClientError>)
    ensures
        stored == change_result(set_flag(outcome)),
{
    match outcome {
        Ok(response) => {
            if response.success {
                Ok(())
            } else {
                Err(ClientError::Refused)
            }
        },
        Err(detail) => Err(ClientError::Transport(detail)),
    }
}

/// Reads the outcome of a delete: done, refused by the service, or failed
/// on the way.
pub fn del_cache(outcome: Result<DelResponse, String>) -> (deleted: Result<(), ClientError>)
    ensures
        deleted == change_result(del_flag(outcome)),
{
    match outcome {
        Ok(response) => {
            if response.success {
                Ok(())
            } else {
                Err(ClientError::Refused)
            }
        },
        Err(detail) => Err(ClientError::Transport(detail)),
    }
}

} // verus!
