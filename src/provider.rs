use vstd::prelude::*;

verus! {

/// Errors at the provider boundary: a closed set.
#[derive(Debug, Clone, PartialEq, Eq)]
pub enum ClientError {
    NetworkNotSupported(String),
    MalformedResponse(String),
    NetworkError(String),
    IncorrectCredentials,
    SeedTooShort,
    UnknownToken,
    IncorrectAddress,
    OperationTimeout,
    PollingIntervalTooSmall,
    MissingRequiredField(String),
    NoPrivateKey,
    NotPackableValue,
    IncorrectInput,
    Other,
}

impl ClientError {
    /// Transient failures, worth another attempt: a network error or a timeout.
    pub open spec fn spec_is_retryable(&self) -> bool {
        self is NetworkError || self is OperationTimeout
    }

    pub fn is_retryable(&self) -> (r: bool)
        ensures
            r == self.spec_is_retryable(),
    {
        match self {
            ClientError::NetworkError(_) => true,
            ClientError::OperationTimeout => true,
            _ => false,
        }
    }
}

/// A token named by its symbol or by its id.
#[derive(Debug, Clone, PartialEq, Eq)]
pub enum TokenLike {
    Id(u32),
    Symbol(String),
}

} // verus!
