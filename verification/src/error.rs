//! Errors of the data layer and of the service that fronts it.

use vstd::prelude::*;

verus! {

/// Why an operation of the data layer gave no result.
#[derive(Debug)]
pub enum DataError {
    /// The caller's parameters are unusable; nothing was fetched.
    InvalidInput(String),
    /// The venue does not offer the operation.
    CapabilityUnsupported(String),
    /// The call was valid and the venue answered with nothing to analyse.
    NoDataAvailable(String),
    /// The venue could not be reached or its answer could not be decoded.
    UpstreamFailure(String),
    /// Some venues of a combined operation failed while others answered.
    AggregationPartialFailure(String),
}

/// An error as the service reports it to its clients.
#[derive(Debug)]
pub enum ApiError {
    InvalidInput(String),
    ServiceError(String),
    ExternalApiError(String),
    InternalError,
}

impl ApiError {
    /// The HTTP status that reports this error.
    pub open spec fn status(self) -> u16 {
        match self {
            ApiError::InvalidInput(_) => 400,
            ApiError::ServiceError(_) => 500,
            ApiError::ExternalApiError(_) => 502,
            ApiError::InternalError => 500,
        }
    }

    /// The HTTP status that reports this error: 400 for bad input, 502 for a
    /// failing venue, 500 otherwise.
    pub fn status_code(&self) -> (code: u16)
        ensures
            code == self.status(),
    {
        match self {
            ApiError::InvalidInput(_) => 400,
            ApiError::ServiceError(_) => 500,
            ApiError::ExternalApiError(_) => 502,
            ApiError::InternalError => 500,
        }
    }
}

/// The service error that reports `error`.
pub open spec fn reported_as(error: DataError) -> ApiError {
    match error {
        DataError::InvalidInput(message) => ApiError::InvalidInput(message),
        DataError::CapabilityUnsupported(message) => ApiError::ServiceError(message),
        DataError::NoDataAvailable(message) => ApiError::ServiceError(message),
        DataError::UpstreamFailure(message) => ApiError::ExternalApiError(message),
        DataError::AggregationPartialFailure(message) => ApiError::ExternalApiError(message),
    }
}

/// Turns an error of the data layer into the one the service reports: bad
/// input stays bad input, a venue's failure becomes an external error, and
/// the rest are errors of the service.
pub fn report(error: DataError) -> (reported: ApiError)
    ensures
        reported == reported_as(error),
{
    match error {
        DataError::InvalidInput(message) => ApiError::InvalidInput(message),
        DataError::CapabilityUnsupported(message) => ApiError::ServiceError(message),
        DataError::NoDataAvailable(message) => ApiError::ServiceError(message),
        DataError::UpstreamFailure(message) => ApiError::ExternalApiError(message),
        DataError::AggregationPartialFailure(message) => ApiError::ExternalApiError(message),
    }
}

} // verus!
