//! The service's error type, its stable error codes, HTTP statuses and messages.
use crate::text::{concat2, owned};
use vstd::prelude::*;

verus! {

/// Every failure the service reports. Failures of outside systems (database,
/// cache, JSON) carry the outside error's message.
#[derive(Debug)]
pub enum AppError {
    Unauthorized,
    NotFound(String),
    ValidationError(String),
    CryptoError(String),
    DatabaseError(String),
    RedisError(String),
    TimeoutError,
    ConfigError(String),
    SerializationError(String),
    RuntimeError(String),
    ExternalServiceError(String),
    Internal(String),
    Conflict(String),
}

pub type AppResult<T> = Result<T, AppError>;

/// The stable machine-readable code of each error kind.
pub open spec fn spec_error_code(e: AppError) -> Seq<char> {
    match e {
        AppError::Unauthorized => "AUTH_FAILED"@,
        AppError::NotFound(_) => "RESOURCE_NOT_FOUND"@,
        AppError::ValidationError(_) => "VALIDATION_ERROR"@,
        AppError::CryptoError(_) => "CRYPTO_FAILURE"@,
        AppError::DatabaseError(_) => "DATABASE_ERROR"@,
        AppError::RedisError(_) => "CACHE_ERROR"@,
        AppError::TimeoutError => "TIMEOUT_ERROR"@,
        AppError::ConfigError(_) => "CONFIG_INVALID"@,
        AppError::SerializationError(_) => "SERIALIZATION_FAILED"@,
        AppError::ExternalServiceError(_) => "EXTERNAL_SERVICE_UNAVAILABLE"@,
        AppError::RuntimeError(_) => "RUNTIME_ERROR"@,
        AppError::Internal(_) => "INTERNAL_SERVER_ERROR"@,
        AppError::Conflict(_) => "CONFLICT"@,
    }
}

/// The HTTP status code each error kind is answered with.
pub open spec fn spec_status_code(e: AppError) -> u16 {
    match e {
        AppError::Unauthorized => 401,
        AppError::NotFound(_) => 404,
        AppError::ValidationError(_) => 400,
        AppError::CryptoError(_) => 422,
        AppError::DatabaseError(_) => 500,
        AppError::RedisError(_) => 500,
        AppError::SerializationError(_) => 400,
        AppError::ConfigError(_) => 500,
        AppError::ExternalServiceError(_) => 502,
        AppError::RuntimeError(_) => 500,
        AppError::Internal(_) => 500,
        AppError::TimeoutError => 408,
        AppError::Conflict(_) => 409,
    }
}

/// The human-readable message of each error.
pub open spec fn spec_error_message(e: AppError) -> Seq<char> {
    match e {
        AppError::Unauthorized => "Autoryzacja nie powiodła się"@,
        AppError::NotFound(d) => "Nie znaleziono zasobu: "@ + d@,
        AppError::ValidationError(d) => "Błędne dane wejściowe: "@ + d@,
        AppError::CryptoError(d) => "Błąd kryptograficzny: "@ + d@,
        AppError::DatabaseError(_) => "Błąd bazy danych"@,
        AppError::RedisError(_) => "Błąd usługi Redis"@,
        AppError::TimeoutError => "Błąd timeout"@,
        AppError::ConfigError(d) => "Błąd konfiguracji: "@ + d@,
        AppError::SerializationError(d) => "Błąd serializacji/deserializacji: "@ + d@,
        AppError::RuntimeError(d) => "Błąd środowiska wykonawczego: "@ + d@,
        AppError::ExternalServiceError(d) => "Błąd zewnętrznej usługi (HTTP): "@ + d@,
        AppError::Internal(d) => "Wystąpił nieoczekiwany błąd serwera: "@ + d@,
        AppError::Conflict(d) => "Konflikt zasobu: "@ + d@,
    }
}

/// The details field of the error body: the payload of the kinds that carry
/// caller-facing detail, nothing for the others.
pub open spec fn spec_error_details(e: AppError) -> Option<Seq<char>> {
    match e {
        AppError::ValidationError(d) => Some(d@),
        AppError::NotFound(d) => Some(d@),
        AppError::CryptoError(d) => Some(d@),
        AppError::ConfigError(d) => Some(d@),
        AppError::RuntimeError(d) => Some(d@),
        AppError::ExternalServiceError(d) => Some(d@),
        AppError::Internal(d) => Some(d@),
        _ => None,
    }
}

/// The body of an error response, with the status it is sent with.
pub struct ErrorResponse {
    pub status: u16,
    pub code: &'static str,
    pub message: String,
    pub details: Option<String>,
}

impl AppError {
    /// The stable code of this error.
    pub fn error_code(&self) -> (r: &'static str)
        ensures
            r@ == spec_error_code(*self),
    {
        match self {
            AppError::Unauthorized => "AUTH_FAILED",
            AppError::NotFound(_) => "RESOURCE_NOT_FOUND",
            AppError::ValidationError(_) => "VALIDATION_ERROR",
            AppError::CryptoError(_) => "CRYPTO_FAILURE",
            AppError::DatabaseError(_) => "DATABASE_ERROR",
            AppError::RedisError(_) => "CACHE_ERROR",
            AppError::TimeoutError => "TIMEOUT_ERROR",
            AppError::ConfigError(_) => "CONFIG_INVALID",
            AppError::SerializationError(_) => "SERIALIZATION_FAILED",
            AppError::ExternalServiceError(_) => "EXTERNAL_SERVICE_UNAVAILABLE",
            AppError::RuntimeError(_) => "RUNTIME_ERROR",
            AppError::Internal(_) => "INTERNAL_SERVER_ERROR",
            AppError::Conflict(_) => "CONFLICT",
        }
    }

    /// The HTTP status this error is answered with.
    pub fn status_code(&self) -> (r: u16)
        ensures
            r == spec_status_code(*self),
    {
        match self {
            AppError::Unauthorized => 401,
            AppError::NotFound(_) => 404,
            AppError::ValidationError(_) => 400,
            AppError::CryptoError(_) => 422,
            AppError::DatabaseError(_) => 500,
            AppError::RedisError(_) => 500,
            AppError::SerializationError(_) => 400,
            AppError::ConfigError(_) => 500,
            AppError::ExternalServiceError(_) => 502,
            AppError::RuntimeError(_) => 500,
            AppError::Internal(_) => 500,
            AppError::TimeoutError => 408,
            AppError::Conflict(_) => 409,
        }
    }

    /// The message text of this error (what the error displays as).
    pub fn message(&self) -> (r: String)
        ensures
            r@ == spec_error_message(*self),
    {
        match self {
            AppError::Unauthorized => owned("Autoryzacja nie powiodła się"),
            AppError::NotFound(d) => concat2("Nie znaleziono zasobu: ", d.as_str()),
            AppError::ValidationError(d) => concat2("Błędne dane wejściowe: ", d.as_str()),
            AppError::CryptoError(d) => concat2("Błąd kryptograficzny: ", d.as_str()),
            AppError::DatabaseError(_) => owned("Błąd bazy danych"),
            AppError::RedisError(_) => owned("Błąd usługi Redis"),
            AppError::TimeoutError => owned("Błąd timeout"),
            AppError::ConfigError(d) => concat2("Błąd konfiguracji: ", d.as_str()),
            AppError::SerializationError(d) => concat2(
                "Błąd serializacji/deserializacji: ",
                d.as_str(),
            ),
            AppError::RuntimeError(d) => concat2("Błąd środowiska wykonawczego: ", d.as_str()),
            AppError::ExternalServiceError(d) => concat2(
                "Błąd zewnętrznej usługi (HTTP): ",
                d.as_str(),
            ),
            AppError::Internal(d) => concat2("Wystąpił nieoczekiwany błąd serwera: ", d.as_str()),
            AppError::Conflict(d) => concat2("Konflikt zasobu: ", d.as_str()),
        }
    }

    /// The details of this error, for the kinds that carry caller-facing detail.
    pub fn details(&self) -> (r: Option<String>)
        ensures
            match r {
                Some(d) => spec_error_details(*self) == Some(d@),
                None => spec_error_details(*self) is None,
            },
    {
        match self {
            AppError::ValidationError(d) => Some(d.clone()),
            AppError::NotFound(d) => Some(d.clone()),
            AppError::CryptoError(d) => Some(d.clone()),
            AppError::ConfigError(d) => Some(d.clone()),
            AppError::RuntimeError(d) => Some(d.clone()),
            AppError::ExternalServiceError(d) => Some(d.clone()),
            AppError::Internal(d) => Some(d.clone()),
            _ => None,
        }
    }

    /// The response this error is answered with: status, code, message and details.
    pub fn to_response(&self) -> (r: ErrorResponse)
        ensures
            r.status == spec_status_code(*self),
            r.code@ == spec_error_code(*self),
            r.message@ == spec_error_message(*self),
            match r.details {
                Some(d) => spec_error_details(*self) == Some(d@),
                None => spec_error_details(*self) is None,
            },
    {
        ErrorResponse {
            status: self.status_code(),
            code: self.error_code(),
            message: self.message(),
            details: self.details(),
        }
    }

    /// A copy of this error.
    pub fn duplicate(&self) -> (r: AppError)
        ensures
            r == *self,
    {
        match self {
            AppError::Unauthorized => AppError::Unauthorized,
            AppError::NotFound(d) => AppError::NotFound(d.clone()),
            AppError::ValidationError(d) => AppError::ValidationError(d.clone()),
            AppError::CryptoError(d) => AppError::CryptoError(d.clone()),
            AppError::DatabaseError(d) => AppError::DatabaseError(d.clone()),
            AppError::RedisError(d) => AppError::RedisError(d.clone()),
            AppError::TimeoutError => AppError::TimeoutError,
            AppError::ConfigError(d) => AppError::ConfigError(d.clone()),
            AppError::SerializationError(d) => AppError::SerializationError(d.clone()),
            AppError::RuntimeError(d) => AppError::RuntimeError(d.clone()),
            AppError::ExternalServiceError(d) => AppError::ExternalServiceError(d.clone()),
            AppError::Internal(d) => AppError::Internal(d.clone()),
            AppError::Conflict(d) => AppError::Conflict(d.clone()),
        }
    }
}

} // verus!
