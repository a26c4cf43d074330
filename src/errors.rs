//! Error taxonomy of the document client and the response class each
//! error maps to at the HTTP boundary.
use vstd::prelude::*;

verus! {

/// Why obtaining a document failed.
#[derive(Clone, Copy, Debug, PartialEq, Eq, Structural)]
pub enum QrpError {
    /// Token acquisition or refresh failed.
    ProviderAuth,
    /// A create or read call failed in transport or could not be decoded.
    ProviderTransport,
    /// The provider answered with a delivery status that is not recognized,
    /// or with a ready document that carries no content.
    ProviderProtocol,
    /// Every poll allowed by the retry bound answered "deferred".
    ExhaustedRetries,
    /// The document content is not valid base64.
    ContentDecoding,
}

/// Classes of failure that the HTTP layer answers with.
#[derive(Clone, Copy, Debug, PartialEq, Eq, Structural)]
pub enum ErrorKind {
    CervedError,
    DatabaseError,
    DeferredError,
    InternalServerError,
    S3Error,
}

pub open spec fn spec_status_code(k: ErrorKind) -> u16 {
    match k {
        ErrorKind::CervedError => 502,
        ErrorKind::DatabaseError => 500,
        ErrorKind::DeferredError => 404,
        ErrorKind::InternalServerError => 500,
        ErrorKind::S3Error => 502,
    }
}

pub open spec fn spec_error_kind(e: QrpError) -> ErrorKind {
    match e {
        QrpError::ExhaustedRetries => ErrorKind::DeferredError,
        _ => ErrorKind::CervedError,
    }
}

impl ErrorKind {
    /// The HTTP status code of the response for this class of failure.
    pub fn status_code(&self) -> (r: u16)
        ensures
            r == spec_status_code(*self),
    {
        match self {
            ErrorKind::CervedError => 502,
            ErrorKind::DatabaseError => 500,
            ErrorKind::DeferredError => 404,
            ErrorKind::InternalServerError => 500,
            ErrorKind::S3Error => 502,
        }
    }
}

impl QrpError {
    /// The class of failure a provider error is reported as: an exhausted
    /// poll is "not there yet", every other failure is the provider's.
    pub fn kind(&self) -> (r: ErrorKind)
        ensures
            r == spec_error_kind(*self),
    {
        match self {
            QrpError::ExhaustedRetries => ErrorKind::DeferredError,
            _ => ErrorKind::CervedError,
        }
    }
}

} // verus!
