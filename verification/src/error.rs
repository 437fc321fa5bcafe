//! The error taxonomy of the engine.

use vstd::prelude::*;

verus! {

/// `url::ParseError` is carried inside [`AppError::MalformedOperationHandle`]
/// so that a caller sees why a handle URL was rejected.  The type is opaque
/// here; the library never reads it.
#[verifier::external_type_specification]
#[verifier::external_body]
pub struct ExParseError(url::ParseError);

/// Relies on `url::ParseError`'s derived `Clone`: the type is `Copy`, so the
/// clone is the value itself.  `AppError`'s own derived `Clone` copies the
/// carried parse error through this.
pub assume_specification[ <url::ParseError as Clone>::clone ](e: &url::ParseError) -> (r:
    url::ParseError)
    ensures
        r == *e,
;

/// Everything that can go wrong before an operation reaches a terminal
/// status: a missing default in the configuration, or a submission response
/// from which no pollable operation handle can be located.
#[derive(Debug, Clone)]
pub enum AppError {
    /// No subscription was given and none is configured.
    NoSub,
    /// No resource group was given and none is configured.
    NoRg,
    /// No vault name was given and none is configured.
    NoVault,
    /// The response carries neither an `azure-asyncoperation` nor a
    /// `location` header.
    MissingOperationHandle,
    /// The chosen handle header does not hold a well-formed URL.
    MalformedOperationHandle(url::ParseError),
    /// The handle URL's final path segment, which would be the operation id,
    /// is empty.
    InvalidOperationHandle,
}

impl AppError {
    /// A human-readable description of the error.
    pub fn message(&self) -> (r: &'static str)
        ensures
            self is NoSub ==> r@ == "No subscription specified"@,
            self is NoRg ==> r@ == "No resource group specified"@,
            self is NoVault ==> r@ == "No vault name specified"@,
            self is MissingOperationHandle ==> r@
                == "The response is missing a location header"@,
            self is MalformedOperationHandle ==> r@ == "Failed to parse URL"@,
            self is InvalidOperationHandle ==> r@
                == "The operation handle URL has no usable id segment"@,
    {
        match self {
            AppError::NoSub => "No subscription specified",
            AppError::NoRg => "No resource group specified",
            AppError::NoVault => "No vault name specified",
            AppError::MissingOperationHandle => "The response is missing a location header",
            AppError::MalformedOperationHandle(_) => "Failed to parse URL",
            AppError::InvalidOperationHandle => "The operation handle URL has no usable id segment",
        }
    }
}

} // verus!
