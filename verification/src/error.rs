use vstd::prelude::*;

use crate::text::str_eq;

verus! {

/// An error from an API operation. The two levels are distinguished so a
/// caller can pick a retry policy for each: a server-reported failure
/// self-reports whether retrying is safe, while a transport failure is
/// always potentially retryable.
#[derive(Debug, Clone, PartialEq, Eq)]
pub enum Error {
    /// A structured failure the server reported.
    Api(ApiError),
    /// A failure below the API: the request produced no well-formed
    /// API answer at all.
    Transport(TransportError),
}

/// A failure below the API level.
#[derive(Debug, Clone, PartialEq, Eq)]
pub enum TransportError {
    /// The request could not be carried at all: DNS, TLS, timeout,
    /// connection reset.
    Network {
        /// A description of what went wrong, from the transport.
        message: String,
    },
    /// An answer arrived, but its body matched neither the success
    /// schema nor the error schema: a protocol-level mismatch.
    Protocol {
        /// A description of what did not fit.
        message: String,
    },
}

/// A structured failure reported by the server.
#[derive(Debug, Clone, PartialEq, Eq)]
pub struct ApiError {
    /// A unique identifier for this exception, useful when contacting
    /// support.
    pub exception_id: String,
    /// The category of the exception, as its raw wire token; see
    /// `ApiError::kind_class` for the decoded form.
    pub kind: String,
    /// A more granular specification than the category, when given.
    pub error_code: Option<String>,
    /// A human-friendly description of the problem.
    pub message: String,
    /// The language of the exception message.
    pub language: String,
    /// In rare cases the server signals here that the problem is
    /// transient and the request can safely be re-attempted unchanged.
    pub transient: bool,
}

/// The category of a server-reported failure: a closed set of known
/// kinds, plus an explicit fallback that keeps the raw token of any kind
/// added server-side after this binding was written.
#[derive(Debug, Clone, PartialEq, Eq)]
pub enum ExceptionKind {
    /// The action failed due to problems with the request.
    Validation,
    /// A value was invalid.
    InvalidValue,
    /// A required field was missing.
    FieldRequired,
    /// More funds were requested in the specified currency than were
    /// available.
    InsufficientFunds,
    /// The caller lacks the privilege to perform the requested action.
    AccessDenied,
    /// There was a problem completing the transfer request.
    Transfer,
    /// An MFA action is required to complete the request.
    MfaRequired,
    /// The problem needs the support desk to resolve.
    CustomerSupport,
    /// Something referenced could not be located.
    NotFound,
    /// The caller's requests exceeded their usage restrictions.
    RateLimit,
    /// The account has a lock placed on it for potential fraud reasons.
    AccountLocked,
    /// The account or IP has been blocked due to detected malicious
    /// behavior.
    Lockout,
    /// A problem internal to the server.
    Unknown,
    /// The account has not been approved and cannot submit transactions.
    NotApprovedToTransact,
    /// A kind this binding does not know; the raw token is kept.
    Unrecognized(String),
}

/// The mathematical form of an `ExceptionKind`.
pub enum ExceptionKindView {
    /// See `ExceptionKind::Validation`.
    Validation,
    /// See `ExceptionKind::InvalidValue`.
    InvalidValue,
    /// See `ExceptionKind::FieldRequired`.
    FieldRequired,
    /// See `ExceptionKind::InsufficientFunds`.
    InsufficientFunds,
    /// See `ExceptionKind::AccessDenied`.
    AccessDenied,
    /// See `ExceptionKind::Transfer`.
    Transfer,
    /// See `ExceptionKind::MfaRequired`.
    MfaRequired,
    /// See `ExceptionKind::CustomerSupport`.
    CustomerSupport,
    /// See `ExceptionKind::NotFound`.
    NotFound,
    /// See `ExceptionKind::RateLimit`.
    RateLimit,
    /// See `ExceptionKind::AccountLocked`.
    AccountLocked,
    /// See `ExceptionKind::Lockout`.
    Lockout,
    /// See `ExceptionKind::Unknown`.
    Unknown,
    /// See `ExceptionKind::NotApprovedToTransact`.
    NotApprovedToTransact,
    /// See `ExceptionKind::Unrecognized`.
    Unrecognized(Seq<char>),
}

impl View for ExceptionKind {
    type V = ExceptionKindView;

    open spec fn view(&self) -> ExceptionKindView {
        match self {
            ExceptionKind::Validation => ExceptionKindView::Validation,
            ExceptionKind::InvalidValue => ExceptionKindView::InvalidValue,
            ExceptionKind::FieldRequired => ExceptionKindView::FieldRequired,
            ExceptionKind::InsufficientFunds => ExceptionKindView::InsufficientFunds,
            ExceptionKind::AccessDenied => ExceptionKindView::AccessDenied,
            ExceptionKind::Transfer => ExceptionKindView::Transfer,
            ExceptionKind::MfaRequired => ExceptionKindView::MfaRequired,
            ExceptionKind::CustomerSupport => ExceptionKindView::CustomerSupport,
            ExceptionKind::NotFound => ExceptionKindView::NotFound,
            ExceptionKind::RateLimit => ExceptionKindView::RateLimit,
            ExceptionKind::AccountLocked => ExceptionKindView::AccountLocked,
            ExceptionKind::Lockout => ExceptionKindView::Lockout,
            ExceptionKind::Unknown => ExceptionKindView::Unknown,
            ExceptionKind::NotApprovedToTransact => ExceptionKindView::NotApprovedToTransact,
            ExceptionKind::Unrecognized(s) => ExceptionKindView::Unrecognized(s@),
        }
    }
}

/// The category named by a wire token; an unknown token keeps its raw
/// text in the fallback rather than collapsing silently.
pub open spec fn spec_exception_kind(s: Seq<char>) -> ExceptionKindView {
    if s == "ValidationException"@ {
        ExceptionKindView::Validation
    } else if s == "InvalidValueException"@ {
        ExceptionKindView::InvalidValue
    } else if s == "FieldRequiredException"@ {
        ExceptionKindView::FieldRequired
    } else if s == "InsufficientFundsException"@ {
        ExceptionKindView::InsufficientFunds
    } else if s == "AccessDeniedException"@ {
        ExceptionKindView::AccessDenied
    } else if s == "TransferException"@ {
        ExceptionKindView::Transfer
    } else if s == "MFARequiredException"@ {
        ExceptionKindView::MfaRequired
    } else if s == "CustomerSupportException"@ {
        ExceptionKindView::CustomerSupport
    } else if s == "NotFoundException"@ {
        ExceptionKindView::NotFound
    } else if s == "RateLimitException"@ {
        ExceptionKindView::RateLimit
    } else if s == "AccountLockedException"@ {
        ExceptionKindView::AccountLocked
    } else if s == "LockoutException"@ {
        ExceptionKindView::Lockout
    } else if s == "UnknownException"@ {
        ExceptionKindView::Unknown
    } else if s == "AccoutHasNotBeenApprovedToTransactException"@ {
        ExceptionKindView::NotApprovedToTransact
    } else {
        ExceptionKindView::Unrecognized(s)
    }
}

impl ApiError {
    /// Decodes the category token the server reported. An unknown token
    /// comes back in the explicit fallback, raw text preserved.
    pub fn kind_class(&self) -> (r: ExceptionKind)
        ensures
            r@ == spec_exception_kind(self.kind@),
    {
        let s = self.kind.as_str();
        if str_eq(s, "ValidationException") {
            ExceptionKind::Validation
        } else if str_eq(s, "InvalidValueException") {
            ExceptionKind::InvalidValue
        } else if str_eq(s, "FieldRequiredException") {
            ExceptionKind::FieldRequired
        } else if str_eq(s, "InsufficientFundsException") {
            ExceptionKind::InsufficientFunds
        } else if str_eq(s, "AccessDeniedException") {
            ExceptionKind::AccessDenied
        } else if str_eq(s, "TransferException") {
            ExceptionKind::Transfer
        } else if str_eq(s, "MFARequiredException") {
            ExceptionKind::MfaRequired
        } else if str_eq(s, "CustomerSupportException") {
            ExceptionKind::CustomerSupport
        } else if str_eq(s, "NotFoundException") {
            ExceptionKind::NotFound
        } else if str_eq(s, "RateLimitException") {
            ExceptionKind::RateLimit
        } else if str_eq(s, "AccountLockedException") {
            ExceptionKind::AccountLocked
        } else if str_eq(s, "LockoutException") {
            ExceptionKind::Lockout
        } else if str_eq(s, "UnknownException") {
            ExceptionKind::Unknown
        } else if str_eq(s, "AccoutHasNotBeenApprovedToTransactException") {
            ExceptionKind::NotApprovedToTransact
        } else {
            ExceptionKind::Unrecognized(self.kind.clone())
        }
    }
}

} // verus!
