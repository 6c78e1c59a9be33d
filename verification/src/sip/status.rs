//! Response status codes.

use crate::text;
use vstd::prelude::*;
use vstd::string::*;

verus! {

/// A status code. `Other` holds a code that has no variant of its own.
#[derive(Clone, Copy, Debug, PartialEq, Eq, Structural)]
pub enum StatusCode {
    Trying,
    Ringing,
    CallIsBeingForwarded,
    Queued,
    SessionProgress,
    EarlyDialogTerminated,
    OK,
    Accepted,
    NoNotification,
    MultipleChoices,
    MovedPermanently,
    MovedTemporarily,
    UseProxy,
    AlternateService,
    BadRequest,
    Unauthorized,
    PaymentRequired,
    Forbidden,
    NotFound,
    MethodNotAllowed,
    NotAcceptable,
    ProxyAuthenticationRequired,
    RequestTimeout,
    Conflict,
    Gone,
    LengthRequired,
    ConditionalRequestFailed,
    RequestEntityTooLarge,
    RequestUriTooLong,
    UnsupportedMediaType,
    UnsupportedUriScheme,
    UnknownResourcePriority,
    BadExtension,
    ExtensionRequired,
    SessionIntervalTooSmall,
    IntervalTooBrief,
    BadLocationInformation,
    UseIdentityHeader,
    ProvideReferrerIdentity,
    FlowFailed,
    AnonymityDisallowed,
    BadIdentityInfo,
    UnsupportedCertificate,
    InvalidIdentityHeader,
    FirstHopLacksOutboundSupport,
    MaxBreadthExceeded,
    BadInfoPackage,
    ConsentNeeded,
    TemporarilyUnavailable,
    CallTransactionDoesNotExist,
    LoopDetected,
    TooManyHops,
    AddressIncomplete,
    Ambiguous,
    BusyHere,
    RequestTerminated,
    NotAcceptableHere,
    BadEvent,
    RequestPending,
    Undecipherable,
    SecurityAgreementRequired,
    ServerInternalError,
    NotImplemented,
    BadGateway,
    ServiceUnavailable,
    ServerTimeOut,
    VersionNotSupported,
    MessageTooLarge,
    PreconditionFailure,
    BusyEverywhere,
    Decline,
    DoesNotExistAnywhere,
    NotAcceptableGlobal,
    Unwanted,
    Other(u16),
}

/// The class of a status code, by its first digit.
#[derive(Clone, Copy, Debug, PartialEq, Eq, Structural)]
pub enum StatusCodeKind {
    Provisional,
    Successful,
    Redirection,
    RequestFailure,
    ServerFailure,
    GlobalFailure,
    Other,
}

/// The class that the number `code` belongs to.
pub open spec fn kind_of(code: u16) -> StatusCodeKind {
    if 100 <= code <= 199 {
        StatusCodeKind::Provisional
    } else if 200 <= code <= 299 {
        StatusCodeKind::Successful
    } else if 300 <= code <= 399 {
        StatusCodeKind::Redirection
    } else if 400 <= code <= 499 {
        StatusCodeKind::RequestFailure
    } else if 500 <= code <= 599 {
        StatusCodeKind::ServerFailure
    } else if 600 <= code <= 699 {
        StatusCodeKind::GlobalFailure
    } else {
        StatusCodeKind::Other
    }
}

impl StatusCode {
    /// The number of the code.
    pub open spec fn spec_code(self) -> u16 {
        match self {
            StatusCode::Trying => 100,
            StatusCode::Ringing => 180,
            StatusCode::CallIsBeingForwarded => 181,
            StatusCode::Queued => 182,
            StatusCode::SessionProgress => 183,
            StatusCode::EarlyDialogTerminated => 199,
            StatusCode::OK => 200,
            StatusCode::Accepted => 202,
            StatusCode::NoNotification => 204,
            StatusCode::MultipleChoices => 300,
            StatusCode::MovedPermanently => 301,
            StatusCode::MovedTemporarily => 302,
            StatusCode::UseProxy => 305,
            StatusCode::AlternateService => 380,
            StatusCode::BadRequest => 400,
            StatusCode::Unauthorized => 401,
            StatusCode::PaymentRequired => 402,
            StatusCode::Forbidden => 403,
            StatusCode::NotFound => 404,
            StatusCode::MethodNotAllowed => 405,
            StatusCode::NotAcceptable => 406,
            StatusCode::ProxyAuthenticationRequired => 407,
            StatusCode::RequestTimeout => 408,
            StatusCode::Conflict => 409,
            StatusCode::Gone => 410,
            StatusCode::LengthRequired => 411,
            StatusCode::ConditionalRequestFailed => 412,
            StatusCode::RequestEntityTooLarge => 413,
            StatusCode::RequestUriTooLong => 414,
            StatusCode::UnsupportedMediaType => 415,
            StatusCode::UnsupportedUriScheme => 416,
            StatusCode::UnknownResourcePriority => 417,
            StatusCode::BadExtension => 420,
            StatusCode::ExtensionRequired => 421,
            StatusCode::SessionIntervalTooSmall => 422,
            StatusCode::IntervalTooBrief => 423,
            StatusCode::BadLocationInformation => 424,
            StatusCode::UseIdentityHeader => 428,
            StatusCode::ProvideReferrerIdentity => 429,
            StatusCode::FlowFailed => 430,
            StatusCode::AnonymityDisallowed => 433,
            StatusCode::BadIdentityInfo => 436,
            StatusCode::UnsupportedCertificate => 437,
            StatusCode::InvalidIdentityHeader => 438,
            StatusCode::FirstHopLacksOutboundSupport => 439,
            StatusCode::MaxBreadthExceeded => 440,
            StatusCode::BadInfoPackage => 469,
            StatusCode::ConsentNeeded => 470,
            StatusCode::TemporarilyUnavailable => 480,
            StatusCode::CallTransactionDoesNotExist => 481,
            StatusCode::LoopDetected => 482,
            StatusCode::TooManyHops => 483,
            StatusCode::AddressIncomplete => 484,
            StatusCode::Ambiguous => 485,
            StatusCode::BusyHere => 486,
            StatusCode::RequestTerminated => 487,
            StatusCode::NotAcceptableHere => 488,
            StatusCode::BadEvent => 489,
            StatusCode::RequestPending => 491,
            StatusCode::Undecipherable => 493,
            StatusCode::SecurityAgreementRequired => 494,
            StatusCode::ServerInternalError => 500,
            StatusCode::NotImplemented => 501,
            StatusCode::BadGateway => 502,
            StatusCode::ServiceUnavailable => 503,
            StatusCode::ServerTimeOut => 504,
            StatusCode::VersionNotSupported => 505,
            StatusCode::MessageTooLarge => 513,
            StatusCode::PreconditionFailure => 580,
            StatusCode::BusyEverywhere => 600,
            StatusCode::Decline => 603,
            StatusCode::DoesNotExistAnywhere => 604,
            StatusCode::NotAcceptableGlobal => 606,
            StatusCode::Unwanted => 607,
            StatusCode::Other(code) => code,
        }
    }

    /// The code has a variant of its own wherever there is one.
    pub open spec fn wf(self) -> bool {
        self == status_of(self.spec_code())
    }

    pub open spec fn spec_kind(self) -> StatusCodeKind {
        kind_of(self.spec_code())
    }

    /// The name of the variant; for `Other` with the number in brackets.
    pub open spec fn spec_name(self) -> Seq<char> {
        match self {
            StatusCode::Trying => "Trying"@,
            StatusCode::Ringing => "Ringing"@,
            StatusCode::CallIsBeingForwarded => "CallIsBeingForwarded"@,
            StatusCode::Queued => "Queued"@,
            StatusCode::SessionProgress => "SessionProgress"@,
            StatusCode::EarlyDialogTerminated => "EarlyDialogTerminated"@,
            StatusCode::OK => "OK"@,
            StatusCode::Accepted => "Accepted"@,
            StatusCode::NoNotification => "NoNotification"@,
            StatusCode::MultipleChoices => "MultipleChoices"@,
            StatusCode::MovedPermanently => "MovedPermanently"@,
            StatusCode::MovedTemporarily => "MovedTemporarily"@,
            StatusCode::UseProxy => "UseProxy"@,
            StatusCode::AlternateService => "AlternateService"@,
            StatusCode::BadRequest => "BadRequest"@,
            StatusCode::Unauthorized => "Unauthorized"@,
            StatusCode::PaymentRequired => "PaymentRequired"@,
            StatusCode::Forbidden => "Forbidden"@,
            StatusCode::NotFound => "NotFound"@,
            StatusCode::MethodNotAllowed => "MethodNotAllowed"@,
            StatusCode::NotAcceptable => "NotAcceptable"@,
            StatusCode::ProxyAuthenticationRequired => "ProxyAuthenticationRequired"@,
            StatusCode::RequestTimeout => "RequestTimeout"@,
            StatusCode::Conflict => "Conflict"@,
            StatusCode::Gone => "Gone"@,
            StatusCode::LengthRequired => "LengthRequired"@,
            StatusCode::ConditionalRequestFailed => "ConditionalRequestFailed"@,
            StatusCode::RequestEntityTooLarge => "RequestEntityTooLarge"@,
            StatusCode::RequestUriTooLong => "RequestUriTooLong"@,
            StatusCode::UnsupportedMediaType => "UnsupportedMediaType"@,
            StatusCode::UnsupportedUriScheme => "UnsupportedUriScheme"@,
            StatusCode::UnknownResourcePriority => "UnknownResourcePriority"@,
            StatusCode::BadExtension => "BadExtension"@,
            StatusCode::ExtensionRequired => "ExtensionRequired"@,
            StatusCode::SessionIntervalTooSmall => "SessionIntervalTooSmall"@,
            StatusCode::IntervalTooBrief => "IntervalTooBrief"@,
            StatusCode::BadLocationInformation => "BadLocationInformation"@,
            StatusCode::UseIdentityHeader => "UseIdentityHeader"@,
            StatusCode::ProvideReferrerIdentity => "ProvideReferrerIdentity"@,
            StatusCode::FlowFailed => "FlowFailed"@,
            StatusCode::AnonymityDisallowed => "AnonymityDisallowed"@,
            StatusCode::BadIdentityInfo => "BadIdentityInfo"@,
            StatusCode::UnsupportedCertificate => "UnsupportedCertificate"@,
            StatusCode::InvalidIdentityHeader => "InvalidIdentityHeader"@,
            StatusCode::FirstHopLacksOutboundSupport => "FirstHopLacksOutboundSupport"@,
            StatusCode::MaxBreadthExceeded => "MaxBreadthExceeded"@,
            StatusCode::BadInfoPackage => "BadInfoPackage"@,
            StatusCode::ConsentNeeded => "ConsentNeeded"@,
            StatusCode::TemporarilyUnavailable => "TemporarilyUnavailable"@,
            StatusCode::CallTransactionDoesNotExist => "CallTransactionDoesNotExist"@,
            StatusCode::LoopDetected => "LoopDetected"@,
            StatusCode::TooManyHops => "TooManyHops"@,
            StatusCode::AddressIncomplete => "AddressIncomplete"@,
            StatusCode::Ambiguous => "Ambiguous"@,
            StatusCode::BusyHere => "BusyHere"@,
            StatusCode::RequestTerminated => "RequestTerminated"@,
            StatusCode::NotAcceptableHere => "NotAcceptableHere"@,
            StatusCode::BadEvent => "BadEvent"@,
            StatusCode::RequestPending => "RequestPending"@,
            StatusCode::Undecipherable => "Undecipherable"@,
            StatusCode::SecurityAgreementRequired => "SecurityAgreementRequired"@,
            StatusCode::ServerInternalError => "ServerInternalError"@,
            StatusCode::NotImplemented => "NotImplemented"@,
            StatusCode::BadGateway => "BadGateway"@,
            StatusCode::ServiceUnavailable => "ServiceUnavailable"@,
            StatusCode::ServerTimeOut => "ServerTimeOut"@,
            StatusCode::VersionNotSupported => "VersionNotSupported"@,
            StatusCode::MessageTooLarge => "MessageTooLarge"@,
            StatusCode::PreconditionFailure => "PreconditionFailure"@,
            StatusCode::BusyEverywhere => "BusyEverywhere"@,
            StatusCode::Decline => "Decline"@,
            StatusCode::DoesNotExistAnywhere => "DoesNotExistAnywhere"@,
            StatusCode::NotAcceptableGlobal => "NotAcceptableGlobal"@,
            StatusCode::Unwanted => "Unwanted"@,
            StatusCode::Other(code) => "Other("@ + text::number_text(code as nat) + ")"@,
        }
    }

    pub fn code(&self) -> (code: u16)
        ensures
            code == self.spec_code(),
    {
        match self {
            StatusCode::Trying => 100,
            StatusCode::Ringing => 180,
            StatusCode::CallIsBeingForwarded => 181,
            StatusCode::Queued => 182,
            StatusCode::SessionProgress => 183,
            StatusCode::EarlyDialogTerminated => 199,
            StatusCode::OK => 200,
            StatusCode::Accepted => 202,
            StatusCode::NoNotification => 204,
            StatusCode::MultipleChoices => 300,
            StatusCode::MovedPermanently => 301,
            StatusCode::MovedTemporarily => 302,
            StatusCode::UseProxy => 305,
            StatusCode::AlternateService => 380,
            StatusCode::BadRequest => 400,
            StatusCode::Unauthorized => 401,
            StatusCode::PaymentRequired => 402,
            StatusCode::Forbidden => 403,
            StatusCode::NotFound => 404,
            StatusCode::MethodNotAllowed => 405,
            StatusCode::NotAcceptable => 406,
            StatusCode::ProxyAuthenticationRequired => 407,
            StatusCode::RequestTimeout => 408,
            StatusCode::Conflict => 409,
            StatusCode::Gone => 410,
            StatusCode::LengthRequired => 411,
            StatusCode::ConditionalRequestFailed => 412,
            StatusCode::RequestEntityTooLarge => 413,
            StatusCode::RequestUriTooLong => 414,
            StatusCode::UnsupportedMediaType => 415,
            StatusCode::UnsupportedUriScheme => 416,
            StatusCode::UnknownResourcePriority => 417,
            StatusCode::BadExtension => 420,
            StatusCode::ExtensionRequired => 421,
            StatusCode::SessionIntervalTooSmall => 422,
            StatusCode::IntervalTooBrief => 423,
            StatusCode::BadLocationInformation => 424,
            StatusCode::UseIdentityHeader => 428,
            StatusCode::ProvideReferrerIdentity => 429,
            StatusCode::FlowFailed => 430,
            StatusCode::AnonymityDisallowed => 433,
            StatusCode::BadIdentityInfo => 436,
            StatusCode::UnsupportedCertificate => 437,
            StatusCode::InvalidIdentityHeader => 438,
            StatusCode::FirstHopLacksOutboundSupport => 439,
            StatusCode::MaxBreadthExceeded => 440,
            StatusCode::BadInfoPackage => 469,
            StatusCode::ConsentNeeded => 470,
            StatusCode::TemporarilyUnavailable => 480,
            StatusCode::CallTransactionDoesNotExist => 481,
            StatusCode::LoopDetected => 482,
            StatusCode::TooManyHops => 483,
            StatusCode::AddressIncomplete => 484,
            StatusCode::Ambiguous => 485,
            StatusCode::BusyHere => 486,
            StatusCode::RequestTerminated => 487,
            StatusCode::NotAcceptableHere => 488,
            StatusCode::BadEvent => 489,
            StatusCode::RequestPending => 491,
            StatusCode::Undecipherable => 493,
            StatusCode::SecurityAgreementRequired => 494,
            StatusCode::ServerInternalError => 500,
            StatusCode::NotImplemented => 501,
            StatusCode::BadGateway => 502,
            StatusCode::ServiceUnavailable => 503,
            StatusCode::ServerTimeOut => 504,
            StatusCode::VersionNotSupported => 505,
            StatusCode::MessageTooLarge => 513,
            StatusCode::PreconditionFailure => 580,
            StatusCode::BusyEverywhere => 600,
            StatusCode::Decline => 603,
            StatusCode::DoesNotExistAnywhere => 604,
            StatusCode::NotAcceptableGlobal => 606,
            StatusCode::Unwanted => 607,
            StatusCode::Other(code) => *code,
        }
    }

    pub fn kind(&self) -> (kind: StatusCodeKind)
        ensures
            kind == self.spec_kind(),
    {
        let code: u16 = self.code();
        if 100 <= code && code <= 199 {
            StatusCodeKind::Provisional
        } else if 200 <= code && code <= 299 {
            StatusCodeKind::Successful
        } else if 300 <= code && code <= 399 {
            StatusCodeKind::Redirection
        } else if 400 <= code && code <= 499 {
            StatusCodeKind::RequestFailure
        } else if 500 <= code && code <= 599 {
            StatusCodeKind::ServerFailure
        } else if 600 <= code && code <= 699 {
            StatusCodeKind::GlobalFailure
        } else {
            StatusCodeKind::Other
        }
    }

    /// The code with the number `code`.
    pub fn from_code(code: u16) -> (status: StatusCode)
        ensures
            status == status_of(code),
            status.spec_code() == code,
    {
        match code {
            100 => StatusCode::Trying,
            180 => StatusCode::Ringing,
            181 => StatusCode::CallIsBeingForwarded,
            182 => StatusCode::Queued,
            183 => StatusCode::SessionProgress,
            199 => StatusCode::EarlyDialogTerminated,
            200 => StatusCode::OK,
            202 => StatusCode::Accepted,
            204 => StatusCode::NoNotification,
            300 => StatusCode::MultipleChoices,
            301 => StatusCode::MovedPermanently,
            302 => StatusCode::MovedTemporarily,
            305 => StatusCode::UseProxy,
            380 => StatusCode::AlternateService,
            400 => StatusCode::BadRequest,
            401 => StatusCode::Unauthorized,
            402 => StatusCode::PaymentRequired,
            403 => StatusCode::Forbidden,
            404 => StatusCode::NotFound,
            405 => StatusCode::MethodNotAllowed,
            406 => StatusCode::NotAcceptable,
            407 => StatusCode::ProxyAuthenticationRequired,
            408 => StatusCode::RequestTimeout,
            409 => StatusCode::Conflict,
            410 => StatusCode::Gone,
            411 => StatusCode::LengthRequired,
            412 => StatusCode::ConditionalRequestFailed,
            413 => StatusCode::RequestEntityTooLarge,
            414 => StatusCode::RequestUriTooLong,
            415 => StatusCode::UnsupportedMediaType,
            416 => StatusCode::UnsupportedUriScheme,
            417 => StatusCode::UnknownResourcePriority,
            420 => StatusCode::BadExtension,
            421 => StatusCode::ExtensionRequired,
            422 => StatusCode::SessionIntervalTooSmall,
            423 => StatusCode::IntervalTooBrief,
            424 => StatusCode::BadLocationInformation,
            428 => StatusCode::UseIdentityHeader,
            429 => StatusCode::ProvideReferrerIdentity,
            430 => StatusCode::FlowFailed,
            433 => StatusCode::AnonymityDisallowed,
            436 => StatusCode::BadIdentityInfo,
            437 => StatusCode::UnsupportedCertificate,
            438 => StatusCode::InvalidIdentityHeader,
            439 => StatusCode::FirstHopLacksOutboundSupport,
            440 => StatusCode::MaxBreadthExceeded,
            469 => StatusCode::BadInfoPackage,
            470 => StatusCode::ConsentNeeded,
            480 => StatusCode::TemporarilyUnavailable,
            481 => StatusCode::CallTransactionDoesNotExist,
            482 => StatusCode::LoopDetected,
            483 => StatusCode::TooManyHops,
            484 => StatusCode::AddressIncomplete,
            485 => StatusCode::Ambiguous,
            486 => StatusCode::BusyHere,
            487 => StatusCode::RequestTerminated,
            488 => StatusCode::NotAcceptableHere,
            489 => StatusCode::BadEvent,
            491 => StatusCode::RequestPending,
            493 => StatusCode::Undecipherable,
            494 => StatusCode::SecurityAgreementRequired,
            500 => StatusCode::ServerInternalError,
            501 => StatusCode::NotImplemented,
            502 => StatusCode::BadGateway,
            503 => StatusCode::ServiceUnavailable,
            504 => StatusCode::ServerTimeOut,
            505 => StatusCode::VersionNotSupported,
            513 => StatusCode::MessageTooLarge,
            580 => StatusCode::PreconditionFailure,
            600 => StatusCode::BusyEverywhere,
            603 => StatusCode::Decline,
            604 => StatusCode::DoesNotExistAnywhere,
            606 => StatusCode::NotAcceptableGlobal,
            607 => StatusCode::Unwanted,
            _ => StatusCode::Other(code),
        }
    }

    pub fn name(&self) -> (name: String)
        ensures
            name@ == self.spec_name(),
    {
        match self {
            StatusCode::Trying => "Trying".to_owned(),
            StatusCode::Ringing => "Ringing".to_owned(),
            StatusCode::CallIsBeingForwarded => "CallIsBeingForwarded".to_owned(),
            StatusCode::Queued => "Queued".to_owned(),
            StatusCode::SessionProgress => "SessionProgress".to_owned(),
            StatusCode::EarlyDialogTerminated => "EarlyDialogTerminated".to_owned(),
            StatusCode::OK => "OK".to_owned(),
            StatusCode::Accepted => "Accepted".to_owned(),
            StatusCode::NoNotification => "NoNotification".to_owned(),
            StatusCode::MultipleChoices => "MultipleChoices".to_owned(),
            StatusCode::MovedPermanently => "MovedPermanently".to_owned(),
            StatusCode::MovedTemporarily => "MovedTemporarily".to_owned(),
            StatusCode::UseProxy => "UseProxy".to_owned(),
            StatusCode::AlternateService => "AlternateService".to_owned(),
            StatusCode::BadRequest => "BadRequest".to_owned(),
            StatusCode::Unauthorized => "Unauthorized".to_owned(),
            StatusCode::PaymentRequired => "PaymentRequired".to_owned(),
            StatusCode::Forbidden => "Forbidden".to_owned(),
            StatusCode::NotFound => "NotFound".to_owned(),
            StatusCode::MethodNotAllowed => "MethodNotAllowed".to_owned(),
            StatusCode::NotAcceptable => "NotAcceptable".to_owned(),
            StatusCode::ProxyAuthenticationRequired => "ProxyAuthenticationRequired".to_owned(),
            StatusCode::RequestTimeout => "RequestTimeout".to_owned(),
            StatusCode::Conflict => "Conflict".to_owned(),
            StatusCode::Gone => "Gone".to_owned(),
            StatusCode::LengthRequired => "LengthRequired".to_owned(),
            StatusCode::ConditionalRequestFailed => "ConditionalRequestFailed".to_owned(),
            StatusCode::RequestEntityTooLarge => "RequestEntityTooLarge".to_owned(),
            StatusCode::RequestUriTooLong => "RequestUriTooLong".to_owned(),
            StatusCode::UnsupportedMediaType => "UnsupportedMediaType".to_owned(),
            StatusCode::UnsupportedUriScheme => "UnsupportedUriScheme".to_owned(),
            StatusCode::UnknownResourcePriority => "UnknownResourcePriority".to_owned(),
            StatusCode::BadExtension => "BadExtension".to_owned(),
            StatusCode::ExtensionRequired => "ExtensionRequired".to_owned(),
            StatusCode::SessionIntervalTooSmall => "SessionIntervalTooSmall".to_owned(),
            StatusCode::IntervalTooBrief => "IntervalTooBrief".to_owned(),
            StatusCode::BadLocationInformation => "BadLocationInformation".to_owned(),
            StatusCode::UseIdentityHeader => "UseIdentityHeader".to_owned(),
            StatusCode::ProvideReferrerIdentity => "ProvideReferrerIdentity".to_owned(),
            StatusCode::FlowFailed => "FlowFailed".to_owned(),
            StatusCode::AnonymityDisallowed => "AnonymityDisallowed".to_owned(),
            StatusCode::BadIdentityInfo => "BadIdentityInfo".to_owned(),
            StatusCode::UnsupportedCertificate => "UnsupportedCertificate".to_owned(),
            StatusCode::InvalidIdentityHeader => "InvalidIdentityHeader".to_owned(),
            StatusCode::FirstHopLacksOutboundSupport => "FirstHopLacksOutboundSupport".to_owned(),
            StatusCode::MaxBreadthExceeded => "MaxBreadthExceeded".to_owned(),
            StatusCode::BadInfoPackage => "BadInfoPackage".to_owned(),
            StatusCode::ConsentNeeded => "ConsentNeeded".to_owned(),
            StatusCode::TemporarilyUnavailable => "TemporarilyUnavailable".to_owned(),
            StatusCode::CallTransactionDoesNotExist => "CallTransactionDoesNotExist".to_owned(),
            StatusCode::LoopDetected => "LoopDetected".to_owned(),
            StatusCode::TooManyHops => "TooManyHops".to_owned(),
            StatusCode::AddressIncomplete => "AddressIncomplete".to_owned(),
            StatusCode::Ambiguous => "Ambiguous".to_owned(),
            StatusCode::BusyHere => "BusyHere".to_owned(),
            StatusCode::RequestTerminated => "RequestTerminated".to_owned(),
            StatusCode::NotAcceptableHere => "NotAcceptableHere".to_owned(),
            StatusCode::BadEvent => "BadEvent".to_owned(),
            StatusCode::RequestPending => "RequestPending".to_owned(),
            StatusCode::Undecipherable => "Undecipherable".to_owned(),
            StatusCode::SecurityAgreementRequired => "SecurityAgreementRequired".to_owned(),
            StatusCode::ServerInternalError => "ServerInternalError".to_owned(),
            StatusCode::NotImplemented => "NotImplemented".to_owned(),
            StatusCode::BadGateway => "BadGateway".to_owned(),
            StatusCode::ServiceUnavailable => "ServiceUnavailable".to_owned(),
            StatusCode::ServerTimeOut => "ServerTimeOut".to_owned(),
            StatusCode::VersionNotSupported => "VersionNotSupported".to_owned(),
            StatusCode::MessageTooLarge => "MessageTooLarge".to_owned(),
            StatusCode::PreconditionFailure => "PreconditionFailure".to_owned(),
            StatusCode::BusyEverywhere => "BusyEverywhere".to_owned(),
            StatusCode::Decline => "Decline".to_owned(),
            StatusCode::DoesNotExistAnywhere => "DoesNotExistAnywhere".to_owned(),
            StatusCode::NotAcceptableGlobal => "NotAcceptableGlobal".to_owned(),
            StatusCode::Unwanted => "Unwanted".to_owned(),
            StatusCode::Other(code) => {
                let mut s = "Other(".to_owned();
                s.append(text::number_to_text(*code as u32).as_str());
                s.append(")");
                s
            },
        }
    }
}

/// The code with the number `code`.
pub open spec fn status_of(code: u16) -> StatusCode {
    match code {
        100 => StatusCode::Trying,
        180 => StatusCode::Ringing,
        181 => StatusCode::CallIsBeingForwarded,
        182 => StatusCode::Queued,
        183 => StatusCode::SessionProgress,
        199 => StatusCode::EarlyDialogTerminated,
        200 => StatusCode::OK,
        202 => StatusCode::Accepted,
        204 => StatusCode::NoNotification,
        300 => StatusCode::MultipleChoices,
        301 => StatusCode::MovedPermanently,
        302 => StatusCode::MovedTemporarily,
        305 => StatusCode::UseProxy,
        380 => StatusCode::AlternateService,
        400 => StatusCode::BadRequest,
        401 => StatusCode::Unauthorized,
        402 => StatusCode::PaymentRequired,
        403 => StatusCode::Forbidden,
        404 => StatusCode::NotFound,
        405 => StatusCode::MethodNotAllowed,
        406 => StatusCode::NotAcceptable,
        407 => StatusCode::ProxyAuthenticationRequired,
        408 => StatusCode::RequestTimeout,
        409 => StatusCode::Conflict,
        410 => StatusCode::Gone,
        411 => StatusCode::LengthRequired,
        412 => StatusCode::ConditionalRequestFailed,
        413 => StatusCode::RequestEntityTooLarge,
        414 => StatusCode::RequestUriTooLong,
        415 => StatusCode::UnsupportedMediaType,
        416 => StatusCode::UnsupportedUriScheme,
        417 => StatusCode::UnknownResourcePriority,
        420 => StatusCode::BadExtension,
        421 => StatusCode::ExtensionRequired,
        422 => StatusCode::SessionIntervalTooSmall,
        423 => StatusCode::IntervalTooBrief,
        424 => StatusCode::BadLocationInformation,
        428 => StatusCode::UseIdentityHeader,
        429 => StatusCode::ProvideReferrerIdentity,
        430 => StatusCode::FlowFailed,
        433 => StatusCode::AnonymityDisallowed,
        436 => StatusCode::BadIdentityInfo,
        437 => StatusCode::UnsupportedCertificate,
        438 => StatusCode::InvalidIdentityHeader,
        439 => StatusCode::FirstHopLacksOutboundSupport,
        440 => StatusCode::MaxBreadthExceeded,
        469 => StatusCode::BadInfoPackage,
        470 => StatusCode::ConsentNeeded,
        480 => StatusCode::TemporarilyUnavailable,
        481 => StatusCode::CallTransactionDoesNotExist,
        482 => StatusCode::LoopDetected,
        483 => StatusCode::TooManyHops,
        484 => StatusCode::AddressIncomplete,
        485 => StatusCode::Ambiguous,
        486 => StatusCode::BusyHere,
        487 => StatusCode::RequestTerminated,
        488 => StatusCode::NotAcceptableHere,
        489 => StatusCode::BadEvent,
        491 => StatusCode::RequestPending,
        493 => StatusCode::Undecipherable,
        494 => StatusCode::SecurityAgreementRequired,
        500 => StatusCode::ServerInternalError,
        501 => StatusCode::NotImplemented,
        502 => StatusCode::BadGateway,
        503 => StatusCode::ServiceUnavailable,
        504 => StatusCode::ServerTimeOut,
        505 => StatusCode::VersionNotSupported,
        513 => StatusCode::MessageTooLarge,
        580 => StatusCode::PreconditionFailure,
        600 => StatusCode::BusyEverywhere,
        603 => StatusCode::Decline,
        604 => StatusCode::DoesNotExistAnywhere,
        606 => StatusCode::NotAcceptableGlobal,
        607 => StatusCode::Unwanted,
        _ => StatusCode::Other(code),
    }
}

}
