//! The domain error taxonomy: a closed set of error kinds plus an
//! optional free-text detail.

use vstd::prelude::*;
use vstd::string::StringExecFns;

verus! {

/// The closed set of error kinds this library reports.
#[derive(Clone, Copy, Debug, PartialEq, Eq, Structural)]
pub enum ErrorCode {
    /// Invalid authentication. Please check your username and password.
    InvalidAuth,
    /// Access denied. Please check your username and password.
    AccessDenied,
    /// Unknown Error. Please contact Support and include your whole transaction.
    Unknown,
    /// Parse Error. The object to send in the request is badly formatted.
    Parse,
    /// Unable to access SMSC credentials.
    SMSCCredentials,
    /// Invalid or missing platformId. Please check your platformId.
    InvOrMissingPlatformID,
    /// Invalid or missing platformPartnerId. Please check your platformPartnerId.
    InvOrMissingPlatformPartnerID,
    /// Invalid or missing currency for premium message. Please check your price
    /// and currency.
    InvOrMissingCurrencyForPremium,
    /// No gates available. Please contact Support and include your whole
    /// transaction.
    NoGatesAvail,
    /// Specified gate unavailable. Please check your gateId.
    SpecifiedGateUnavail,
    /// An error unrelated to the vendor: transport-level failures and the like.
    Other,
}

/// The fixed display text of each error kind.
pub open spec fn code_text(code: ErrorCode) -> Seq<char> {
    match code {
        ErrorCode::InvalidAuth => "invalid auth"@,
        ErrorCode::AccessDenied => "access denied"@,
        ErrorCode::Unknown => "unknown"@,
        ErrorCode::Parse => "parse"@,
        ErrorCode::SMSCCredentials => "sms credentials"@,
        ErrorCode::InvOrMissingPlatformID => "invalid or missing platform"@,
        ErrorCode::InvOrMissingPlatformPartnerID => "invalid or missing platform partner id"@,
        ErrorCode::InvOrMissingCurrencyForPremium => "invalid or missing currenct for premium"@,
        ErrorCode::NoGatesAvail => "no gates available"@,
        ErrorCode::SpecifiedGateUnavail => "specified gate unavailable"@,
        ErrorCode::Other => "other"@,
    }
}

/// A classified failure: an error kind and an optional human-readable detail.
#[derive(Debug)]
pub struct Error {
    code: ErrorCode,
    msg: Option<String>,
}

/// The full display text of an error: the kind's fixed text, then
/// `": "` and the detail when a detail is present.
pub open spec fn error_text(code: ErrorCode, msg: Option<Seq<char>>) -> Seq<char> {
    match msg {
        Some(m) => code_text(code) + ": "@ + m,
        None => code_text(code),
    }
}

impl Error {
    pub fn new(code: ErrorCode, msg: Option<String>) -> (r: Error)
        ensures
            r.code() == code,
            r.msg_view() == match msg {
                Some(m) => Some(m@),
                None => None::<Seq<char>>,
            },
    {
        Error { code, msg }
    }

    pub fn with_code(code: ErrorCode) -> (r: Error)
        ensures
            r.code() == code,
            r.msg_view() is None,
    {
        Error::new(code, None)
    }

    /// The error kind, visible to contracts as well.
    #[verifier::when_used_as_spec(spec_code)]
    pub fn code(&self) -> (r: ErrorCode)
        ensures
            r == self.code(),
    {
        self.code
    }

    pub closed spec fn spec_code(&self) -> ErrorCode {
        self.code
    }

    /// The optional detail text as contracts see it.
    pub closed spec fn msg_view(&self) -> Option<Seq<char>> {
        match self.msg {
            Some(m) => Some(m@),
            None => None,
        }
    }

    pub fn msg(&self) -> (r: Option<&String>)
        ensures
            match r {
                Some(m) => self.msg_view() == Some(m@),
                None => self.msg_view() is None,
            },
    {
        self.msg.as_ref()
    }

    /// The exact text of each kind, as the display string starts with it.
    fn code_str(code: ErrorCode) -> (r: &'static str)
        ensures
            r@ == code_text(code),
    {
        match code {
            ErrorCode::InvalidAuth => "invalid auth",
            ErrorCode::AccessDenied => "access denied",
            ErrorCode::Unknown => "unknown",
            ErrorCode::Parse => "parse",
            ErrorCode::SMSCCredentials => "sms credentials",
            ErrorCode::InvOrMissingPlatformID => "invalid or missing platform",
            ErrorCode::InvOrMissingPlatformPartnerID => "invalid or missing platform partner id",
            ErrorCode::InvOrMissingCurrencyForPremium => "invalid or missing currenct for premium",
            ErrorCode::NoGatesAvail => "no gates available",
            ErrorCode::SpecifiedGateUnavail => "specified gate unavailable",
            ErrorCode::Other => "other",
        }
    }

    /// Renders the error for display: the kind's fixed text, and `": "`
    /// plus the detail when one is present.
    pub fn display_string(&self) -> (r: String)
        ensures
            r@ == error_text(self.code(), self.msg_view()),
    {
        let mut out = Error::code_str(self.code).to_owned();
        match &self.msg {
            Some(m) => {
                out.append(": ");
                out.append(m.as_str());
            },
            None => {},
        }
        out
    }
}

} // verus!
