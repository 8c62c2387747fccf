//! The web service's error taxonomy and its client-facing mapping.

use vstd::prelude::*;

verus! {

/// A service-side failure.
#[derive(Debug, Clone, PartialEq, Eq, Structural)]
pub enum Error {
    LoginFail,
    CookiesNotFount,
    AuthFailNoAuthTokenCookie,
    AuthFailTokenWrongFormat,
    AuthFailCtxNotInRequestExt,
    TicketDeleteFailIdNotFound { id: u64 },
}

/// What a client is allowed to learn about a failure.
#[allow(non_camel_case_types)]
#[derive(Debug, Clone, PartialEq, Eq, Structural)]
pub enum ClientError {
    LOGIN_FAIL,
    NO_AUTH,
    INVALID_PARAMS,
    SERVICE_ERROR,
}

impl Error {
    /// The name of the failure's variant.
    pub open spec fn spec_name(&self) -> Seq<char> {
        match *self {
            Error::LoginFail => "LoginFail"@,
            Error::CookiesNotFount => "CookiesNotFount"@,
            Error::AuthFailNoAuthTokenCookie => "AuthFailNoAuthTokenCookie"@,
            Error::AuthFailTokenWrongFormat => "AuthFailTokenWrongFormat"@,
            Error::AuthFailCtxNotInRequestExt => "AuthFailCtxNotInRequestExt"@,
            Error::TicketDeleteFailIdNotFound { .. } => "TicketDeleteFailIdNotFound"@,
        }
    }

    /// The name of the failure's variant, for logging.
    pub fn name(&self) -> (r: String)
        ensures
            r@ == self.spec_name(),
    {
        match self {
            Error::LoginFail => "LoginFail".to_owned(),
            Error::CookiesNotFount => "CookiesNotFount".to_owned(),
            Error::AuthFailNoAuthTokenCookie => "AuthFailNoAuthTokenCookie".to_owned(),
            Error::AuthFailTokenWrongFormat => "AuthFailTokenWrongFormat".to_owned(),
            Error::AuthFailCtxNotInRequestExt => "AuthFailCtxNotInRequestExt".to_owned(),
            Error::TicketDeleteFailIdNotFound { .. } => "TicketDeleteFailIdNotFound".to_owned(),
        }
    }

    /// The HTTP status code and client error each failure maps to: login
    /// and auth failures are forbidden (403), a missed ticket id is a bad
    /// request (400), and everything else is a service error (500).
    pub open spec fn spec_client_status_and_error(&self) -> (u16, ClientError) {
        match *self {
            Error::LoginFail => (403u16, ClientError::LOGIN_FAIL),
            Error::AuthFailNoAuthTokenCookie | Error::AuthFailTokenWrongFormat
            | Error::AuthFailCtxNotInRequestExt => (403u16, ClientError::NO_AUTH),
            Error::TicketDeleteFailIdNotFound { .. } => (400u16, ClientError::INVALID_PARAMS),
            _ => (500u16, ClientError::SERVICE_ERROR),
        }
    }

    /// Maps the failure to its HTTP status code and client error.
    pub fn client_status_and_error(&self) -> (r: (u16, ClientError))
        ensures
            r == self.spec_client_status_and_error(),
    {
        match self {
            Error::LoginFail => (403, ClientError::LOGIN_FAIL),
            Error::AuthFailNoAuthTokenCookie | Error::AuthFailTokenWrongFormat
            | Error::AuthFailCtxNotInRequestExt => (403, ClientError::NO_AUTH),
            Error::TicketDeleteFailIdNotFound { .. } => (400, ClientError::INVALID_PARAMS),
            _ => (500, ClientError::SERVICE_ERROR),
        }
    }
}

impl ClientError {
    /// The name of the client error's variant.
    pub open spec fn spec_name(&self) -> Seq<char> {
        match *self {
            ClientError::LOGIN_FAIL => "LOGIN_FAIL"@,
            ClientError::NO_AUTH => "NO_AUTH"@,
            ClientError::INVALID_PARAMS => "INVALID_PARAMS"@,
            ClientError::SERVICE_ERROR => "SERVICE_ERROR"@,
        }
    }

    /// The name of the client error's variant, for logging.
    pub fn name(&self) -> (r: String)
        ensures
            r@ == self.spec_name(),
    {
        match self {
            ClientError::LOGIN_FAIL => "LOGIN_FAIL".to_owned(),
            ClientError::NO_AUTH => "NO_AUTH".to_owned(),
            ClientError::INVALID_PARAMS => "INVALID_PARAMS".to_owned(),
            ClientError::SERVICE_ERROR => "SERVICE_ERROR".to_owned(),
        }
    }
}

} // verus!
