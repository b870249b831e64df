use vstd::prelude::*;

verus! {

/// The failures that the account service reports.
#[derive(Clone, Copy, Debug, PartialEq, Eq, Structural)]
pub enum Error {
    /// The email of a new account is already registered.
    Conflict,
    /// Unknown email or wrong password; the two are deliberately not told apart.
    Unauthorized,
    /// A lookup found no row.
    NotFound,
    /// A stored password hash could not be parsed.
    MalformedHash,
    /// Any other failure; its details are never shown to the caller.
    Internal,
}

/// The HTTP status that each error is reported with.
pub open spec fn status_of(e: Error) -> u16 {
    match e {
        Error::Conflict => 409,
        Error::Unauthorized => 401,
        Error::NotFound => 404,
        Error::MalformedHash => 500,
        Error::Internal => 500,
    }
}

/// The text that each error is reported with. Wrong passwords and unknown
/// emails read alike, and internal failures carry no detail.
pub open spec fn message_of(e: Error) -> Seq<char> {
    match e {
        Error::Conflict => "email already registered"@,
        Error::Unauthorized => "invalid email or password"@,
        Error::NotFound => "not found"@,
        Error::MalformedHash => "internal server error"@,
        Error::Internal => "internal server error"@,
    }
}

impl Error {
    /// The HTTP status code of this error: 4xx for the caller's mistakes, 500
    /// for failures of the service itself.
    pub fn status_code(&self) -> (r: u16)
        ensures
            r == status_of(*self),
    {
        match self {
            Error::Conflict => 409,
            Error::Unauthorized => 401,
            Error::NotFound => 404,
            Error::MalformedHash => 500,
            Error::Internal => 500,
        }
    }

    /// The text to report this error with to the caller.
    pub fn message(&self) -> (r: &'static str)
        ensures
            r@ == message_of(*self),
    {
        match self {
            Error::Conflict => "email already registered",
            Error::Unauthorized => "invalid email or password",
            Error::NotFound => "not found",
            Error::MalformedHash => "internal server error",
            Error::Internal => "internal server error",
        }
    }

    /// Whether the error may be described to the end user; internal failures
    /// are reported without detail.
    pub fn is_client_error(&self) -> (r: bool)
        ensures
            r == (status_of(*self) < 500),
    {
        match self {
            Error::Conflict | Error::Unauthorized | Error::NotFound => true,
            Error::MalformedHash | Error::Internal => false,
        }
    }
}

} // verus!
