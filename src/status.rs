use vstd::prelude::*;
use vstd::string::StringExecFns;

verus! {

/// HTTP status that carries a successful answer.
pub const STATUS_OK: u16 = 200;

/// HTTP status for a stale or invalid credential.
pub const STATUS_UNAUTHORIZED: u16 = 401;

/// HTTP status for a request that went over the rate limit.
pub const STATUS_TOO_MANY_REQUESTS: u16 = 429;

/// Why one call to the translation or the messaging service failed.
#[derive(Clone, Copy, Debug, PartialEq, Eq, Structural)]
pub enum CallError {
    /// The service answered 401.
    Authorization,
    /// The service answered 429.
    RateLimit,
    /// The service answered 200 with a body of the wrong shape.
    MalformedResponse,
    /// The service answered with any other status, kept here.
    UnexpectedStatus(u16),
}

/// How a status other than 200 is classified.
pub open spec fn error_of_status(status: u16) -> CallError {
    if status == STATUS_UNAUTHORIZED {
        CallError::Authorization
    } else if status == STATUS_TOO_MANY_REQUESTS {
        CallError::RateLimit
    } else {
        CallError::UnexpectedStatus(status)
    }
}

/// `Ok` for 200, the classified error for any other status.
pub open spec fn status_outcome(status: u16) -> Result<(), CallError> {
    if status == STATUS_OK {
        Ok(())
    } else {
        Err(error_of_status(status))
    }
}

/// A result with its text seen as characters.
pub open spec fn result_view(r: Result<String, CallError>) -> Result<Seq<char>, CallError> {
    match r {
        Ok(s) => Ok(s@),
        Err(e) => Err(e),
    }
}

/// The diagnostic line shown for an error.
pub open spec fn error_text(e: CallError) -> Seq<char> {
    match e {
        CallError::Authorization => "🛑 Status: UNAUTHORIZED - Need to grab a new token"@,
        CallError::RateLimit => "🛑 Status: 429 - Too many requests"@,
        CallError::MalformedResponse => "🛑 Hm, the response didn't match the shape we expected."@,
        CallError::UnexpectedStatus(_) => "🛑 Status: {:#?} - Something unexpected happened"@,
    }
}

/// Reads an HTTP status: 200 is success, 401, 429 and the rest are errors.
pub fn classify_status(status: u16) -> (r: Result<(), CallError>)
    ensures
        r == status_outcome(status),
        status == STATUS_OK <==> r is Ok,
        status == STATUS_UNAUTHORIZED ==> r == Err::<(), CallError>(CallError::Authorization),
        status == STATUS_TOO_MANY_REQUESTS ==> r == Err::<(), CallError>(CallError::RateLimit),
{
    if status == STATUS_OK {
        Ok(())
    } else if status == STATUS_UNAUTHORIZED {
        Err(CallError::Authorization)
    } else if status == STATUS_TOO_MANY_REQUESTS {
        Err(CallError::RateLimit)
    } else {
        Err(CallError::UnexpectedStatus(status))
    }
}

impl CallError {
    /// The line printed for this error.
    pub fn message(&self) -> (r: String)
        ensures
            r@ == error_text(*self),
    {
        match self {
            CallError::Authorization => String::from_str(
                "🛑 Status: UNAUTHORIZED - Need to grab a new token",
            ),
            CallError::RateLimit => String::from_str("🛑 Status: 429 - Too many requests"),
            CallError::MalformedResponse => String::from_str(
                "🛑 Hm, the response didn't match the shape we expected.",
            ),
            CallError::UnexpectedStatus(_) => String::from_str(
                "🛑 Status: {:#?} - Something unexpected happened",
            ),
        }
    }
}

} // verus!
