//! The closed set of request failures and their mapping to an HTTP status and
//! an error envelope.
use vstd::prelude::*;

verus! {

/// What can go wrong while handling one request.
#[derive(Debug, PartialEq, Eq)]
pub enum EchoError {
    /// The body would grow past the configured maximum.
    BodyTooLarge,
    /// The body stream failed; carries the transport's message.
    BodyReadError(String),
    /// The body looks like JSON but does not parse; carries the parser's message.
    InvalidJson(String),
}

/// The structured body of a failed request.
pub struct ErrorEnvelope {
    pub status: u16,
    pub error: String,
    /// Present only for the kinds that carry a diagnostic text.
    pub details: Option<String>,
    pub timestamp: String,
}

/// HTTP status of each kind of failure.
pub open spec fn status_of(e: EchoError) -> u16 {
    match e {
        EchoError::BodyTooLarge => 413,
        EchoError::BodyReadError(_) => 400,
        EchoError::InvalidJson(_) => 400,
    }
}

/// Human-readable category of each kind of failure.
pub open spec fn message_of(e: EchoError) -> Seq<char> {
    match e {
        EchoError::BodyTooLarge => "Request body too large"@,
        EchoError::BodyReadError(_) => "Failed to read request body"@,
        EchoError::InvalidJson(_) => "Invalid JSON in request body"@,
    }
}

/// Diagnostic text carried by a failure, if its kind has one.
pub open spec fn details_of(e: EchoError) -> Option<Seq<char>> {
    match e {
        EchoError::BodyTooLarge => None,
        EchoError::BodyReadError(m) => Some(m@),
        EchoError::InvalidJson(m) => Some(m@),
    }
}

impl EchoError {
    pub fn status(&self) -> (r: u16)
        ensures
            r == status_of(*self),
    {
        match self {
            EchoError::BodyTooLarge => 413,
            EchoError::BodyReadError(_) => 400,
            EchoError::InvalidJson(_) => 400,
        }
    }

    pub fn message(&self) -> (r: String)
        ensures
            r@ == message_of(*self),
    {
        proof {
            reveal_strlit("Request body too large");
            reveal_strlit("Failed to read request body");
            reveal_strlit("Invalid JSON in request body");
        }
        match self {
            EchoError::BodyTooLarge => String::from_str("Request body too large"),
            EchoError::BodyReadError(_) => String::from_str("Failed to read request body"),
            EchoError::InvalidJson(_) => String::from_str("Invalid JSON in request body"),
        }
    }

    pub fn details(&self) -> (r: Option<String>)
        ensures
            match r {
                Some(d) => details_of(*self) == Some(d@),
                None => details_of(*self) is None,
            },
    {
        match self {
            EchoError::BodyTooLarge => None,
            EchoError::BodyReadError(m) => Some(m.clone()),
            EchoError::InvalidJson(m) => Some(m.clone()),
        }
    }

    /// The error envelope for this failure, stamped with `timestamp`.
    pub fn into_envelope(self, timestamp: String) -> (r: ErrorEnvelope)
        ensures
            r.status == status_of(self),
            r.error@ == message_of(self),
            r.details matches Some(d) ==> details_of(self) == Some(d@),
            r.details is None ==> details_of(self) is None,
            r.timestamp == timestamp,
    {
        let status = self.status();
        let error = self.message();
        let details = self.details();
        ErrorEnvelope { status, error, details, timestamp }
    }
}

} // verus!
