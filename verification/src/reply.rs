//! What an endpoint answers.
use vstd::prelude::*;
use vstd::string::*;

verus! {

/// The HTTP status of an answer.
#[derive(Clone, Copy, Debug, PartialEq, Eq, Structural)]
pub enum Status {
    Success,
    Created,
    NoContent,
    BadRequest,
    NotFound,
    InternalServerError,
}

impl Status {
    /// The number of the status.
    pub open spec fn spec_code(self) -> u16 {
        match self {
            Status::Success => 200,
            Status::Created => 201,
            Status::NoContent => 204,
            Status::BadRequest => 400,
            Status::NotFound => 404,
            Status::InternalServerError => 500,
        }
    }

    /// The number of the status.
    #[verifier::when_used_as_spec(spec_code)]
    pub fn code(self) -> (code: u16)
        ensures
            code == self.spec_code(),
    {
        match self {
            Status::Success => 200,
            Status::Created => 201,
            Status::NoContent => 204,
            Status::BadRequest => 400,
            Status::NotFound => 404,
            Status::InternalServerError => 500,
        }
    }

    /// Whether the status tells of a failure: 400 and above.
    pub fn is_failure(self) -> (r: bool)
        ensures
            r == (self.spec_code() >= 400),
    {
        self.code() >= 400
    }
}

/// The answer of an endpoint: a value to be written as JSON, a plain text, or a status
/// alone.
#[derive(Debug)]
pub enum Reply<T> {
    Json { status: Status, value: T },
    Text { status: Status, text: String },
    Empty { status: Status },
}

impl<T> Reply<T> {
    /// The status of the answer.
    pub open spec fn spec_status(&self) -> Status {
        match self {
            Reply::Json { status, .. } => *status,
            Reply::Text { status, .. } => *status,
            Reply::Empty { status } => *status,
        }
    }

    /// The status of the answer.
    #[verifier::when_used_as_spec(spec_status)]
    pub fn status(&self) -> (status: Status)
        ensures
            status == self.spec_status(),
    {
        match self {
            Reply::Json { status, .. } => *status,
            Reply::Text { status, .. } => *status,
            Reply::Empty { status } => *status,
        }
    }

    /// Whether this is the plain text `text` under `status`.
    pub open spec fn is_text(&self, status: Status, text: Seq<char>) -> bool {
        self matches Reply::Text { status: s, text: t } && s == status && t@ == text
    }

    /// Whether this is `value` as JSON under `status`.
    pub open spec fn is_json(&self, status: Status, value: T) -> bool {
        self matches Reply::Json { status: s, value: v } && s == status && v == value
    }
}

/// A plain text under `status`.
pub fn text_reply<T>(status: Status, text: &str) -> (reply: Reply<T>)
    ensures
        reply.is_text(status, text@),
{
    Reply::Text { status, text: String::from_str(text) }
}

} // verus!
