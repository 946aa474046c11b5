//! The failure of a request that is not of the caller's making.
use crate::reply::{text_reply, Reply, Status};
use vstd::prelude::*;
use vstd::string::*;

verus! {

/// A failure of the store, of the provider or of the lookup service, with the text that
/// tells of it. The text is for the log: a caller is not told of it.
#[derive(Debug)]
pub struct AppError(pub String);

impl AppError {
    /// The failure that `message` tells of.
    pub fn new(message: &str) -> (error: AppError)
        ensures
            error.0@ == message@,
    {
        AppError(String::from_str(message))
    }

    /// The text that tells of the failure, for the log.
    pub fn message(&self) -> (text: String)
        ensures
            text@ == self.0@,
    {
        self.0.clone()
    }

    /// The answer that tells the caller of the failure: 500 with one text for every
    /// failure, which says nothing of what failed.
    pub fn into_response(self) -> (reply: Reply<()>)
        ensures
            reply.is_text(Status::InternalServerError, "Something went wrong"@),
    {
        text_reply(Status::InternalServerError, "Something went wrong")
    }
}

} // verus!
