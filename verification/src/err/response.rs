//! What a client is told when a request fails.

use vstd::prelude::*;

verus! {

/// An error as it goes to a client: the HTTP status code, and the two fields of the
/// body, of which `message` is left out of the body where there is none.
#[derive(Debug)]
pub struct ErrorResponse {
    pub status: u16,
    pub error: String,
    pub message: Option<String>,
}

/// An [`ErrorResponse`] with its strings as sequences of characters.
pub struct ErrorResponseView {
    pub status: u16,
    pub error: Seq<char>,
    pub message: Option<Seq<char>>,
}

impl View for ErrorResponse {
    type V = ErrorResponseView;

    open spec fn view(&self) -> ErrorResponseView {
        ErrorResponseView {
            status: self.status,
            error: self.error@,
            message: match self.message {
                Some(text) => Some(text@),
                None => None,
            },
        }
    }
}

} // verus!
