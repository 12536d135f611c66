//! The failures this library can report, and how each is shown to a client.
//!
//! A client never learns which failure occurred: every error is answered
//! with the same status and the same body. The error itself, kind and
//! fields, goes into the record that accompanies the answer, for the
//! operator's diagnostic channel.

use vstd::prelude::*;

verus! {

/// Every failure the library can produce.
#[derive(Debug, Clone, Copy, PartialEq, Eq, Structural)]
pub enum Error {
    /// The credentials presented at login were not accepted.
    LoginFail,
    /// A delete named an id that holds no ticket.
    TicketDeleteFailIdNotFound { id: u64 },
}

/// What the responder makes of an error: the status and body that the
/// client is sent, and the record that stays inside.
#[derive(Debug)]
pub struct ErrorResponse {
    pub status: u16,
    pub body: String,
    pub record: Error,
}

/// The status and body that a client is sent for an error.
pub open spec fn client_view(e: Error) -> (u16, Seq<char>) {
    (500, "UNHANDLED_CLIENT_ERROR"@)
}

impl Error {
    /// Renders the error for the boundary: the generic status and the fixed
    /// opaque body for the client, and the error unchanged as the record.
    pub fn into_response(self) -> (r: ErrorResponse)
        ensures
            (r.status, r.body@) == client_view(self),
            r.record == self,
    {
        ErrorResponse { status: 500, body: "UNHANDLED_CLIENT_ERROR".to_owned(), record: self }
    }
}

/// Error opacity: what the client is sent does not depend on the error.
pub proof fn lemma_client_view_opaque(e1: Error, e2: Error)
    ensures
        client_view(e1) == client_view(e2),
{
}

} // verus!
