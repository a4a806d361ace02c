//! The decisions of the client of the query service.
//!
//! One query is one HTTP POST. The caller does the sending and the reading;
//! what is sent, how a status is judged, and what each outcome amounts to is
//! decided here:
//!
//! 1. [`request_for`] gives the request to send.
//! 2. Where no response arrives, [`transport_failure`] gives the error.
//! 3. [`on_status`] judges the status of the response and tells which
//!    reading of the body comes next.
//! 4. [`AwaitingReply::finish`] or [`AwaitingErrorText::finish`] turns what
//!    that reading gave into the outcome of the query.

use crate::types::{ChatMessageInput, ChatMessageOutput, ChatMessageOutputView};
use vstd::prelude::*;

verus! {

/// Why a query has no reply.
#[derive(Clone, Debug, PartialEq, Eq)]
pub enum ForwardError {
    /// The service could not be reached, or its answer could not be read or
    /// understood.
    Transport { cause: String },
    /// The service answered with a status other than success.
    Backend { status: u16, body: String },
}

/// Mathematical model of a [`ForwardError`].
pub enum ForwardErrorView {
    Transport { cause: Seq<char> },
    Backend { status: u16, body: Seq<char> },
}

impl View for ForwardError {
    type V = ForwardErrorView;

    open spec fn view(&self) -> ForwardErrorView {
        match self {
            ForwardError::Transport { cause } => ForwardErrorView::Transport { cause: cause@ },
            ForwardError::Backend { status, body } => ForwardErrorView::Backend {
                status: *status,
                body: body@,
            },
        }
    }
}

/// Mathematical model of the outcome of a query.
pub open spec fn outcome_view(
    outcome: Result<ChatMessageOutput, ForwardError>,
) -> Result<ChatMessageOutputView, ForwardErrorView> {
    match outcome {
        Ok(reply) => Ok(reply@),
        Err(error) => Err(error@),
    }
}

/// The request for a query: the query as its body, and no credential.
pub fn request_for(query: String) -> (request: ChatMessageInput)
    ensures
        request@.body == query@,
        request@.api_key is None,
{
    ChatMessageInput { api_key: None, body: query }
}

/// The error for a request that got no response.
pub fn transport_failure(cause: String) -> (error: ForwardError)
    ensures
        error@ == (ForwardErrorView::Transport { cause: cause@ }),
{
    ForwardError::Transport { cause }
}

/// Whether an HTTP status means success: the codes from 200 to 299.
pub open spec fn is_success(status: u16) -> bool {
    200 <= status < 300
}

/// A response with a success status has arrived; its body is to be decoded
/// as a reply.
#[derive(Debug)]
pub struct AwaitingReply {
    status: u16,
}

/// A response with another status has arrived; its body is to be read as
/// text.
#[derive(Debug)]
pub struct AwaitingErrorText {
    status: u16,
}

/// What the client does after the status of a response is known.
#[derive(Debug)]
pub enum AfterStatus {
    /// Decode the body as a reply.
    Decode(AwaitingReply),
    /// Read the body as text, for the error.
    Explain(AwaitingErrorText),
}

/// Judges the status of a response: a success status asks for the body to
/// be decoded, any other for its text.
pub fn on_status(status: u16) -> (next: AfterStatus)
    ensures
        is_success(status) ==> next is Decode && next->Decode_0.status() == status,
        !is_success(status) ==> next is Explain && next->Explain_0.status() == status,
{
    if 200 <= status && status < 300 {
        AfterStatus::Decode(AwaitingReply { status })
    } else {
        AfterStatus::Explain(AwaitingErrorText { status })
    }
}

/// The outcome of a query whose response had a success status, given what
/// decoding the body gave: the reply, or a transport error with the cause of
/// the failure.
pub open spec fn decoded_outcome(decoded: Result<ChatMessageOutput, String>) -> Result<
    ChatMessageOutputView,
    ForwardErrorView,
> {
    match decoded {
        Ok(reply) => Ok(reply@),
        Err(cause) => Err(ForwardErrorView::Transport { cause: cause@ }),
    }
}

/// The error of a query whose response had the given status, not a success,
/// given what reading the body as text gave: a backend error with the status
/// and the text, or a transport error where the text could not be read.
pub open spec fn failure_error(status: u16, text: Result<String, String>) -> ForwardErrorView {
    match text {
        Ok(body) => ForwardErrorView::Backend { status, body: body@ },
        Err(cause) => ForwardErrorView::Transport { cause: cause@ },
    }
}

/// A response whose status is no success ends in a backend error that
/// carries that status and the text of the body. A response with a success
/// status whose body cannot be decoded ends in a transport error with the
/// cause, not in a backend error.
pub proof fn outcome_by_status(status: u16, body: String, cause: String)
    ensures
        failure_error(status, Ok(body)) == (ForwardErrorView::Backend { status, body: body@ }),
        decoded_outcome(Err(cause)) is Err,
        decoded_outcome(Err(cause))->Err_0 == (ForwardErrorView::Transport { cause: cause@ }),
        !(decoded_outcome(Err(cause))->Err_0 is Backend),
{
}

impl AwaitingReply {
    #[verifier::type_invariant]
    spec fn status_is_success(self) -> bool {
        is_success(self.status)
    }

    /// The status of the response. It is always a success status.
    pub closed spec fn status(self) -> u16 {
        self.status
    }

    /// The outcome of the query, given what decoding the body gave: the
    /// reply, or a transport error with the cause of the failure. Never a
    /// backend error.
    pub fn finish(self, decoded: Result<ChatMessageOutput, String>) -> (outcome: Result<
        ChatMessageOutput,
        ForwardError,
    >)
        ensures
            outcome_view(outcome) == decoded_outcome(decoded),
            is_success(self.status()),
    {
        proof {
            use_type_invariant(&self);
        }
        match decoded {
            Ok(reply) => Ok(reply),
            Err(cause) => Err(ForwardError::Transport { cause }),
        }
    }
}

impl AwaitingErrorText {
    #[verifier::type_invariant]
    spec fn status_is_failure(self) -> bool {
        !is_success(self.status)
    }

    /// The status of the response. It is never a success status.
    pub closed spec fn status(self) -> u16 {
        self.status
    }

    /// The outcome of the query, given what reading the body as text gave:
    /// a backend error with the status and the text, or a transport error
    /// where the text could not be read. Never a reply.
    pub fn finish(self, text: Result<String, String>) -> (outcome: Result<
        ChatMessageOutput,
        ForwardError,
    >)
        ensures
            outcome is Err,
            outcome->Err_0@ == failure_error(self.status(), text),
            !is_success(self.status()),
    {
        proof {
            use_type_invariant(&self);
        }
        match text {
            Ok(body) => Err(ForwardError::Backend { status: self.status, body }),
            Err(cause) => Err(ForwardError::Transport { cause }),
        }
    }
}

} // verus!
