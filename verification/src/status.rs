//! What a worker answers to a request.

use vstd::prelude::*;

verus! {

/// The answer to a request that went through.
#[derive(Debug, Clone, Copy, PartialEq, Eq)]
pub struct Empty {}

/// The kind of a refusal.
#[derive(Debug, Clone, Copy, PartialEq, Eq)]
pub enum Code {
    InvalidArgument,
    NotFound,
}

/// What can be wrong on the side of the worker.
#[derive(Debug, Clone, Copy, PartialEq, Eq)]
pub enum DagError {
    /// The task to which the request had to be handed has stopped.
    ShuttingDown,
}

/// The text that goes with a refusal.
#[derive(Debug, PartialEq, Eq)]
pub enum Message {
    /// This very text.
    Text(String),
    /// The text with which the error is displayed.
    Error(DagError),
}

/// A `Message`, the text by its characters.
pub enum MessageView {
    Text(Seq<char>),
    Error(DagError),
}

impl View for Message {
    type V = MessageView;

    open spec fn view(&self) -> MessageView {
        match self {
            Message::Text(text) => MessageView::Text(text@),
            Message::Error(error) => MessageView::Error(*error),
        }
    }
}

/// A refusal.
#[derive(Debug, PartialEq, Eq)]
pub struct Status {
    pub code: Code,
    pub message: Message,
}

/// A `Status`, its message by its view.
pub struct StatusView {
    pub code: Code,
    pub message: MessageView,
}

impl View for Status {
    type V = StatusView;

    open spec fn view(&self) -> StatusView {
        StatusView { code: self.code, message: self.message@ }
    }
}

/// The refusal of a request that could not be decoded: an invalid argument, with the text
/// of the decoding error.
pub open spec fn malformed(error: Seq<char>) -> StatusView {
    StatusView { code: Code::InvalidArgument, message: MessageView::Text(error) }
}

/// The refusal of a request that could not be handed on: the worker is shutting down.
pub open spec fn shutting_down() -> StatusView {
    StatusView { code: Code::NotFound, message: MessageView::Error(DagError::ShuttingDown) }
}

impl Status {
    /// The refusal of a request that could not be decoded.
    pub fn malformed(error: String) -> (status: Status)
        ensures
            status@ == malformed(error@),
            status.code == Code::InvalidArgument,
            status.message == Message::Text(error),
    {
        Status { code: Code::InvalidArgument, message: Message::Text(error) }
    }

    /// The refusal of a request that could not be handed on.
    pub fn shutting_down() -> (status: Status)
        ensures
            status@ == shutting_down(),
            status.code == Code::NotFound,
            status.message == Message::Error(DagError::ShuttingDown),
    {
        Status { code: Code::NotFound, message: Message::Error(DagError::ShuttingDown) }
    }
}

/// The refusal of a request that could not be decoded blames the request, and carries the text
/// of the decoding error, character for character.
pub proof fn law_malformed_carries_the_error(status: Status, error: Seq<char>)
    requires
        status@ == malformed(error),
    ensures
        status.code == Code::InvalidArgument,
        status.message matches Message::Text(text) && text@ == error,
{
}

/// The refusal of a request that could not be handed on does not blame the request, and says
/// that the worker is shutting down. It is never mistaken for that of a request that could not
/// be decoded.
pub proof fn law_shutting_down_is_told_apart(status: Status, error: Seq<char>)
    requires
        status@ == shutting_down(),
    ensures
        status.code == Code::NotFound,
        status.message == Message::Error(DagError::ShuttingDown),
        status@ != malformed(error),
{
}

/// The answer to a request once it was handed to its task: `delivered` says whether the
/// task took it.
pub fn reply(delivered: bool) -> (answer: Result<Empty, Status>)
    ensures
        answer is Ok <==> delivered,
        answer matches Err(status) ==> status@ == shutting_down(),
        answer matches Err(status) ==> status.code == Code::NotFound && status.message
            == Message::Error(DagError::ShuttingDown),
{
    if delivered {
        Ok(Empty {  })
    } else {
        Err(Status::shutting_down())
    }
}

/// A request that its task took is answered, and one that it did not take is refused because the
/// worker is shutting down.
pub proof fn law_only_what_was_taken_is_answered(delivered: bool, answer: Result<Empty, Status>)
    requires
        call_ensures(reply, (delivered,), answer),
    ensures
        answer is Ok <==> delivered,
        answer matches Err(status) ==> status.code == Code::NotFound && status.message
            == Message::Error(DagError::ShuttingDown),
{
}

/// A request that could not be decoded is refused as an invalid argument, with the text of the
/// decoding error.
pub proof fn law_undecodable_requests_are_blamed(error: String, status: Status)
    requires
        call_ensures(Status::malformed, (error,), status),
    ensures
        status.code == Code::InvalidArgument,
        status.message == Message::Text(error),
{
}

} // verus!
