use vstd::prelude::*;
use crate::admin::inspect_view::{InspectRequest, InspectViewMessage, QueueProperties};
use crate::admin::queue_selector::{Message as SelectorMessage, QueueFilter};
use crate::admin::queue_view::{QueueViewRequest, TopLevelQueueId, UIMessage};

verus! {

/// What the server answered to a request.
#[derive(Debug)]
pub enum Answer {
    /// An answer whose content the views do not read (a queue deleted or created, a
    /// subscription made).
    Done,
    /// Whether a message was published.
    Published(bool),
    /// The payload of the message received; `None`: no message was available.
    Received(Option<String>),
    /// The current subscription.
    Subscription(Option<QueueFilter>),
    /// The breakdown of a topic: each subtopic with its sub-subtopics.
    TopicBreakdown(Option<Vec<(String, Vec<String>)>>),
    /// The properties of a queue, with the queue's address as text.
    Properties(String, QueueProperties),
    /// The server's buffers, each with its subscriber and message counts.
    QueueList(Vec<(TopLevelQueueId, usize, usize)>),
    /// Whether the connection attempt succeeded.
    Connected(bool),
}

/// The message that the inspection view gets for `answer` to `request`; `None` when the answer
/// is not of the kind the request asks for.
pub open spec fn inspect_answer_spec(request: InspectRequest, answer: Answer) -> Option<InspectViewMessage> {
    match (request, answer) {
        (InspectRequest::DeleteQueue(_), Answer::Done) => Some(InspectViewMessage::Deleted),
        (InspectRequest::Publish { .. }, Answer::Published(ok)) => Some(
            if ok { InspectViewMessage::MessageSent } else { InspectViewMessage::SendFailure },
        ),
        (InspectRequest::Subscribe(_), Answer::Done) => Some(InspectViewMessage::Subscribed),
        (InspectRequest::GetSubscription, Answer::Subscription(s)) => Some(InspectViewMessage::Subscription(s)),
        (InspectRequest::Receive, Answer::Received(Some(payload))) => Some(InspectViewMessage::MessageReceived(payload)),
        (InspectRequest::Receive, Answer::Received(None)) => Some(InspectViewMessage::NoMessageAvailable),
        (InspectRequest::GetTopicBreakdown(_), Answer::TopicBreakdown(d)) => Some(
            InspectViewMessage::Selector(SelectorMessage::BreakdownLoaded(d)),
        ),
        (InspectRequest::CreateSubtopic { .. }, Answer::Done) => Some(InspectViewMessage::SubtopicCreated),
        _ => None,
    }
}

/// The message that the inspection view gets for `answer` to `request` (see
/// `inspect_answer_spec`).
pub fn inspect_answer(request: InspectRequest, answer: Answer) -> (m: Option<InspectViewMessage>)
    ensures
        m == inspect_answer_spec(request, answer),
{
    match (request, answer) {
        (InspectRequest::DeleteQueue(_), Answer::Done) => Some(InspectViewMessage::Deleted),
        (InspectRequest::Publish { .. }, Answer::Published(ok)) => Some(
            if ok { InspectViewMessage::MessageSent } else { InspectViewMessage::SendFailure },
        ),
        (InspectRequest::Subscribe(_), Answer::Done) => Some(InspectViewMessage::Subscribed),
        (InspectRequest::GetSubscription, Answer::Subscription(s)) => Some(InspectViewMessage::Subscription(s)),
        (InspectRequest::Receive, Answer::Received(Some(payload))) => Some(InspectViewMessage::MessageReceived(payload)),
        (InspectRequest::Receive, Answer::Received(None)) => Some(InspectViewMessage::NoMessageAvailable),
        (InspectRequest::GetTopicBreakdown(_), Answer::TopicBreakdown(d)) => Some(
            InspectViewMessage::Selector(SelectorMessage::BreakdownLoaded(d)),
        ),
        (InspectRequest::CreateSubtopic { .. }, Answer::Done) => Some(InspectViewMessage::SubtopicCreated),
        _ => None,
    }
}

/// The message that the queue overview gets for `answer` to `request`: the list fills the
/// table, and a created queue makes it refresh; `None` when the answer is not of the kind the
/// request asks for.
pub open spec fn queue_view_answer_spec(request: QueueViewRequest, answer: Answer) -> Option<UIMessage> {
    match (request, answer) {
        (QueueViewRequest::ListQueues, Answer::QueueList(rows)) => Some(UIMessage::NewTableData(rows)),
        (QueueViewRequest::CreateQueue { .. }, Answer::Done) => Some(UIMessage::Refresh),
        _ => None,
    }
}

/// The message that the queue overview gets for `answer` to `request` (see
/// `queue_view_answer_spec`).
pub fn queue_view_answer(request: QueueViewRequest, answer: Answer) -> (m: Option<UIMessage>)
    ensures
        m == queue_view_answer_spec(request, answer),
{
    match (request, answer) {
        (QueueViewRequest::ListQueues, Answer::QueueList(rows)) => Some(UIMessage::NewTableData(rows)),
        (QueueViewRequest::CreateQueue { .. }, Answer::Done) => Some(UIMessage::Refresh),
        _ => None,
    }
}

} // verus!
