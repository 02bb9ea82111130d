use vstd::prelude::*;
use std::collections::VecDeque;
use crate::admin::queue_selector::{Message as SelectorMessage, QueueFilter, QueueId, QueueSelector};
use crate::admin::queue_view::copy_queue_id;

verus! {

/// Number of earlier received messages the log keeps.
pub const MESSAGE_LOG_LENGTH: usize = 5;

/// A request that the inspection view sends to the server.
#[derive(Debug)]
pub enum InspectRequest {
    DeleteQueue(QueueId),
    /// Publish `payload` to `queue` with a time to live in seconds; `None`: it never expires.
    Publish { payload: String, queue: QueueId, ttl_secs: Option<u64> },
    Subscribe(QueueFilter),
    GetSubscription,
    Receive,
    GetTopicBreakdown(String),
    /// Create a sub(-sub)topic of `topic`, as a queue that is no dead letter exchange and has
    /// the default one.
    CreateSubtopic { topic: String, subtopic: String, subsubtopic: Option<String> },
}

/// What the inspection view reacts to: its own controls and the server's answers.
#[derive(Debug)]
pub enum InspectViewMessage {
    Delete(QueueId),
    Deleted,
    MessageBodyChanged(String),
    SendMessage(QueueId),
    MessageSent,
    SendFailure,
    Subscribe,
    Subscribed,
    ReceiveMessage,
    MessageReceived(String),
    NoMessageAvailable,
    TTLValueChanged(u16),
    TTLPermanentToggle(bool),
    LoadBreakdown,
    SubtopicCreated,
    Subscription(Option<QueueFilter>),
    Selector(SelectorMessage),
}

/// The properties of a queue: whether the system manages it, whether it is a dead letter
/// exchange, and its dead letter exchange (`None`: the system default).
#[derive(Debug)]
pub struct QueueProperties {
    pub is_system: bool,
    pub is_dlx: bool,
    pub dlx: Option<QueueId>,
}

/// The inspection view of one queue: the message being written, its time to live, the last
/// message received and the ones before it (newest first), the current subscription and the
/// queue selector.
pub struct InspectView<T: QueueSelector> {
    pub queue_id: QueueId,
    pub props: QueueProperties,
    pub message_body: String,
    pub received_message: String,
    pub ttl_value: u16,
    pub ttl_permanent: bool,
    pub subscription: Option<QueueFilter>,
    pub message_log: VecDeque<String>,
    pub queue_selector: T,
}

/// The log after `previous` is pushed in front: the newest `MESSAGE_LOG_LENGTH` entries.
pub open spec fn log_after(log: Seq<String>, previous: String) -> Seq<String> {
    let l = seq![previous] + log;
    if l.len() > MESSAGE_LOG_LENGTH { l.subrange(0, MESSAGE_LOG_LENGTH as int) } else { l }
}

/// The requests a view of `queue_id` starts with: the subscription, and for a topic its
/// breakdown.
pub open spec fn load_requests(queue_id: QueueId) -> Seq<InspectRequest> {
    match queue_id {
        QueueId::Topic(name, _, _) => seq![InspectRequest::GetSubscription, InspectRequest::GetTopicBreakdown(name)],
        QueueId::Queue(_) => seq![InspectRequest::GetSubscription],
    }
}

/// The request `first`, then `second` if there is one.
fn requests(first: InspectRequest, second: Option<InspectRequest>) -> (v: Vec<InspectRequest>)
    ensures
        v@ == match second {
            None => seq![first],
            Some(r) => seq![first, r],
        },
{
    let mut v = Vec::new();
    v.push(first);
    if let Some(r) = second {
        v.push(r);
    }
    v
}

impl<T: QueueSelector> InspectView<T> {
    /// The requests and the view after `message` (see `update`).
    pub open spec fn update_rel(self, message: InspectViewMessage, next: Self, requests: Seq<InspectRequest>) -> bool {
        match message {
            InspectViewMessage::Delete(addr) => next == self && requests == seq![InspectRequest::DeleteQueue(addr)],
            InspectViewMessage::MessageBodyChanged(s) => next == (InspectView { message_body: s, ..self })
                && requests.len() == 0,
            InspectViewMessage::SendMessage(queue) => next == self && requests == seq![InspectRequest::Publish {
                payload: self.message_body,
                queue: queue,
                ttl_secs: if self.ttl_permanent { None } else { Some(self.ttl_value as u64) },
            }],
            InspectViewMessage::Subscribe => next == self && requests == seq![
                InspectRequest::Subscribe(self.queue_selector.selected_filter_spec()),
                InspectRequest::GetSubscription,
            ],
            InspectViewMessage::ReceiveMessage => next == self && requests == seq![InspectRequest::Receive],
            InspectViewMessage::MessageReceived(m) => {
                &&& next.message_log@ == log_after(self.message_log@, self.received_message)
                &&& next == (InspectView { received_message: m, message_log: next.message_log, ..self })
                &&& requests.len() == 0
            },
            InspectViewMessage::NoMessageAvailable => {
                &&& next.received_message@ == "No message"@
                &&& next == (InspectView { received_message: next.received_message, ..self })
                &&& requests.len() == 0
            },
            InspectViewMessage::TTLValueChanged(val) => next == (InspectView { ttl_value: val, ..self })
                && requests.len() == 0,
            InspectViewMessage::TTLPermanentToggle(toggle) => next == (InspectView { ttl_permanent: toggle, ..self })
                && requests.len() == 0,
            InspectViewMessage::LoadBreakdown => next == self && requests == match self.queue_id {
                QueueId::Topic(name, _, _) => seq![InspectRequest::GetTopicBreakdown(name)],
                QueueId::Queue(_) => Seq::empty(),
            },
            InspectViewMessage::Selector(SelectorMessage::CreateSubtopic(s, ss)) => next == self && requests
                == match self.queue_id {
                QueueId::Topic(topic, _, _) => seq![InspectRequest::CreateSubtopic { topic: topic, subtopic: s, subsubtopic: ss }],
                QueueId::Queue(_) => Seq::empty(),
            },
            InspectViewMessage::Subscription(subscription) => next == (InspectView { subscription: subscription, ..self })
                && requests.len() == 0,
            InspectViewMessage::Selector(m) => {
                &&& self.queue_selector.update_rel(m, next.queue_selector)
                &&& next == (InspectView { queue_selector: next.queue_selector, ..self })
                &&& requests.len() == 0
            },
            InspectViewMessage::Deleted | InspectViewMessage::MessageSent | InspectViewMessage::SendFailure
            | InspectViewMessage::Subscribed | InspectViewMessage::SubtopicCreated => next == self && requests.len() == 0,
        }
    }

    /// A view of `queue_id` with its properties `props`, nothing written or received, a time to
    /// live of 50 seconds, no subscription and `queue_selector`.
    pub open spec fn is_fresh(self, queue_id: QueueId, props: QueueProperties, queue_selector: T) -> bool {
        &&& self.queue_id == queue_id
        &&& self.props == props
        &&& self.message_body@.len() == 0
        &&& self.received_message@.len() == 0
        &&& self.ttl_value == 50
        &&& !self.ttl_permanent
        &&& self.subscription is None
        &&& self.message_log@.len() == 0
        &&& self.queue_selector == queue_selector
    }

    /// A fresh view of `queue_id` (see `is_fresh`); returns the requests to load it with (see
    /// `load_requests`).
    pub fn new(queue_id: QueueId, props: QueueProperties, queue_selector: T) -> (r: (Self, Vec<InspectRequest>))
        ensures
            r.1@ == load_requests(queue_id),
            r.0.is_fresh(queue_id, props, queue_selector),
    {
        let requests = match &queue_id {
            QueueId::Topic(name, _, _) => requests(InspectRequest::GetSubscription, Some(InspectRequest::GetTopicBreakdown(name.clone()))),
            QueueId::Queue(_) => requests(InspectRequest::GetSubscription, None),
        };
        (
            Self {
                queue_id,
                props,
                message_body: String::new(),
                received_message: String::new(),
                ttl_value: 50,
                ttl_permanent: false,
                subscription: None,
                message_log: VecDeque::new(),
                queue_selector,
            },
            requests,
        )
    }

    /// Handles a message and returns the requests to send, in order (see `update_rel`).
    pub fn update(&mut self, message: InspectViewMessage) -> (requests: Vec<InspectRequest>)
        ensures
            old(self).update_rel(message, *final(self), requests@),
    {
        match message {
            InspectViewMessage::Delete(addr) => {
                return requests(InspectRequest::DeleteQueue(addr), None);
            },
            InspectViewMessage::MessageBodyChanged(s) => self.message_body = s,
            InspectViewMessage::SendMessage(queue) => {
                let ttl_secs = if self.ttl_permanent {
                    None
                } else {
                    Some(self.ttl_value as u64)
                };
                return requests(InspectRequest::Publish { payload: self.message_body.clone(), queue, ttl_secs }, None);
            },
            InspectViewMessage::MessageSent => {},
            InspectViewMessage::SendFailure => {},
            InspectViewMessage::Subscribe => {
                return requests(
                    InspectRequest::Subscribe(self.queue_selector.selected_filter()),
                    Some(InspectRequest::GetSubscription),
                );
            },
            InspectViewMessage::Subscribed => {},
            InspectViewMessage::ReceiveMessage => {
                return requests(InspectRequest::Receive, None);
            },
            InspectViewMessage::MessageReceived(m) => {
                self.message_log.push_front(self.received_message.clone());
                self.message_log.truncate(MESSAGE_LOG_LENGTH);
                assert(self.message_log@ =~= log_after(old(self).message_log@, old(self).received_message));
                self.received_message = m;
            },
            InspectViewMessage::NoMessageAvailable => self.received_message = "No message".to_owned(),
            InspectViewMessage::TTLValueChanged(val) => self.ttl_value = val,
            InspectViewMessage::TTLPermanentToggle(toggle) => self.ttl_permanent = toggle,
            InspectViewMessage::LoadBreakdown => {
                if let QueueId::Topic(topic_name, _, _) = &self.queue_id {
                    return requests(InspectRequest::GetTopicBreakdown(topic_name.clone()), None);
                }
            },
            InspectViewMessage::Selector(SelectorMessage::CreateSubtopic(s, ss)) => {
                if let QueueId::Topic(topic, _, _) = &self.queue_id {
                    return requests(InspectRequest::CreateSubtopic { topic: topic.clone(), subtopic: s, subsubtopic: ss }, None);
                }
            },
            InspectViewMessage::SubtopicCreated => {},
            InspectViewMessage::Deleted => {},
            InspectViewMessage::Subscription(subscription) => {
                self.subscription = subscription;
            },
            InspectViewMessage::Selector(m) => self.queue_selector.update(m),
        }
        Vec::new()
    }
}

/// How the current subscription relates to the inspected queue.
#[derive(Debug, PartialEq, Eq, Structural)]
pub enum SubscriptionStatus {
    NotSubscribed,
    /// Subscribed, but to another queue or topic.
    OtherQueue,
    /// Subscribed to this queue, or to a filter on this topic.
    ThisQueue,
}

/// What the inspection view shows: the queue's badges (system managed, dead letter exchange)
/// and its dead letter exchange (`None`: the system default), whether the queue may be deleted,
/// where a message would be sent (`None`: the selector holds a filter, so nothing can be sent),
/// how the subscription relates to the queue and the log of earlier received messages, newest
/// first.
pub struct InspectViewModel {
    pub is_system: bool,
    pub is_dlx: bool,
    pub dlx: Option<QueueId>,
    pub delete_enabled: bool,
    pub send_to: Option<QueueId>,
    pub subscription_status: SubscriptionStatus,
    pub log: Vec<String>,
}

/// How `subscription` relates to the queue `queue_id`: the same kind of queue under the same
/// name counts as this queue.
pub open spec fn subscription_status_of(subscription: Option<QueueFilter>, queue_id: QueueId) -> SubscriptionStatus {
    match subscription {
        None => SubscriptionStatus::NotSubscribed,
        Some(filter) => {
            let same = match (filter, queue_id) {
                (QueueFilter::Queue(a), QueueId::Queue(b)) => a@ == b@,
                (QueueFilter::Topic(a, _, _), QueueId::Topic(b, _, _)) => a@ == b@,
                _ => false,
            };
            if same { SubscriptionStatus::ThisQueue } else { SubscriptionStatus::OtherQueue }
        },
    }
}

/// A copy of the log, in the same order.
fn log_copy(log: &VecDeque<String>) -> (v: Vec<String>)
    ensures
        v@ == log@,
{
    let mut v: Vec<String> = Vec::new();
    let n = log.len();
    let mut i: usize = 0;
    while i < n
        invariant
            n == log@.len(),
            i <= n,
            v@ == log@.take(i as int),
        decreases n - i,
    {
        let s = log[i].clone();
        v.push(s);
        i = i + 1;
        assert(v@ =~= log@.take(i as int));
    }
    assert(log@.take(n as int) =~= log@);
    v
}

impl<T: QueueSelector> InspectView<T> {
    /// What the view shows; a queue that the system manages cannot be deleted.
    pub fn view_model(&self) -> (vm: InspectViewModel)
        ensures
            vm.is_system == self.props.is_system,
            vm.is_dlx == self.props.is_dlx,
            vm.dlx == self.props.dlx,
            vm.delete_enabled == !self.props.is_system,
            vm.send_to == self.queue_selector.selected_spec(),
            vm.subscription_status == subscription_status_of(self.subscription, self.queue_id),
            vm.log@ == self.message_log@,
    {
        let subscription_status = match &self.subscription {
            None => SubscriptionStatus::NotSubscribed,
            Some(filter) => {
                let same = match (filter, &self.queue_id) {
                    (QueueFilter::Queue(a), QueueId::Queue(b)) => *a == *b,
                    (QueueFilter::Topic(a, _, _), QueueId::Topic(b, _, _)) => *a == *b,
                    _ => false,
                };
                if same { SubscriptionStatus::ThisQueue } else { SubscriptionStatus::OtherQueue }
            },
        };
        let dlx = match &self.props.dlx {
            Some(q) => Some(copy_queue_id(q)),
            None => None,
        };
        InspectViewModel {
            is_system: self.props.is_system,
            is_dlx: self.props.is_dlx,
            dlx,
            delete_enabled: !self.props.is_system,
            send_to: self.queue_selector.selected(),
            subscription_status,
            log: log_copy(&self.message_log),
        }
    }
}

/// The log never holds more than `MESSAGE_LOG_LENGTH` messages, the newest first, and the ones
/// it keeps are the earlier log's first ones, in order.
pub proof fn lemma_log_after(log: Seq<String>, previous: String)
    ensures
        log_after(log, previous).len() <= MESSAGE_LOG_LENGTH,
        log_after(log, previous)[0] == previous,
        forall|i: int| 1 <= i < log_after(log, previous).len() ==> #[trigger] log_after(log, previous)[i] == log[i - 1],
{
}

} // verus!
