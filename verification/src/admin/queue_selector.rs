use vstd::prelude::*;
use crate::admin::topic_breakdown::{Message as BreakdownMessage, TopicLiteral};

verus! {

/// The address of a queue: a plain queue by name, or a topic with a subtopic and a
/// sub-subtopic.
#[derive(Debug)]
pub enum QueueId {
    Queue(String),
    Topic(String, String, String),
}

/// What a subscription listens to: a queue, or a topic with a filter on each level.
#[derive(Debug)]
pub enum QueueFilter {
    Queue(String),
    Topic(String, TopicLiteral, TopicLiteral),
}

/// What a queue selector reports.
#[derive(Debug)]
pub enum Message {
    /// The subtopic chosen for the filter changed.
    SubtopicCreateSelectionChanged0(TopicLiteral),
    /// The sub-subtopic chosen for the filter changed.
    SubtopicCreateSelectionChanged1(TopicLiteral),
    BreakdownMessage(BreakdownMessage),
    /// The server's breakdown of the topic: each subtopic with its sub-subtopics.
    BreakdownLoaded(Option<Vec<(String, Vec<String>)>>),
    CreateSubtopic(String, Option<String>),
}

/// A copy of a topic level.
pub fn copy_literal(l: &TopicLiteral) -> (r: TopicLiteral)
    ensures
        r == *l,
{
    match l {
        TopicLiteral::Name(s) => TopicLiteral::Name(s.clone()),
        TopicLiteral::Wildcard => TopicLiteral::Wildcard,
    }
}

/// The part of an inspection view that picks the queue to publish to and the filter to
/// subscribe with.
pub trait QueueSelector: Sized {
    /// Whether `next` is a state that `update` may leave after handling `message` in `self`.
    spec fn update_rel(self, message: Message, next: Self) -> bool;

    /// The queue to publish to, if one is fully chosen.
    spec fn selected_spec(self) -> Option<QueueId>;

    /// The filter to subscribe with.
    spec fn selected_filter_spec(self) -> QueueFilter;

    fn update(&mut self, message: Message)
        ensures
            old(self).update_rel(message, *final(self)),
    ;

    fn selected(&self) -> (r: Option<QueueId>)
        ensures
            r == self.selected_spec(),
    ;

    fn selected_filter(&self) -> (r: QueueFilter)
        ensures
            r == self.selected_filter_spec(),
    ;
}

} // verus!
