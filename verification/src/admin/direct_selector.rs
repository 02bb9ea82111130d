use vstd::prelude::*;
use crate::admin::queue_selector::{Message, QueueFilter, QueueId, QueueSelector};

verus! {

/// Selects one queue, by name.
pub struct DirectSelector {
    pub name: String,
}

impl DirectSelector {
    /// Selects the queue `name`.
    pub fn new(name: String) -> (s: Self)
        ensures
            s.name == name,
    {
        Self { name }
    }
}

impl QueueSelector for DirectSelector {
    /// Nothing to choose: every message leaves the selector as it is.
    open spec fn update_rel(self, message: Message, next: Self) -> bool {
        next == self
    }

    open spec fn selected_spec(self) -> Option<QueueId> {
        Some(QueueId::Queue(self.name))
    }

    open spec fn selected_filter_spec(self) -> QueueFilter {
        QueueFilter::Queue(self.name)
    }

    fn update(&mut self, _message: Message) {
    }

    fn selected(&self) -> (r: Option<QueueId>) {
        Some(QueueId::Queue(self.name.clone()))
    }

    fn selected_filter(&self) -> (r: QueueFilter) {
        QueueFilter::Queue(self.name.clone())
    }
}

} // verus!
