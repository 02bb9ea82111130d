use vstd::prelude::*;
use crate::admin::queue_selector::QueueId;

verus! {

/// A queue or a topic, by name, as the server lists them.
#[derive(Debug)]
pub enum TopLevelQueueId {
    Queue(String),
    Topic(String),
}

/// The kind of buffer to create.
#[derive(Debug, Clone, Copy, PartialEq, Eq, Structural)]
pub enum QueueType {
    Queue,
    Topic,
}

/// The address of a queue to create: a queue, or a topic with an optional subtopic (and
/// sub-subtopic).
#[derive(Debug)]
pub enum NewQueueId {
    Queue(String),
    Topic(String, Option<(String, Option<String>)>),
}

/// What the queue overview reacts to.
#[derive(Debug)]
pub enum UIMessage {
    Refresh,
    /// The server's list: each buffer with its subscriber and message counts.
    NewTableData(Vec<(TopLevelQueueId, usize, usize)>),
    NewQueueName(String),
    CreateQueue,
    SelectBufferType(QueueType),
    InspectBuffer(TopLevelQueueId),
    /// The dead letter exchange chosen for new queues; `None`: the system default.
    SetDLXChoice(Option<QueueId>),
    SetIsDLX(bool),
}

/// A request that the queue overview sends to the server.
#[derive(Debug)]
pub enum QueueViewRequest {
    /// List the buffers; the answer comes back as `NewTableData`.
    ListQueues,
    /// Create a buffer, then refresh the list.
    CreateQueue { queue_address: NewQueueId, is_dlx: bool, dlx: Option<QueueId> },
}

/// The overview of the server's buffers: the table rows, the form to create one (name, kind,
/// dead letter exchange and whether it is one) and the dead letter exchanges offered.
pub struct QueueView {
    pub table: Vec<(TopLevelQueueId, usize, usize)>,
    pub new_queue_text: String,
    pub selected_buffer_type: Option<QueueType>,
    pub dlx_options: Vec<Option<QueueId>>,
    pub current_dlx: Option<QueueId>,
    pub is_dlx: bool,
}

/// The dead letter exchanges offered for rows `rows`: the system default, then each plain queue
/// in order.
pub open spec fn dlx_options_for(rows: Seq<(TopLevelQueueId, usize, usize)>) -> Seq<Option<QueueId>>
    decreases rows.len(),
{
    if rows.len() == 0 {
        seq![None]
    } else {
        let rest = dlx_options_for(rows.drop_last());
        match rows.last().0 {
            TopLevelQueueId::Queue(name) => rest.push(Some(QueueId::Queue(name))),
            TopLevelQueueId::Topic(_) => rest,
        }
    }
}

/// A copy of a queue address.
pub fn copy_queue_id(q: &QueueId) -> (r: QueueId)
    ensures
        r == *q,
{
    match q {
        QueueId::Queue(s) => QueueId::Queue(s.clone()),
        QueueId::Topic(a, b, c) => QueueId::Topic(a.clone(), b.clone(), c.clone()),
    }
}

impl Default for QueueView {
    /// An empty table, no name typed, plain queues selected, the system default dead letter
    /// exchange and none offered.
    fn default() -> (v: Self)
        ensures
            v.table@.len() == 0,
            v.new_queue_text@.len() == 0,
            v.selected_buffer_type == Some(QueueType::Queue),
            v.dlx_options@.len() == 0,
            v.current_dlx is None,
            !v.is_dlx,
    {
        QueueView {
            table: Vec::new(),
            new_queue_text: String::new(),
            selected_buffer_type: Some(QueueType::Queue),
            dlx_options: Vec::new(),
            current_dlx: None,
            is_dlx: false,
        }
    }
}

impl QueueView {
    /// Whether `next` and `request` are the overview and the request after `update(message)`.
    pub open spec fn update_rel(self, message: UIMessage, next: Self, request: Option<QueueViewRequest>) -> bool {
        match message {
            UIMessage::Refresh => next == self && request == Some(QueueViewRequest::ListQueues),
            UIMessage::NewQueueName(s) => next == (QueueView { new_queue_text: s, ..self })
                && request is None,
            UIMessage::CreateQueue => next == self && request == match self.selected_buffer_type {
                Some(QueueType::Queue) => Some(QueueViewRequest::CreateQueue {
                    queue_address: NewQueueId::Queue(self.new_queue_text),
                    is_dlx: self.is_dlx,
                    dlx: self.current_dlx,
                }),
                Some(QueueType::Topic) => Some(QueueViewRequest::CreateQueue {
                    queue_address: NewQueueId::Topic(self.new_queue_text, None),
                    is_dlx: self.is_dlx,
                    dlx: self.current_dlx,
                }),
                None => None,
            },
            UIMessage::SelectBufferType(t) => next == (QueueView { selected_buffer_type: Some(t), ..self })
                && request is None,
            UIMessage::InspectBuffer(_) => next == self && request is None,
            UIMessage::NewTableData(data) => {
                &&& next.table@ == data@
                &&& next.dlx_options@ == dlx_options_for(data@)
                &&& next.new_queue_text == self.new_queue_text
                &&& next.selected_buffer_type == self.selected_buffer_type
                &&& next.current_dlx == self.current_dlx
                &&& next.is_dlx == self.is_dlx
                &&& request is None
            },
            UIMessage::SetDLXChoice(choice) => next == (QueueView { current_dlx: choice, ..self })
                && request is None,
            UIMessage::SetIsDLX(toggle) => next == (QueueView { is_dlx: toggle, ..self })
                && request is None,
        }
    }

    /// The hint in the empty name field: it names the kind of queue that would be created.
    pub fn new_name_placeholder(&self) -> (s: String)
        ensures
            s@ == (if self.selected_buffer_type == Some(QueueType::Topic) {
                "New topic name"@
            } else {
                "New queue name"@
            }),
    {
        match self.selected_buffer_type {
            Some(QueueType::Topic) => "New topic name".to_owned(),
            _ => "New queue name".to_owned(),
        }
    }

    /// Handles a message and returns the request to send, if any.
    pub fn update(&mut self, message: UIMessage) -> (request: Option<QueueViewRequest>)
        ensures
            old(self).update_rel(message, *final(self), request),
    {
        match message {
            UIMessage::Refresh => {
                return Some(QueueViewRequest::ListQueues);
            },
            UIMessage::NewQueueName(s) => {
                self.new_queue_text = s;
            },
            UIMessage::CreateQueue => match self.selected_buffer_type {
                Some(queue_type) => {
                    let dlx = match &self.current_dlx {
                        Some(q) => Some(copy_queue_id(q)),
                        None => None,
                    };
                    return Some(QueueViewRequest::CreateQueue {
                        queue_address: match queue_type {
                            QueueType::Queue => NewQueueId::Queue(self.new_queue_text.clone()),
                            QueueType::Topic => NewQueueId::Topic(self.new_queue_text.clone(), None),
                        },
                        is_dlx: self.is_dlx,
                        dlx,
                    });
                },
                None => {},
            },
            UIMessage::SelectBufferType(t) => {
                self.selected_buffer_type = Some(t);
            },
            UIMessage::InspectBuffer(_) => {},
            UIMessage::NewTableData(data) => {
                let mut options: Vec<Option<QueueId>> = Vec::new();
                options.push(None);
                self.table.clear();
                let mut data = data;
                let ghost d0 = data@;
                while data.len() > 0
                    invariant
                        self.table@.len() + data@.len() == d0.len(),
                        data@ == d0.skip(self.table@.len() as int),
                        self.table@ == d0.take(self.table@.len() as int),
                        options@ == dlx_options_for(self.table@),
                        self.new_queue_text == old(self).new_queue_text,
                        self.selected_buffer_type == old(self).selected_buffer_type,
                        self.current_dlx == old(self).current_dlx,
                        self.is_dlx == old(self).is_dlx,
                    decreases data.len(),
                {
                    let ghost n: int = self.table@.len() as int;
                    let queue_data = data.remove(0);
                    if let TopLevelQueueId::Queue(name) = &queue_data.0 {
                        options.push(Some(QueueId::Queue(name.clone())));
                    }
                    self.table.push(queue_data);
                    assert(data@ =~= d0.skip(n + 1));
                    assert(d0.take(n + 1) =~= d0.take(n).push(d0[n]));
                    assert(self.table@.drop_last() =~= d0.take(n));
                }
                assert(d0.take(d0.len() as int) =~= d0);
                self.dlx_options = options;
            },
            UIMessage::SetDLXChoice(choice) => self.current_dlx = choice,
            UIMessage::SetIsDLX(toggle) => self.is_dlx = toggle,
        }
        None
    }
}

} // verus!
