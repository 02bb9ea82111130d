use vstd::prelude::*;
use crate::admin::answer::{inspect_answer, inspect_answer_spec, queue_view_answer, queue_view_answer_spec, Answer};
use crate::admin::connection_interface::{ConnectionInterface, ConnectionInterfaceMessage};
use crate::admin::direct_selector::DirectSelector;
use crate::admin::inspect_view::{load_requests, InspectRequest, InspectView, InspectViewMessage, QueueProperties};
use crate::admin::overlay_dialog::OverlayDialog;
use crate::admin::queue_selector::QueueId;
use crate::admin::queue_view::{QueueType, QueueView, QueueViewRequest, UIMessage};
use crate::admin::topic_selector::TopicSelector;

verus! {

/// What the administration view reacts to.
#[derive(Debug)]
pub enum AdminViewMessage {
    /// A buffer was clicked: ask for its properties.
    InspectBuffer(QueueId),
    /// The properties of a queue arrived: open its inspection view, titled with the queue's
    /// address as text, and keeping the properties.
    InspectInfo(QueueId, String, QueueProperties),
    CloseInspect,
    BufferView(UIMessage),
    Inspector(InspectViewMessage),
    ConnectionUpdated(ConnectionInterfaceMessage),
}

/// A message of the view, or the answer to a request that reached the server.
#[derive(Debug)]
pub enum Message {
    View(AdminViewMessage),
    RequestSuccess(AdminViewMessage),
}

/// A request that the administration view sends.
#[derive(Debug)]
pub enum AdminRequest {
    Buffer(QueueViewRequest),
    Inspect(InspectRequest),
    GetProperties(QueueId),
    /// Connect to the server at this address.
    ConnectTo(String),
}

/// The inspection dialog that is open, if any: for a plain queue or for a topic.
pub enum Inspect {
    Closed,
    Direct(OverlayDialog<InspectView<DirectSelector>>),
    Topic(OverlayDialog<InspectView<TopicSelector>>),
}

impl Inspect {
    /// Takes the dialog out, leaving none open.
    pub fn take(&mut self) -> (r: Self)
        ensures
            r == *old(self),
            *final(self) is Closed,
    {
        let mut r = Inspect::Closed;
        std::mem::swap(&mut r, self);
        r
    }
}

/// The administration view: the queue overview, the open inspection dialog and the connection
/// widget.
pub struct AdminView {
    pub buffer_view: QueueView,
    pub inspect_view: Inspect,
    pub connection_interface: ConnectionInterface,
}

impl Default for AdminView {
    /// An empty overview, no dialog open, and the local server address 127.0.0.1:1234 typed in
    /// (a valid socket address), not connected yet.
    fn default() -> (v: Self)
        ensures
            v.buffer_view.table@.len() == 0,
            v.buffer_view.new_queue_text@.len() == 0,
            v.buffer_view.selected_buffer_type == Some(QueueType::Queue),
            v.buffer_view.dlx_options@.len() == 0,
            v.buffer_view.current_dlx is None,
            !v.buffer_view.is_dlx,
            v.inspect_view is Closed,
            v.connection_interface.entered_address@ == "127.0.0.1:1234"@,
            v.connection_interface.entered_address_valid,
            !v.connection_interface.connected,
    {
        AdminView {
            buffer_view: QueueView::default(),
            inspect_view: Inspect::Closed,
            connection_interface: ConnectionInterface::new("127.0.0.1:1234".to_owned(), true),
        }
    }
}

/// The inspection requests of `reqs`, if every one is an inspection request.
pub open spec fn inspect_requests_of(reqs: Seq<AdminRequest>) -> Seq<InspectRequest> {
    reqs.map_values(|r: AdminRequest| r->Inspect_0)
}

/// Every request of `reqs` is an inspection request.
pub open spec fn all_inspect(reqs: Seq<AdminRequest>) -> bool {
    forall|i: int| 0 <= i < reqs.len() ==> #[trigger] reqs[i] is Inspect
}

/// The one request of `reqs`, if there is one.
pub open spec fn single(reqs: Seq<AdminRequest>) -> Option<AdminRequest> {
    if reqs.len() == 0 { None } else { Some(reqs[0]) }
}

/// Inspection requests wrapped as requests of the administration view, in order.
fn inspect_requests(rs: Vec<InspectRequest>) -> (v: Vec<AdminRequest>)
    ensures
        v@ == rs@.map_values(|r: InspectRequest| AdminRequest::Inspect(r)),
{
    let mut rs = rs;
    let ghost r0 = rs@;
    let mut v: Vec<AdminRequest> = Vec::new();
    while rs.len() > 0
        invariant
            v@.len() + rs@.len() == r0.len(),
            rs@ == r0.skip(v@.len() as int),
            v@ == r0.take(v@.len() as int).map_values(|r: InspectRequest| AdminRequest::Inspect(r)),
        decreases rs.len(),
    {
        let ghost n: int = v@.len() as int;
        let r = rs.remove(0);
        v.push(AdminRequest::Inspect(r));
        assert(rs@ =~= r0.skip(n + 1));
        assert(r0.take(n + 1) =~= r0.take(n).push(r0[n]));
        assert(v@ =~= r0.take(n + 1).map_values(|r: InspectRequest| AdminRequest::Inspect(r)));
    }
    assert(r0.take(r0.len() as int) =~= r0);
    v
}

/// No request, or the one given.
fn at_most_one(r: Option<AdminRequest>) -> (v: Vec<AdminRequest>)
    ensures
        v@ == match r {
            None => Seq::<AdminRequest>::empty(),
            Some(x) => seq![x],
        },
{
    let mut v = Vec::new();
    if let Some(x) = r {
        v.push(x);
    }
    v
}

impl AdminView {
    /// Whether `next` and `reqs` are the view and the requests after
    /// `update_view_message(message, address_valid)`.
    pub open spec fn update_rel(self, message: AdminViewMessage, address_valid: bool, next: Self, reqs: Seq<AdminRequest>) -> bool {
        match message {
            AdminViewMessage::InspectBuffer(address) => next == self && reqs == seq![AdminRequest::GetProperties(address)],
            AdminViewMessage::InspectInfo(address, title, props) => {
                &&& next.buffer_view == self.buffer_view
                &&& next.connection_interface == self.connection_interface
                &&& reqs == load_requests(address).map_values(|r: InspectRequest| AdminRequest::Inspect(r))
                &&& match address {
                    QueueId::Queue(name) => next.inspect_view matches Inspect::Direct(d) && d.title == title
                        && d.body.is_fresh(address, props, DirectSelector { name: name }),
                    QueueId::Topic(name, _, _) => next.inspect_view matches Inspect::Topic(d) && d.title == title
                        && d.body.is_fresh(address, props, d.body.queue_selector) && d.body.queue_selector.is_fresh(name),
                }
            },
            AdminViewMessage::CloseInspect => next == (AdminView { inspect_view: Inspect::Closed, ..self }) && reqs.len() == 0,
            AdminViewMessage::BufferView(m) => {
                &&& next == (AdminView { buffer_view: next.buffer_view, ..self })
                &&& reqs.len() <= 1
                &&& (reqs.len() == 1 ==> reqs[0] is Buffer)
                &&& self.buffer_view.update_rel(m, next.buffer_view, match single(reqs) {
                    Some(r) => Some(r->Buffer_0),
                    None => None,
                })
            },
            AdminViewMessage::Inspector(m) => match self.inspect_view {
                Inspect::Closed => next == self && reqs.len() == 0,
                Inspect::Direct(d) => {
                    &&& next == (AdminView { inspect_view: next.inspect_view, ..self })
                    &&& next.inspect_view matches Inspect::Direct(nd) && nd.title == d.title
                        && d.body.update_rel(m, nd.body, inspect_requests_of(reqs))
                    &&& all_inspect(reqs)
                },
                Inspect::Topic(d) => {
                    &&& next == (AdminView { inspect_view: next.inspect_view, ..self })
                    &&& next.inspect_view matches Inspect::Topic(nd) && nd.title == d.title
                        && d.body.update_rel(m, nd.body, inspect_requests_of(reqs))
                    &&& all_inspect(reqs)
                },
            },
            AdminViewMessage::ConnectionUpdated(m) => {
                &&& next == (AdminView { connection_interface: next.connection_interface, ..self })
                &&& reqs.len() <= 1
                &&& (reqs.len() == 1 ==> reqs[0] is ConnectTo)
                &&& self.connection_interface.update_rel(m, address_valid, next.connection_interface, match single(reqs) {
                    Some(r) => Some(r->ConnectTo_0),
                    None => None,
                })
            },
        }
    }

    /// Handles a message of the view (see `update_rel`); `address_valid` says whether the address
    /// that a `DesiredAddressChanged` carries parses as a socket address.
    pub fn update_view_message(&mut self, message: AdminViewMessage, address_valid: bool) -> (reqs: Vec<AdminRequest>)
        ensures
            old(self).update_rel(message, address_valid, *final(self), reqs@),
    {
        match message {
            AdminViewMessage::BufferView(m) => {
                let r = self.buffer_view.update(m);
                match r {
                    Some(x) => at_most_one(Some(AdminRequest::Buffer(x))),
                    None => at_most_one(None),
                }
            },
            AdminViewMessage::Inspector(m) => {
                let iv = self.inspect_view.take();
                match iv {
                    Inspect::Closed => Vec::new(),
                    Inspect::Direct(mut d) => {
                        let rs = d.body.update(m);
                        self.inspect_view = Inspect::Direct(d);
                        let v = inspect_requests(rs);
                        assert(inspect_requests_of(v@) =~= rs@);
                        v
                    },
                    Inspect::Topic(mut d) => {
                        let rs = d.body.update(m);
                        self.inspect_view = Inspect::Topic(d);
                        let v = inspect_requests(rs);
                        assert(inspect_requests_of(v@) =~= rs@);
                        v
                    },
                }
            },
            AdminViewMessage::InspectBuffer(address) => at_most_one(Some(AdminRequest::GetProperties(address))),
            AdminViewMessage::InspectInfo(address, title, props) => {
                match address {
                    QueueId::Queue(name) => {
                        let selector = DirectSelector::new(name.clone());
                        let (view, load) = InspectView::new(QueueId::Queue(name), props, selector);
                        self.inspect_view = Inspect::Direct(OverlayDialog::new(title, view));
                        inspect_requests(load)
                    },
                    QueueId::Topic(name, sub, subsub) => {
                        let selector = TopicSelector::new(name.clone());
                        let (view, load) = InspectView::new(QueueId::Topic(name, sub, subsub), props, selector);
                        self.inspect_view = Inspect::Topic(OverlayDialog::new(title, view));
                        inspect_requests(load)
                    },
                }
            },
            AdminViewMessage::ConnectionUpdated(m) => {
                let r = self.connection_interface.update(m, address_valid);
                match r {
                    Some(a) => at_most_one(Some(AdminRequest::ConnectTo(a))),
                    None => at_most_one(None),
                }
            },
            AdminViewMessage::CloseInspect => {
                match self.inspect_view.take() {
                    Inspect::Direct(inspect_view) => {
                        inspect_view.close();
                    },
                    Inspect::Topic(inspect_view) => {
                        inspect_view.close();
                    },
                    Inspect::Closed => {},
                }
                self.inspect_view = Inspect::Closed;
                Vec::new()
            },
        }
    }

    /// Handles a message; an answer from the server first marks the connection as up.
    pub fn update(&mut self, message: Message, address_valid: bool) -> (reqs: Vec<AdminRequest>)
        ensures
            match message {
                Message::View(m) => old(self).update_rel(m, address_valid, *final(self), reqs@),
                Message::RequestSuccess(m) => (AdminView {
                    connection_interface: ConnectionInterface { connected: true, ..old(self).connection_interface },
                    ..*old(self)
                }).update_rel(m, address_valid, *final(self), reqs@),
            },
    {
        match message {
            Message::View(msg) => self.update_view_message(msg, address_valid),
            Message::RequestSuccess(msg) => {
                self.connection_interface.set_connected(true);
                self.update_view_message(msg, address_valid)
            },
        }
    }

    /// The message for the outcome of `request`: `None` as the outcome means the server could not
    /// be reached, which marks the connection as down. An answer to an overview, inspection or
    /// properties request comes back as a success carrying the message its view gets; an answer
    /// to a connection attempt sets the connection state. `None` when the answer is not of the
    /// kind the request asks for.
    pub open spec fn answer_message_spec(request: AdminRequest, outcome: Option<Answer>) -> Option<Message> {
        match outcome {
            None => Some(Message::View(AdminViewMessage::ConnectionUpdated(ConnectionInterfaceMessage::Connected(false)))),
            Some(answer) => match (request, answer) {
                (AdminRequest::Buffer(r), a) => match queue_view_answer_spec(r, a) {
                    Some(m) => Some(Message::RequestSuccess(AdminViewMessage::BufferView(m))),
                    None => None,
                },
                (AdminRequest::Inspect(r), a) => match inspect_answer_spec(r, a) {
                    Some(m) => Some(Message::RequestSuccess(AdminViewMessage::Inspector(m))),
                    None => None,
                },
                (AdminRequest::GetProperties(id), Answer::Properties(title, props)) => Some(
                    Message::RequestSuccess(AdminViewMessage::InspectInfo(id, title, props)),
                ),
                (AdminRequest::ConnectTo(_), Answer::Connected(ok)) => Some(
                    Message::View(AdminViewMessage::ConnectionUpdated(ConnectionInterfaceMessage::Connected(ok))),
                ),
                _ => None,
            },
        }
    }

    /// The message for the outcome of `request` (see `answer_message_spec`).
    pub fn answer_message(request: AdminRequest, outcome: Option<Answer>) -> (m: Option<Message>)
        ensures
            m == Self::answer_message_spec(request, outcome),
    {
        match outcome {
            None => Some(Message::View(AdminViewMessage::ConnectionUpdated(ConnectionInterfaceMessage::Connected(false)))),
            Some(answer) => match request {
                AdminRequest::Buffer(r) => match queue_view_answer(r, answer) {
                    Some(m) => Some(Message::RequestSuccess(AdminViewMessage::BufferView(m))),
                    None => None,
                },
                AdminRequest::Inspect(r) => match inspect_answer(r, answer) {
                    Some(m) => Some(Message::RequestSuccess(AdminViewMessage::Inspector(m))),
                    None => None,
                },
                AdminRequest::GetProperties(id) => match answer {
                    Answer::Properties(title, props) => Some(
                        Message::RequestSuccess(AdminViewMessage::InspectInfo(id, title, props)),
                    ),
                    _ => None,
                },
                AdminRequest::ConnectTo(_) => match answer {
                    Answer::Connected(ok) => Some(
                        Message::View(AdminViewMessage::ConnectionUpdated(ConnectionInterfaceMessage::Connected(ok))),
                    ),
                    _ => None,
                },
            },
        }
    }

    /// The message for the outcome of a request: its answer as a success, or a failed connection.
    pub fn map_task(msg: Result<AdminViewMessage, ()>) -> (m: Message)
        ensures
            m == match msg {
                Ok(a) => Message::RequestSuccess(a),
                Err(_) => Message::View(AdminViewMessage::ConnectionUpdated(ConnectionInterfaceMessage::Connected(false))),
            },
    {
        match msg {
            Ok(msg) => Message::RequestSuccess(msg),
            Err(_) => Message::View(AdminViewMessage::ConnectionUpdated(ConnectionInterfaceMessage::Connected(false))),
        }
    }
}

} // verus!
