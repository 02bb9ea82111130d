use gameboy_emulator::admin::admin_view::{AdminRequest, AdminView, AdminViewMessage, Inspect, Message};
use gameboy_emulator::admin::connection_interface::ConnectionInterfaceMessage;
use gameboy_emulator::admin::direct_selector::DirectSelector;
use gameboy_emulator::admin::answer::{inspect_answer, queue_view_answer, Answer};
use gameboy_emulator::admin::inspect_view::{InspectRequest, InspectView, InspectViewMessage, QueueProperties, SubscriptionStatus};
use gameboy_emulator::admin::queue_selector::Message as SelectorMessage;
use gameboy_emulator::admin::queue_view::TopLevelQueueId;
use gameboy_emulator::admin::queue_selector::{QueueFilter, QueueId};
use gameboy_emulator::admin::queue_view::{QueueType, QueueView, QueueViewRequest, UIMessage};
use gameboy_emulator::admin::topic_breakdown::TopicLiteral;

fn queue(name: &str) -> QueueId {
    QueueId::Queue(name.to_string())
}

fn props(is_system: bool) -> QueueProperties {
    QueueProperties { is_system, is_dlx: true, dlx: Some(queue("dead")) }
}

#[test]
fn admin_view_starts_on_the_local_server() {
    let v = AdminView::default();
    assert!(matches!(v.inspect_view, Inspect::Closed));
    assert_eq!(v.connection_interface.entered_address, "127.0.0.1:1234");
    assert!(v.connection_interface.entered_address_valid);
    assert!(!v.connection_interface.connected);
    assert_eq!(v.buffer_view.selected_buffer_type, Some(QueueType::Queue));
}

#[test]
fn clicking_a_buffer_asks_for_its_properties() {
    let mut v = AdminView::default();
    let reqs = v.update_view_message(AdminViewMessage::InspectBuffer(queue("jobs")), true);
    assert_eq!(reqs.len(), 1);
    assert!(matches!(&reqs[0], AdminRequest::GetProperties(QueueId::Queue(n)) if n == "jobs"));
    assert!(matches!(v.inspect_view, Inspect::Closed));
}

#[test]
fn properties_open_a_direct_inspection() {
    let mut v = AdminView::default();
    let reqs = v.update_view_message(AdminViewMessage::InspectInfo(queue("jobs"), "jobs".to_string(), props(false)), true);
    assert_eq!(reqs.len(), 1);
    assert!(matches!(reqs[0], AdminRequest::Inspect(InspectRequest::GetSubscription)));
    match &v.inspect_view {
        Inspect::Direct(d) => {
            assert_eq!(d.title, "jobs");
            assert_eq!(d.body.ttl_value, 50);
            assert_eq!(d.body.queue_selector.name, "jobs");
            assert!(!d.body.props.is_system);
            assert!(d.body.props.is_dlx);
            assert!(matches!(&d.body.props.dlx, Some(QueueId::Queue(n)) if n == "dead"));
        }
        _ => panic!("a direct inspection was expected"),
    }
}

#[test]
fn properties_open_a_topic_inspection() {
    let mut v = AdminView::default();
    let id = QueueId::Topic("weather".to_string(), "europe".to_string(), "rain".to_string());
    let reqs = v.update_view_message(AdminViewMessage::InspectInfo(id, "weather.europe.rain".to_string(), props(true)), true);
    assert_eq!(reqs.len(), 2);
    assert!(matches!(reqs[0], AdminRequest::Inspect(InspectRequest::GetSubscription)));
    assert!(matches!(&reqs[1], AdminRequest::Inspect(InspectRequest::GetTopicBreakdown(n)) if n == "weather"));
    match &v.inspect_view {
        Inspect::Topic(d) => {
            assert_eq!(d.title, "weather.europe.rain");
            assert!(d.body.props.is_system);
            assert!(!d.body.view_model().delete_enabled);
        }
        _ => panic!("a topic inspection was expected"),
    }
}

#[test]
fn inspector_messages_reach_the_open_dialog() {
    let mut v = AdminView::default();
    let none = v.update_view_message(AdminViewMessage::Inspector(InspectViewMessage::ReceiveMessage), true);
    assert!(none.is_empty());
    v.update_view_message(AdminViewMessage::InspectInfo(queue("jobs"), "jobs".to_string(), props(false)), true);
    let reqs = v.update_view_message(AdminViewMessage::Inspector(InspectViewMessage::ReceiveMessage), true);
    assert_eq!(reqs.len(), 1);
    assert!(matches!(reqs[0], AdminRequest::Inspect(InspectRequest::Receive)));
    v.update_view_message(AdminViewMessage::Inspector(InspectViewMessage::TTLValueChanged(7)), true);
    match &v.inspect_view {
        Inspect::Direct(d) => assert_eq!(d.body.ttl_value, 7),
        _ => panic!("a direct inspection was expected"),
    }
    let closed = v.update_view_message(AdminViewMessage::CloseInspect, true);
    assert!(closed.is_empty());
    assert!(matches!(v.inspect_view, Inspect::Closed));
}

#[test]
fn buffer_view_messages_reach_the_overview() {
    let mut v = AdminView::default();
    let reqs = v.update_view_message(AdminViewMessage::BufferView(UIMessage::Refresh), true);
    assert_eq!(reqs.len(), 1);
    assert!(matches!(reqs[0], AdminRequest::Buffer(QueueViewRequest::ListQueues)));
    let none = v.update_view_message(AdminViewMessage::BufferView(UIMessage::NewQueueName("q".to_string())), true);
    assert!(none.is_empty());
    assert_eq!(v.buffer_view.new_queue_text, "q");
}

#[test]
fn reconnect_asks_to_connect_to_a_valid_address() {
    let mut v = AdminView::default();
    let reqs = v.update_view_message(AdminViewMessage::ConnectionUpdated(ConnectionInterfaceMessage::Reconnect), true);
    assert_eq!(reqs.len(), 1);
    assert!(matches!(&reqs[0], AdminRequest::ConnectTo(a) if a == "127.0.0.1:1234"));
    let none = v.update_view_message(
        AdminViewMessage::ConnectionUpdated(ConnectionInterfaceMessage::DesiredAddressChanged("nowhere".to_string())),
        false,
    );
    assert!(none.is_empty());
    let refused = v.update_view_message(AdminViewMessage::ConnectionUpdated(ConnectionInterfaceMessage::Reconnect), false);
    assert!(refused.is_empty());
}

#[test]
fn an_answer_marks_the_connection_up() {
    let mut v = AdminView::default();
    let reqs = v.update(Message::RequestSuccess(AdminViewMessage::CloseInspect), true);
    assert!(reqs.is_empty());
    assert!(v.connection_interface.connected);
    v.update(Message::View(AdminViewMessage::ConnectionUpdated(ConnectionInterfaceMessage::Connected(false))), true);
    assert!(!v.connection_interface.connected);
}

#[test]
fn map_task_turns_a_failure_into_a_lost_connection() {
    assert!(matches!(
        AdminView::map_task(Ok(AdminViewMessage::CloseInspect)),
        Message::RequestSuccess(AdminViewMessage::CloseInspect)
    ));
    assert!(matches!(
        AdminView::map_task(Err(())),
        Message::View(AdminViewMessage::ConnectionUpdated(ConnectionInterfaceMessage::Connected(false)))
    ));
}

#[test]
fn view_model_of_an_inspection() {
    let (mut iv, _) = InspectView::new(queue("jobs"), props(false), DirectSelector::new("jobs".to_string()));
    let vm = iv.view_model();
    assert!(vm.delete_enabled);
    assert!(!vm.is_system);
    assert!(vm.is_dlx);
    assert!(matches!(&vm.dlx, Some(QueueId::Queue(n)) if n == "dead"));
    assert!(matches!(vm.send_to, Some(QueueId::Queue(n)) if n == "jobs"));
    assert_eq!(vm.subscription_status, SubscriptionStatus::NotSubscribed);
    assert!(vm.log.is_empty());
    let (system, _) = InspectView::new(queue("jobs"), props(true), DirectSelector::new("jobs".to_string()));
    assert!(!system.view_model().delete_enabled);
    assert!(system.view_model().is_system);
    iv.update(InspectViewMessage::MessageReceived("a".to_string()));
    iv.update(InspectViewMessage::MessageReceived("b".to_string()));
    iv.update(InspectViewMessage::Subscription(Some(QueueFilter::Queue("jobs".to_string()))));
    let vm = iv.view_model();
    assert_eq!(vm.log, vec!["a".to_string(), "".to_string()]);
    assert_eq!(vm.subscription_status, SubscriptionStatus::ThisQueue);
    iv.update(InspectViewMessage::Subscription(Some(QueueFilter::Queue("other".to_string()))));
    assert_eq!(iv.view_model().subscription_status, SubscriptionStatus::OtherQueue);
    iv.update(InspectViewMessage::Subscription(Some(QueueFilter::Topic(
        "jobs".to_string(),
        TopicLiteral::Wildcard,
        TopicLiteral::Wildcard,
    ))));
    assert_eq!(iv.view_model().subscription_status, SubscriptionStatus::OtherQueue);
}

#[test]
fn placeholder_names_the_kind_of_queue() {
    let mut qv = QueueView::default();
    assert_eq!(qv.new_name_placeholder(), "New queue name");
    qv.update(UIMessage::SelectBufferType(QueueType::Topic));
    assert_eq!(qv.new_name_placeholder(), "New topic name");
}

#[test]
fn server_answers_become_inspection_messages() {
    assert!(matches!(inspect_answer(InspectRequest::Receive, Answer::Received(Some("hi".to_string()))),
        Some(InspectViewMessage::MessageReceived(p)) if p == "hi"));
    assert!(matches!(inspect_answer(InspectRequest::Receive, Answer::Received(None)),
        Some(InspectViewMessage::NoMessageAvailable)));
    let publish = || InspectRequest::Publish { payload: "x".to_string(), queue: queue("jobs"), ttl_secs: None };
    assert!(matches!(inspect_answer(publish(), Answer::Published(true)), Some(InspectViewMessage::MessageSent)));
    assert!(matches!(inspect_answer(publish(), Answer::Published(false)), Some(InspectViewMessage::SendFailure)));
    assert!(matches!(inspect_answer(InspectRequest::GetSubscription, Answer::Subscription(None)),
        Some(InspectViewMessage::Subscription(None))));
    assert!(matches!(
        inspect_answer(InspectRequest::GetTopicBreakdown("weather".to_string()), Answer::TopicBreakdown(Some(vec![]))),
        Some(InspectViewMessage::Selector(SelectorMessage::BreakdownLoaded(Some(d)))) if d.is_empty()
    ));
    assert!(matches!(inspect_answer(InspectRequest::DeleteQueue(queue("jobs")), Answer::Done), Some(InspectViewMessage::Deleted)));
    assert!(matches!(inspect_answer(InspectRequest::Subscribe(QueueFilter::Queue("jobs".to_string())), Answer::Done),
        Some(InspectViewMessage::Subscribed)));
    let create = InspectRequest::CreateSubtopic { topic: "w".to_string(), subtopic: "a".to_string(), subsubtopic: None };
    assert!(matches!(inspect_answer(create, Answer::Done), Some(InspectViewMessage::SubtopicCreated)));
    assert!(inspect_answer(InspectRequest::Receive, Answer::Done).is_none());
}

#[test]
fn server_answers_become_overview_messages() {
    let rows = vec![(TopLevelQueueId::Queue("jobs".to_string()), 1, 2)];
    assert!(matches!(queue_view_answer(QueueViewRequest::ListQueues, Answer::QueueList(rows)),
        Some(UIMessage::NewTableData(r)) if r.len() == 1 && r[0].1 == 1 && r[0].2 == 2));
    assert!(queue_view_answer(QueueViewRequest::ListQueues, Answer::Done).is_none());
}

#[test]
fn request_outcomes_become_admin_messages() {
    assert!(matches!(AdminView::answer_message(AdminRequest::GetProperties(queue("jobs")), None),
        Some(Message::View(AdminViewMessage::ConnectionUpdated(ConnectionInterfaceMessage::Connected(false))))));
    let m = AdminView::answer_message(
        AdminRequest::GetProperties(queue("jobs")),
        Some(Answer::Properties("jobs".to_string(), props(true))),
    );
    assert!(matches!(m, Some(Message::RequestSuccess(AdminViewMessage::InspectInfo(QueueId::Queue(n), t, p)))
        if n == "jobs" && t == "jobs" && p.is_system));
    assert!(matches!(AdminView::answer_message(AdminRequest::Inspect(InspectRequest::Receive), Some(Answer::Received(None))),
        Some(Message::RequestSuccess(AdminViewMessage::Inspector(InspectViewMessage::NoMessageAvailable)))));
    assert!(matches!(AdminView::answer_message(AdminRequest::Buffer(QueueViewRequest::ListQueues), Some(Answer::QueueList(vec![]))),
        Some(Message::RequestSuccess(AdminViewMessage::BufferView(UIMessage::NewTableData(_))))));
    assert!(matches!(AdminView::answer_message(AdminRequest::ConnectTo("127.0.0.1:1234".to_string()), Some(Answer::Connected(true))),
        Some(Message::View(AdminViewMessage::ConnectionUpdated(ConnectionInterfaceMessage::Connected(true))))));
    assert!(AdminView::answer_message(AdminRequest::ConnectTo("a".to_string()), Some(Answer::Done)).is_none());
}
