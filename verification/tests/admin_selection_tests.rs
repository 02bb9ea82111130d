use gameboy_emulator::admin::direct_selector::DirectSelector;
use gameboy_emulator::admin::inspect_view::{InspectRequest, InspectView, InspectViewMessage, QueueProperties};
use gameboy_emulator::admin::queue_selector::{Message, QueueFilter, QueueId, QueueSelector};
use gameboy_emulator::admin::queue_view::{NewQueueId, QueueType, QueueView, QueueViewRequest, TopLevelQueueId, UIMessage};
use gameboy_emulator::admin::topic_breakdown::{Message as BreakdownMessage, TopicLiteral};
use gameboy_emulator::admin::topic_selector::TopicSelector;

fn name(t: &TopicLiteral) -> Option<String> {
    match t {
        TopicLiteral::Name(s) => Some(s.clone()),
        TopicLiteral::Wildcard => None,
    }
}

fn plain_props() -> QueueProperties {
    QueueProperties { is_system: false, is_dlx: false, dlx: None }
}

fn loaded_selector() -> TopicSelector {
    let mut ts = TopicSelector::new("weather".to_string());
    ts.update(Message::BreakdownLoaded(Some(vec![
        ("europe".to_string(), vec!["rain".to_string(), "sun".to_string()]),
        ("asia".to_string(), vec!["sun".to_string()]),
    ])));
    ts
}

#[test]
fn direct_selector_selects_its_queue() {
    let mut d = DirectSelector::new("jobs".to_string());
    d.update(Message::CreateSubtopic("x".to_string(), None));
    assert!(matches!(d.selected(), Some(QueueId::Queue(n)) if n == "jobs"));
    assert!(matches!(d.selected_filter(), QueueFilter::Queue(n) if n == "jobs"));
}

#[test]
fn loaded_breakdown_offers_the_subtopics() {
    let ts = loaded_selector();
    let first: Vec<Option<String>> = ts.new_filter_options.0.iter().map(name).collect();
    assert_eq!(first, vec![None, Some("europe".to_string()), Some("asia".to_string())]);
    assert_eq!(ts.new_filter_options.1.len(), 1);
    assert!(matches!(ts.new_filter_options.1[0], TopicLiteral::Wildcard));
    assert_eq!(ts.breakdown_view.sub_breakdown_views.len(), 2);
    assert_eq!(ts.breakdown_view.breakdown_view.title, "Breakdown");
}

#[test]
fn choosing_a_subtopic_offers_its_subsubtopics() {
    let mut ts = loaded_selector();
    ts.update(Message::SubtopicCreateSelectionChanged0(TopicLiteral::Name("europe".to_string())));
    assert!(matches!(ts.new_filter_options.1[0], TopicLiteral::Wildcard));
    let mut rest: Vec<String> = ts.new_filter_options.1[1..].iter().map(|t| name(t).unwrap()).collect();
    rest.sort();
    assert_eq!(rest, vec!["rain".to_string(), "sun".to_string()]);
    assert!(ts.selected().is_none());
    assert!(matches!(ts.selected_filter(), QueueFilter::Topic(n, TopicLiteral::Name(a), TopicLiteral::Wildcard) if n == "weather" && a == "europe"));
    ts.update(Message::SubtopicCreateSelectionChanged1(TopicLiteral::Name("rain".to_string())));
    assert!(matches!(ts.selected(), Some(QueueId::Topic(n, a, b)) if n == "weather" && a == "europe" && b == "rain"));
    // The wildcard for every subtopic: each sub-subtopic once.
    ts.update(Message::SubtopicCreateSelectionChanged0(TopicLiteral::Wildcard));
    assert_eq!(ts.new_filter_options.1.len(), 3);
    assert!(ts.new_filter_selection.1.is_none());
    ts.update(Message::BreakdownMessage(BreakdownMessage::ToggleBreakdown(None)));
    assert!(ts.breakdown_view.breakdown_view.is_expanded);
}

#[test]
fn inspect_view_of_a_topic_loads_its_breakdown() {
    let (_, requests) = InspectView::new(
        QueueId::Topic("weather".to_string(), "europe".to_string(), "rain".to_string()),
        plain_props(),
        TopicSelector::new("weather".to_string()),
    );
    assert_eq!(requests.len(), 2);
    assert!(matches!(requests[0], InspectRequest::GetSubscription));
    assert!(matches!(&requests[1], InspectRequest::GetTopicBreakdown(n) if n == "weather"));
    let (view, requests) = InspectView::new(QueueId::Queue("jobs".to_string()), plain_props(), DirectSelector::new("jobs".to_string()));
    assert_eq!(requests.len(), 1);
    assert_eq!(view.ttl_value, 50);
    assert!(!view.ttl_permanent);
}

#[test]
fn inspect_view_publishes_with_the_chosen_ttl() {
    let (mut view, _) = InspectView::new(QueueId::Queue("jobs".to_string()), plain_props(), DirectSelector::new("jobs".to_string()));
    assert!(view.update(InspectViewMessage::MessageBodyChanged("hello".to_string())).is_empty());
    view.update(InspectViewMessage::TTLValueChanged(120));
    let r = view.update(InspectViewMessage::SendMessage(QueueId::Queue("jobs".to_string())));
    assert!(matches!(&r[0], InspectRequest::Publish { payload, queue: QueueId::Queue(q), ttl_secs: Some(120) } if payload == "hello" && q == "jobs"));
    view.update(InspectViewMessage::TTLPermanentToggle(true));
    let r = view.update(InspectViewMessage::SendMessage(QueueId::Queue("jobs".to_string())));
    assert!(matches!(&r[0], InspectRequest::Publish { ttl_secs: None, .. }));
    let r = view.update(InspectViewMessage::Subscribe);
    assert_eq!(r.len(), 2);
    assert!(matches!(&r[0], InspectRequest::Subscribe(QueueFilter::Queue(q)) if q == "jobs"));
    assert!(matches!(r[1], InspectRequest::GetSubscription));
    // A plain queue has no breakdown and no subtopics.
    assert!(view.update(InspectViewMessage::LoadBreakdown).is_empty());
    assert!(view.update(InspectViewMessage::Selector(Message::CreateSubtopic("a".to_string(), None))).is_empty());
    let r = view.update(InspectViewMessage::Delete(QueueId::Queue("jobs".to_string())));
    assert!(matches!(&r[0], InspectRequest::DeleteQueue(QueueId::Queue(q)) if q == "jobs"));
}

#[test]
fn message_log_keeps_the_five_latest() {
    let (mut view, _) = InspectView::new(QueueId::Queue("jobs".to_string()), plain_props(), DirectSelector::new("jobs".to_string()));
    for i in 0..8 {
        view.update(InspectViewMessage::MessageReceived(format!("m{}", i)));
    }
    assert_eq!(view.received_message, "m7");
    let log: Vec<String> = view.message_log.iter().cloned().collect();
    assert_eq!(log, vec!["m6", "m5", "m4", "m3", "m2"]);
    view.update(InspectViewMessage::NoMessageAvailable);
    assert_eq!(view.received_message, "No message");
    assert_eq!(view.message_log.len(), 5);
}

#[test]
fn topic_inspect_view_creates_subtopics() {
    let (mut view, _) = InspectView::new(
        QueueId::Topic("weather".to_string(), "europe".to_string(), "rain".to_string()),
        plain_props(),
        TopicSelector::new("weather".to_string()),
    );
    let r = view.update(InspectViewMessage::Selector(Message::CreateSubtopic("asia".to_string(), Some("wind".to_string()))));
    assert!(matches!(&r[0], InspectRequest::CreateSubtopic { topic, subtopic, subsubtopic: Some(ss) } if topic == "weather" && subtopic == "asia" && ss == "wind"));
    let r = view.update(InspectViewMessage::LoadBreakdown);
    assert!(matches!(&r[0], InspectRequest::GetTopicBreakdown(n) if n == "weather"));
    view.update(InspectViewMessage::Subscription(Some(QueueFilter::Queue("x".to_string()))));
    assert!(view.subscription.is_some());
}

#[test]
fn queue_view_offers_plain_queues_as_dead_letter_exchanges() {
    let mut qv = QueueView::default();
    assert!(matches!(qv.update(UIMessage::Refresh), Some(QueueViewRequest::ListQueues)));
    let r = qv.update(UIMessage::NewTableData(vec![
        (TopLevelQueueId::Queue("jobs".to_string()), 2, 10),
        (TopLevelQueueId::Topic("weather".to_string()), 1, 0),
        (TopLevelQueueId::Queue("dead".to_string()), 0, 3),
    ]));
    assert!(r.is_none());
    assert_eq!(qv.table.len(), 3);
    assert_eq!(qv.dlx_options.len(), 3);
    assert!(qv.dlx_options[0].is_none());
    assert!(matches!(&qv.dlx_options[1], Some(QueueId::Queue(n)) if n == "jobs"));
    assert!(matches!(&qv.dlx_options[2], Some(QueueId::Queue(n)) if n == "dead"));
}

#[test]
fn queue_view_creates_the_typed_buffer() {
    let mut qv = QueueView::default();
    qv.update(UIMessage::NewQueueName("orders".to_string()));
    qv.update(UIMessage::SetIsDLX(true));
    qv.update(UIMessage::SetDLXChoice(Some(QueueId::Queue("dead".to_string()))));
    let r = qv.update(UIMessage::CreateQueue);
    assert!(matches!(&r, Some(QueueViewRequest::CreateQueue { queue_address: NewQueueId::Queue(n), is_dlx: true, dlx: Some(QueueId::Queue(d)) }) if n == "orders" && d == "dead"));
    qv.update(UIMessage::SelectBufferType(QueueType::Topic));
    let r = qv.update(UIMessage::CreateQueue);
    assert!(matches!(&r, Some(QueueViewRequest::CreateQueue { queue_address: NewQueueId::Topic(n, None), .. }) if n == "orders"));
}
