use gameboy_emulator::admin::collapsible::Collapsible;
use gameboy_emulator::admin::connection_interface::{ConnectionInterface, ConnectionInterfaceMessage};
use gameboy_emulator::admin::direct_selector::DirectSelector;
use gameboy_emulator::admin::overlay_dialog::OverlayDialog;
use gameboy_emulator::admin::topic_breakdown::{Message, TopicBreakdown, TopicLiteral};
use gameboy_emulator::admin::warning::Warning;

fn name(t: &TopicLiteral) -> String {
    match t {
        TopicLiteral::Name(s) => s.clone(),
        TopicLiteral::Wildcard => panic!("a name was expected"),
    }
}

#[test]
fn collapsible_toggles_back_and_forth() {
    let mut c = Collapsible::new("Queues".to_string(), false);
    c.toggle();
    assert!(c.is_expanded);
    c.toggle();
    assert!(!c.is_expanded);
    assert_eq!(c.title, "Queues");
}

#[test]
fn connection_interface_follows_the_typed_address() {
    let mut ci = ConnectionInterface::new("127.0.0.1:1234".to_string(), true);
    assert!(!ci.connected);
    assert_eq!(ci.update(ConnectionInterfaceMessage::Connected(true), false), None);
    assert!(ci.connected);
    assert_eq!(
        ci.update(ConnectionInterfaceMessage::Reconnect, false),
        Some("127.0.0.1:1234".to_string())
    );
    assert_eq!(ci.update(ConnectionInterfaceMessage::DesiredAddressChanged("nowhere".to_string()), false), None);
    assert!(!ci.connected);
    assert!(!ci.entered_address_valid);
    assert_eq!(ci.entered_address, "nowhere");
    // An invalid address is not connected to.
    assert_eq!(ci.update(ConnectionInterfaceMessage::Reconnect, false), None);
    ci.set_connected(true);
    assert!(ci.connected);
}

#[test]
fn dialog_updates_and_gives_back_its_body() {
    let mut d = OverlayDialog::new("Inspect".to_string(), 41u32);
    let r = d.update(|b: &mut u32| {
        *b += 1;
        *b * 2
    });
    assert_eq!(r, 84);
    assert_eq!(d.title, "Inspect");
    assert_eq!(d.close(), 42);
}

#[test]
fn small_widgets_keep_their_text() {
    assert_eq!(DirectSelector::new("jobs".to_string()).name, "jobs");
    let w: Warning<u8> = Warning::new("Cannot send".to_string());
    assert_eq!(w.message, "Cannot send");
}

fn breakdown() -> TopicBreakdown {
    let mut tb = TopicBreakdown::new("weather".to_string());
    tb.set_data(vec![
        ("europe".to_string(), vec!["rain".to_string(), "sun".to_string()]),
        ("asia".to_string(), vec!["sun".to_string(), "wind".to_string()]),
    ]);
    tb
}

#[test]
fn set_data_makes_collapsed_rows() {
    let tb = breakdown();
    assert_eq!(tb.sub_breakdown_views.len(), 2);
    assert_eq!(tb.sub_breakdown_views[0].0, "europe");
    assert_eq!(tb.sub_breakdown_views[0].1.title, "europe");
    assert!(!tb.sub_breakdown_views[0].1.is_expanded);
    assert_eq!(tb.sub_breakdown_views[1].2, vec!["sun".to_string(), "wind".to_string()]);
    assert!(!tb.breakdown_view.is_expanded);
    assert_eq!(tb.breakdown_view.title, "weather");
}

#[test]
fn breakdown_messages_update_the_state() {
    let mut tb = breakdown();
    tb.update(Message::ToggleBreakdown(None));
    assert!(tb.breakdown_view.is_expanded);
    tb.update(Message::ToggleBreakdown(Some(1)));
    assert!(tb.sub_breakdown_views[1].1.is_expanded);
    assert!(!tb.sub_breakdown_views[0].1.is_expanded);
    // Out of range: nothing happens.
    tb.update(Message::ToggleBreakdown(Some(7)));
    tb.update(Message::NewSubtopicNameChanged("snow".to_string()));
    assert_eq!(tb.new_subtopic_name, "snow");
    tb.update(Message::CreateSubtopic("europe".to_string(), None));
    assert_eq!(tb.new_subtopic_name, "snow");
    assert!(tb.selected_topic().is_none());
    tb.update(Message::SubSubSelected(1, 1));
    let (a, b) = tb.selected_topic().unwrap();
    assert_eq!(name(&a), "asia");
    assert_eq!(name(&b), "wind");
    tb.update(Message::SubSubSelected(1, 5));
    assert!(tb.selected_topic().is_none());
}

#[test]
fn subsubs_lists_each_name_once() {
    let tb = breakdown();
    let mut all: Vec<String> = tb.subsubs(&TopicLiteral::Wildcard).iter().map(name).collect();
    all.sort();
    assert_eq!(all, vec!["rain".to_string(), "sun".to_string(), "wind".to_string()]);
    let mut europe: Vec<String> = tb.subsubs(&TopicLiteral::Name("europe".to_string())).iter().map(name).collect();
    europe.sort();
    assert_eq!(europe, vec!["rain".to_string(), "sun".to_string()]);
    assert!(tb.subsubs(&TopicLiteral::Name("africa".to_string())).is_empty());
}
