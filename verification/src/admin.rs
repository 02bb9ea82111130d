//! The logic of the message queue's administration widgets.

pub mod collapsible;
pub mod overlay_dialog;
pub mod connection_interface;
pub mod direct_selector;
pub mod queue_selector;
pub mod warning;
pub mod topic_breakdown;
pub mod topic_selector;
pub mod inspect_view;
pub mod queue_view;
pub mod admin_view;
pub mod answer;
