//! The reports of the message service and the events they become.

pub mod models;

use crate::component::pubsub::{PubsubEvent, PubsubEventView};
use crate::component::topics::names;
use crate::gcp::models::{PubsubMessage, SubscriptionInfo, TopicInfo};
use crate::input::view_of;
use vstd::prelude::*;

verus! {

/// A report of the message service.
#[derive(Debug)]
pub enum GcpMsg {
    Topics(Vec<TopicInfo>),
    Subscriptions(Vec<SubscriptionInfo>),
    Messages(Vec<PubsubMessage>),
}

/// The event that a report of the service becomes. Only a list of topics
/// is of interest to the dashboard; the other reports become no event.
pub open spec fn event_of(msg: GcpMsg) -> Option<PubsubEventView> {
    match msg {
        GcpMsg::Topics(list) => Some(PubsubEventView::GotTopics(names(list@))),
        _ => None,
    }
}

/// Turns a report of the service into the event that tells the dashboard
/// of it.
pub fn into_event(msg: GcpMsg) -> (event: Option<PubsubEvent>)
    ensures
        view_of(event) == event_of(msg),
{
    match msg {
        GcpMsg::Topics(list) => Some(PubsubEvent::GotTopics(list)),
        GcpMsg::Subscriptions(_) => None,
        GcpMsg::Messages(_) => None,
    }
}

} // verus!
