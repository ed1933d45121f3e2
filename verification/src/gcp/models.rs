//! What the message service reports, as plain records.

pub use crate::component::topics::TopicInfo;
use vstd::prelude::*;

verus! {

/// A subscription of the message service.
#[derive(Debug)]
pub struct SubscriptionInfo {
    pub name: String,
}

impl View for SubscriptionInfo {
    type V = Seq<char>;

    open spec fn view(&self) -> Seq<char> {
        self.name@
    }
}

impl Clone for SubscriptionInfo {
    fn clone(&self) -> (out: Self)
        ensures
            out@ == self@,
    {
        SubscriptionInfo { name: self.name.clone() }
    }
}

/// A message pulled from a subscription.
#[derive(Debug)]
pub struct PubsubMessage {
    pub data: String,
    pub ack_id: String,
}

/// A message as plain values.
pub struct PubsubMessageView {
    pub data: Seq<char>,
    pub ack_id: Seq<char>,
}

impl View for PubsubMessage {
    type V = PubsubMessageView;

    open spec fn view(&self) -> PubsubMessageView {
        PubsubMessageView { data: self.data@, ack_id: self.ack_id@ }
    }
}

impl Clone for PubsubMessage {
    fn clone(&self) -> (out: Self)
        ensures
            out@ == self@,
    {
        PubsubMessage { data: self.data.clone(), ack_id: self.ack_id.clone() }
    }
}

} // verus!
