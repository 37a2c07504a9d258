//! The notification that announces a payment.

use crate::decimal::{decimal_text, push_decimal};
use vstd::prelude::*;
use vstd::string::StringExecFns;

verus! {

/// The title of every notification.
pub const TITLE: &'static str = "New payment received";

/// The tag that every notification carries.
pub const TAG: &'static str = "zap";

/// What a notification says, as plain sequences.
pub struct PayloadView {
    pub topic: Seq<char>,
    pub message: Seq<char>,
    pub title: Seq<char>,
    pub tags: Seq<Seq<char>>,
}

/// A notification ready to be sent: the topic it goes to, its message, its
/// title and its tags in order. It does not change once built, and its topic
/// is never empty.
#[derive(Debug, PartialEq, Eq)]
pub struct NotificationPayload {
    topic: String,
    message: String,
    title: String,
    tags: Vec<String>,
}

/// The message for an amount in whole units: a plus sign, the amount in
/// decimal notation, a space and the unit label `sat`.
pub open spec fn message_text(amount: u64) -> Seq<char> {
    seq!['+'] + decimal_text(amount as nat) + seq![' ', 's', 'a', 't']
}

/// The notification for an amount on a topic.
pub open spec fn payload_for(amount: u64, topic: Seq<char>) -> PayloadView {
    PayloadView { topic, message: message_text(amount), title: TITLE@, tags: seq![TAG@] }
}

impl View for NotificationPayload {
    type V = PayloadView;

    closed spec fn view(&self) -> PayloadView {
        PayloadView {
            topic: self.topic@,
            message: self.message@,
            title: self.title@,
            tags: self.tags.deep_view(),
        }
    }
}

impl NotificationPayload {
    #[verifier::type_invariant]
    spec fn has_topic(self) -> bool {
        self.topic@.len() > 0
    }

    /// The topic that the notification goes to.
    pub fn topic(&self) -> (topic: &str)
        ensures
            topic@ == self@.topic,
            topic@.len() > 0,
    {
        proof {
            use_type_invariant(self);
        }
        self.topic.as_str()
    }

    /// The text of the notification.
    pub fn message(&self) -> (message: &str)
        ensures
            message@ == self@.message,
    {
        self.message.as_str()
    }

    /// The title of the notification.
    pub fn title(&self) -> (title: &str)
        ensures
            title@ == self@.title,
    {
        self.title.as_str()
    }

    /// The tags of the notification, in order.
    pub fn tags(&self) -> (tags: &Vec<String>)
        ensures
            tags.deep_view() == self@.tags,
    {
        &self.tags
    }
}

impl Clone for NotificationPayload {
    /// A copy that says the same.
    fn clone(&self) -> (copy: NotificationPayload)
        ensures
            copy@ == self@,
    {
        proof {
            use_type_invariant(self);
        }
        let mut tags: Vec<String> = Vec::new();
        let mut i: usize = 0;
        while i < self.tags.len()
            invariant
                i <= self.tags.len(),
                tags.len() == i,
                forall|j: int| 0 <= j < i ==> tags[j]@ == self.tags[j]@,
            decreases self.tags.len() - i,
        {
            tags.push(self.tags[i].clone());
            i = i + 1;
        }
        assert(tags.deep_view() =~= self.tags.deep_view());
        NotificationPayload {
            topic: self.topic.clone(),
            message: self.message.clone(),
            title: self.title.clone(),
            tags,
        }
    }
}

/// Renders the message for an amount in whole units.
pub fn render_message(amount: u64) -> (message: String)
    ensures
        message@ == message_text(amount),
{
    let mut message = String::from_str("+");
    push_decimal(&mut message, amount);
    message.append(" sat");
    proof {
        reveal_strlit("+");
        reveal_strlit(" sat");
    }
    message
}

/// Builds the notification that announces a payment of `amount` whole units
/// on `topic`.
pub fn build_payload(amount: u64, topic: &str) -> (payload: NotificationPayload)
    requires
        topic@.len() > 0,
    ensures
        payload@ == payload_for(amount, topic@),
{
    let mut tags: Vec<String> = Vec::new();
    tags.push(String::from_str(TAG));
    assert(tags.deep_view() =~= seq![TAG@]);
    NotificationPayload {
        topic: String::from_str(topic),
        message: render_message(amount),
        title: String::from_str(TITLE),
        tags,
    }
}

} // verus!
