//! The subscriber hub: a multicast channel that tells the observers of a
//! session what happens to it.
//!
//! Each session owns one [`Channel`]. Every event published on it reaches
//! each [`Subscription`] that was made before the publication, in
//! publication order. The channel retains a bounded number of events, at least
//! [`CHANNEL_CAPACITY`]; a receiver that falls further behind loses the
//! oldest ones and is told so, and the publisher is never held up.

use vstd::prelude::*;
use vstd::string::*;

verus! {

/// The number of events that a channel is asked to retain for slow
/// receivers.
pub const CHANNEL_CAPACITY: usize = 100;

/// The text of the event that ends a session's stream.
pub open spec fn finished_event() -> Seq<char> {
    "session_finished"@
}

/// The sending half of a `tokio` broadcast channel. Nothing inside it is
/// visible to the verifier.
#[verifier::external_type_specification]
#[verifier::external_body]
#[verifier::reject_recursive_types(T)]
pub struct ExSender<T>(tokio::sync::broadcast::Sender<T>);

/// The receiving half of a `tokio` broadcast channel. Nothing inside it is
/// visible to the verifier.
#[verifier::external_type_specification]
#[verifier::external_body]
#[verifier::reject_recursive_types(T)]
pub struct ExReceiver<T>(tokio::sync::broadcast::Receiver<T>);

/// Calls `tokio::sync::broadcast::channel` and keeps the sending half; the
/// receiver that comes with it is dropped at once. The call panics on a
/// capacity of zero or above `usize::MAX / 2`, which the precondition leaves
/// out. Nothing is claimed of the sender.
#[verifier::external_body]
fn open_channel(capacity: usize) -> (sender: tokio::sync::broadcast::Sender<String>)
    requires
        0 < capacity <= usize::MAX / 2,
{
    tokio::sync::broadcast::channel(capacity).0
}

/// Calls `tokio::sync::broadcast::Sender::send`. The call waits for no
/// receiver; it fails only when none is subscribed, and that failure is
/// dropped here, since an event without observers is no fault of the
/// publisher. Nothing is claimed of what the receivers see.
#[verifier::external_body]
fn send_event(sender: &tokio::sync::broadcast::Sender<String>, event: String) {
    let _ = sender.send(event);
}

/// Calls `tokio::sync::broadcast::Sender::subscribe`, which hands out a
/// receiver for the events sent after the call. It panics only once
/// `usize::MAX >> 2` receivers are alive at the same time. Nothing is
/// claimed of the receiver.
#[verifier::external_body]
fn new_receiver(
    sender: &tokio::sync::broadcast::Sender<String>,
) -> (receiver: tokio::sync::broadcast::Receiver<String>) {
    sender.subscribe()
}

/// The multicast channel of one session, together with the record of what
/// was published on it.
pub struct Channel {
    sender: tokio::sync::broadcast::Sender<String>,
    sent: Ghost<Seq<Seq<char>>>,
}

impl Channel {
    /// The events published on this channel so far, oldest first.
    pub closed spec fn published(&self) -> Seq<Seq<char>> {
        self.sent@
    }

    /// Opens a channel on which nothing has been published.
    pub fn new() -> (channel: Channel)
        ensures
            channel.published() == Seq::<Seq<char>>::empty(),
    {
        Channel { sender: open_channel(CHANNEL_CAPACITY), sent: Ghost(Seq::empty()) }
    }

    /// Publishes `event` to every current subscriber.
    ///
    /// The call returns whether or not anybody listens: a subscriber that is
    /// slow or gone costs the publisher nothing.
    pub fn publish(&mut self, event: &str)
        ensures
            final(self).published() == old(self).published().push(event@),
    {
        send_event(&self.sender, event.to_owned());
        proof {
            self.sent@ = self.sent@.push(event@);
        }
    }

    /// Subscribes to the events published from now on.
    pub fn subscribe(&self) -> (subscription: Subscription)
        ensures
            subscription.starts_at() == self.published().len(),
    {
        Subscription { receiver: new_receiver(&self.sender), start: Ghost(self.sent@.len()) }
    }
}

/// One observer's place on a channel: a receiver of its own, together with
/// the point in the channel's record at which it was made.
///
/// A subscription is owed every event published after it was made, each
/// once and in the order of publication, and none of the earlier ones.
pub struct Subscription {
    receiver: tokio::sync::broadcast::Receiver<String>,
    start: Ghost<nat>,
}

impl Subscription {
    /// The number of events that had been published on the channel when
    /// this subscription was made.
    pub closed spec fn starts_at(&self) -> nat {
        self.start@
    }

    /// The receiver that this subscription holds.
    pub closed spec fn receiver(&self) -> tokio::sync::broadcast::Receiver<String> {
        self.receiver
    }

    /// The events that this subscription is owed, of all those that its
    /// channel has `published`: the ones that came after it was made.
    pub open spec fn owed(&self, published: Seq<Seq<char>>) -> Seq<Seq<char>> {
        published.skip(self.starts_at() as int)
    }

    /// Hands out the receiver, for the caller to wait on.
    pub fn into_receiver(self) -> (receiver: tokio::sync::broadcast::Receiver<String>)
        ensures
            receiver == self.receiver(),
    {
        self.receiver
    }
}

/// The text of the event that ends a session's stream.
pub fn finished_text() -> (text: &'static str)
    ensures
        text@ == finished_event(),
{
    "session_finished"
}

} // verus!
