use vstd::prelude::*;
use tokio::sync::broadcast::Sender;
use crate::registry::ConversationRegistry;
use crate::session::{OutgoingEvent, OutgoingView};

verus! {

#[verifier::external_type_specification]
#[verifier::external_body]
#[verifier::reject_recursive_types(T)]
pub struct ExSender<T>(Sender<T>);

/// How many events a conversation's channel buffers for each subscriber. A
/// subscriber that falls further behind misses the oldest of them.
pub const CHANNEL_CAPACITY: usize = 256;

/// Relies on tokio's broadcast::Sender::new: a channel with no subscriber yet,
/// buffering `capacity` events. It panics on a capacity of zero or of more
/// than half of `usize::MAX`, which `requires` leaves out.
#[verifier::external_body]
fn open_sender(capacity: usize) -> (r: Sender<OutgoingEvent>)
    requires
        0 < capacity <= usize::MAX / 2,
{
    Sender::new(capacity)
}

/// Relies on tokio's `Clone` for broadcast::Sender: another handle on the
/// same channel.
#[verifier::external_body]
fn clone_sender(sender: &Sender<OutgoingEvent>) -> (r: Sender<OutgoingEvent>) {
    sender.clone()
}

/// Relies on tokio's broadcast::Sender::send, which never waits: it fails
/// only where no receiver is subscribed, and otherwise returns how many
/// receivers the event was handed to, at least one.
#[verifier::external_body]
fn send_event(sender: &Sender<OutgoingEvent>, event: OutgoingEvent) -> (r: Option<usize>)
    ensures
        r is Some ==> r->Some_0 >= 1,
{
    sender.send(event).ok()
}

/// A handle on one conversation's fan-out channel, with the events that were
/// published through this handle.
pub struct Channel {
    sender: Sender<OutgoingEvent>,
    sent: Ghost<Seq<OutgoingView>>,
}

pub struct ChannelView {
    /// The events published through this handle, oldest first.
    pub sent: Seq<OutgoingView>,
}

impl View for Channel {
    type V = ChannelView;

    closed spec fn view(&self) -> ChannelView {
        ChannelView { sent: self.sent@ }
    }
}

impl Channel {
    /// A new channel, buffering `CHANNEL_CAPACITY` events for each subscriber,
    /// through which nothing has been published.
    pub fn open() -> (r: Channel)
        ensures
            r@.sent == Seq::<OutgoingView>::empty(),
    {
        Channel { sender: open_sender(CHANNEL_CAPACITY), sent: Ghost(Seq::empty()) }
    }

    /// Another handle on the same channel, for another publisher.
    pub fn share(&self) -> (r: Channel)
        ensures
            r@.sent == Seq::<OutgoingView>::empty(),
    {
        Channel { sender: clone_sender(&self.sender), sent: Ghost(Seq::empty()) }
    }

    /// The sending side of the channel, from which subscribers are made.
    pub fn sender(&self) -> &Sender<OutgoingEvent> {
        &self.sender
    }

    /// Publishes `event` to every current subscriber. It never fails and
    /// never waits: with no subscriber it hands the event to nobody and
    /// returns 0; otherwise it returns how many subscribers got it.
    pub fn publish(&mut self, event: OutgoingEvent) -> (delivered: usize)
        ensures
            final(self)@.sent == old(self)@.sent.push(event@),
    {
        let ghost v = event@;
        let r = send_event(&self.sender, event);
        proof {
            self.sent@ = self.sent@.push(v);
        }
        match r {
            Some(n) => n,
            None => 0,
        }
    }
}

/// Makes sure that conversation `id` has a channel, opening a new one, with
/// nothing published yet, only where it has none. Returns whether one was
/// opened; channels already there are never replaced.
pub fn ensure_channel(registry: &mut ConversationRegistry<Channel>, id: u128) -> (created: bool)
    ensures
        created == !old(registry)@.contains_key(id),
        final(registry)@.contains_key(id),
        final(registry)@.dom() == old(registry)@.dom().insert(id),
        forall|k: u128| #[trigger]
            old(registry)@.contains_key(k) ==> final(registry)@[k] == old(registry)@[k],
        created ==> final(registry)@[id]@.sent == Seq::<OutgoingView>::empty(),
{
    if registry.contains(id) {
        false
    } else {
        registry.get_or_create(id, Channel::open())
    }
}

} // verus!
