use vstd::prelude::*;
use crate::conversations::{is_member, member_by};
use crate::frame::{frame_content, interpret_frame};

verus! {

/// An event as broadcast to every subscriber of a conversation. Never
/// changed once built.
#[derive(Clone)]
pub struct OutgoingEvent {
    pub sender: u128,
    pub content: String,
    pub created_at: String,
}

/// A message as handed to the persistence gateway.
pub struct StoredMessage {
    pub conversation: u128,
    pub sender: u128,
    pub content: String,
}

pub struct OutgoingView {
    pub sender: u128,
    pub content: Seq<char>,
    pub created_at: Seq<char>,
}

pub struct StoredView {
    pub conversation: u128,
    pub sender: u128,
    pub content: Seq<char>,
}

impl View for OutgoingEvent {
    type V = OutgoingView;

    open spec fn view(&self) -> OutgoingView {
        OutgoingView { sender: self.sender, content: self.content@, created_at: self.created_at@ }
    }
}

impl View for StoredMessage {
    type V = StoredView;

    open spec fn view(&self) -> StoredView {
        StoredView { conversation: self.conversation, sender: self.sender, content: self.content@ }
    }
}

/// Where a connection stands. `Persisting` holds the event that is published
/// once the attempt to store it has ended, whichever way.
pub enum Phase {
    Connecting,
    Authorized,
    Active,
    Persisting(OutgoingEvent),
    Closing,
    Closed,
}

pub enum PhaseView {
    Connecting,
    Authorized,
    Active,
    Persisting(OutgoingView),
    Closing,
    Closed,
}

impl View for Phase {
    type V = PhaseView;

    open spec fn view(&self) -> PhaseView {
        match self {
            Phase::Connecting => PhaseView::Connecting,
            Phase::Authorized => PhaseView::Authorized,
            Phase::Active => PhaseView::Active,
            Phase::Persisting(e) => PhaseView::Persisting(e@),
            Phase::Closing => PhaseView::Closing,
            Phase::Closed => PhaseView::Closed,
        }
    }
}

/// What happens to a connection.
pub enum SessionEvent {
    /// The membership query for this user and conversation came back: the
    /// number of matching rows, or the gateway's error.
    MembershipChecked(Result<usize, String>),
    /// The subscription to the conversation's channel is in place.
    Subscribed,
    /// A text frame arrived, at server time `now`.
    Frame { text: String, now: String },
    /// The attempt to store the pending message ended: stored or not.
    Persisted(bool),
    /// The inbound task ended: close frame, read error or end of stream.
    InboundEnded,
    /// The outbound task ended: the peer is gone.
    OutboundEnded,
    /// The task that was told to stop has stopped.
    SiblingStopped,
}

pub enum EventView {
    MembershipChecked(bool),
    Subscribed,
    Frame { text: Seq<char>, now: Seq<char> },
    Persisted(bool),
    InboundEnded,
    OutboundEnded,
    SiblingStopped,
}

impl View for SessionEvent {
    type V = EventView;

    open spec fn view(&self) -> EventView {
        match self {
            SessionEvent::MembershipChecked(rows) => EventView::MembershipChecked(member_by(*rows)),
            SessionEvent::Subscribed => EventView::Subscribed,
            SessionEvent::Frame { text, now } => EventView::Frame { text: text@, now: now@ },
            SessionEvent::Persisted(ok) => EventView::Persisted(*ok),
            SessionEvent::InboundEnded => EventView::InboundEnded,
            SessionEvent::OutboundEnded => EventView::OutboundEnded,
            SessionEvent::SiblingStopped => EventView::SiblingStopped,
        }
    }
}

/// What the runtime is to do next for a connection.
pub enum SessionAction {
    Nothing,
    /// Refuse the upgrade as unauthorized; no subscription is made.
    Reject,
    /// Subscribe to the channel of this conversation.
    Subscribe(u128),
    /// Try to store this message; the outcome comes back as `Persisted`.
    Persist(StoredMessage),
    /// Publish this event on the conversation's channel.
    Publish(OutgoingEvent),
    /// Stop the outbound task.
    CancelOutbound,
    /// Stop the inbound task.
    CancelInbound,
}

pub enum ActionView {
    Nothing,
    Reject,
    Subscribe(u128),
    Persist(StoredView),
    Publish(OutgoingView),
    CancelOutbound,
    CancelInbound,
}

impl View for SessionAction {
    type V = ActionView;

    open spec fn view(&self) -> ActionView {
        match self {
            SessionAction::Nothing => ActionView::Nothing,
            SessionAction::Reject => ActionView::Reject,
            SessionAction::Subscribe(c) => ActionView::Subscribe(*c),
            SessionAction::Persist(m) => ActionView::Persist(m@),
            SessionAction::Publish(e) => ActionView::Publish(e@),
            SessionAction::CancelOutbound => ActionView::CancelOutbound,
            SessionAction::CancelInbound => ActionView::CancelInbound,
        }
    }
}

/// One live client connection in one conversation.
pub struct Session {
    pub user: u128,
    pub conversation: u128,
    pub phase: Phase,
}

pub struct SessionView {
    pub user: u128,
    pub conversation: u128,
    pub phase: PhaseView,
}

impl View for Session {
    type V = SessionView;

    open spec fn view(&self) -> SessionView {
        SessionView { user: self.user, conversation: self.conversation, phase: self.phase@ }
    }
}

pub open spec fn with_phase(s: SessionView, p: PhaseView) -> SessionView {
    SessionView { phase: p, ..s }
}

/// The protocol: the session after `e`, and what is to be done.
pub open spec fn next(s: SessionView, e: EventView) -> (SessionView, ActionView) {
    match (s.phase, e) {
        (PhaseView::Connecting, EventView::MembershipChecked(ok)) => if ok {
            (with_phase(s, PhaseView::Authorized), ActionView::Subscribe(s.conversation))
        } else {
            (with_phase(s, PhaseView::Closed), ActionView::Reject)
        },
        (PhaseView::Authorized, EventView::Subscribed) => (
            with_phase(s, PhaseView::Active),
            ActionView::Nothing,
        ),
        (PhaseView::Active, EventView::Frame { text, now }) => match frame_content(text) {
            Some(c) => (
                with_phase(
                    s,
                    PhaseView::Persisting(OutgoingView { sender: s.user, content: c, created_at: now }),
                ),
                ActionView::Persist(
                    StoredView { conversation: s.conversation, sender: s.user, content: c },
                ),
            ),
            None => (s, ActionView::Nothing),
        },
        (PhaseView::Persisting(ev), EventView::Persisted(_)) => (
            with_phase(s, PhaseView::Active),
            ActionView::Publish(ev),
        ),
        (PhaseView::Active, EventView::InboundEnded) => (
            with_phase(s, PhaseView::Closing),
            ActionView::CancelOutbound,
        ),
        (PhaseView::Persisting(_), EventView::InboundEnded) => (
            with_phase(s, PhaseView::Closing),
            ActionView::CancelOutbound,
        ),
        (PhaseView::Active, EventView::OutboundEnded) => (
            with_phase(s, PhaseView::Closing),
            ActionView::CancelInbound,
        ),
        (PhaseView::Persisting(_), EventView::OutboundEnded) => (
            with_phase(s, PhaseView::Closing),
            ActionView::CancelInbound,
        ),
        (PhaseView::Closing, EventView::SiblingStopped) => (
            with_phase(s, PhaseView::Closed),
            ActionView::Nothing,
        ),
        _ => (s, ActionView::Nothing),
    }
}

/// The session after the events of `events`, one after the other.
pub open spec fn run_to(s: SessionView, events: Seq<EventView>) -> SessionView
    decreases events.len(),
{
    if events.len() == 0 {
        s
    } else {
        next(run_to(s, events.drop_last()), events.last()).0
    }
}

/// The actions asked for along the events of `events`, in order.
pub open spec fn actions_of(s: SessionView, events: Seq<EventView>) -> Seq<ActionView>
    decreases events.len(),
{
    if events.len() == 0 {
        Seq::empty()
    } else {
        actions_of(s, events.drop_last()).push(next(run_to(s, events.drop_last()), events.last()).1)
    }
}

/// A session whose membership check fails is closed at once and stays
/// closed: whatever events follow, it never asks for a subscription to the
/// conversation's channel, never stores and never publishes anything.
pub proof fn lemma_rejected_never_subscribes(s: SessionView, events: Seq<EventView>)
    requires
        s.phase is Connecting,
        events.len() > 0,
        events[0] == EventView::MembershipChecked(false),
    ensures
        run_to(s, events).phase is Closed,
        actions_of(s, events).len() == events.len(),
        actions_of(s, events)[0] == ActionView::Reject,
        forall|i: int|
            1 <= i < events.len() ==> #[trigger] actions_of(s, events)[i] == ActionView::Nothing,
    decreases events.len(),
{
    let prev = events.drop_last();
    if prev.len() == 0 {
        assert(events.last() == events[0]);
        assert(actions_of(s, prev) == Seq::<ActionView>::empty());
    } else {
        assert(prev[0] == events[0]);
        lemma_rejected_never_subscribes(s, prev);
        assert forall|i: int| 1 <= i < events.len() implies #[trigger] actions_of(s, events)[i]
            == ActionView::Nothing by {
            if i < prev.len() {
                assert(actions_of(s, events)[i] == actions_of(s, prev)[i]);
            }
        }
    }
}

/// A message that is being stored is published whether storing it succeeded
/// or failed, and the session goes on either way.
pub proof fn lemma_publish_despite_persist_failure(s: SessionView)
    requires
        s.phase is Persisting,
    ensures
        next(s, EventView::Persisted(false)) == next(s, EventView::Persisted(true)),
        next(s, EventView::Persisted(false)).1 == ActionView::Publish(s.phase->Persisting_0),
        next(s, EventView::Persisted(false)).0.phase is Active,
{
}

/// A frame with content is first handed to storage and then, once storing
/// ends either way, published as an event of this session's user with that
/// content and the server time at which the frame arrived.
pub proof fn lemma_frame_is_published(s: SessionView, text: Seq<char>, now: Seq<char>, stored: bool)
    requires
        s.phase is Active,
        frame_content(text) is Some,
    ensures
        ({
            let (s1, a1) = next(s, EventView::Frame { text, now });
            let (s2, a2) = next(s1, EventView::Persisted(stored));
            &&& a1 == ActionView::Persist(
                StoredView { conversation: s.conversation, sender: s.user, content: frame_content(text)->0 },
            )
            &&& a2 == ActionView::Publish(
                OutgoingView { sender: s.user, content: frame_content(text)->0, created_at: now },
            )
            &&& s2 == s
        }),
{
}

/// When either task of a live session ends, the other is told to stop, and
/// the session is closed as soon as that one has stopped.
pub proof fn lemma_task_end_closes(s: SessionView, ended: EventView)
    requires
        s.phase is Active || s.phase is Persisting,
        ended == EventView::InboundEnded || ended == EventView::OutboundEnded,
    ensures
        next(s, ended).0.phase is Closing,
        ended == EventView::InboundEnded ==> next(s, ended).1 == ActionView::CancelOutbound,
        ended == EventView::OutboundEnded ==> next(s, ended).1 == ActionView::CancelInbound,
        next(next(s, ended).0, EventView::SiblingStopped).0.phase is Closed,
{
}

/// A subscription is asked for only by a successful membership check.
pub proof fn lemma_subscribe_only_after_check(s: SessionView, e: EventView)
    requires
        next(s, e).1 is Subscribe,
    ensures
        s.phase is Connecting,
        e == EventView::MembershipChecked(true),
        next(s, e).1 == ActionView::Subscribe(s.conversation),
{
}

impl Session {
    /// A connection of `user` to `conversation`, before its membership check.
    pub fn new(user: u128, conversation: u128) -> (r: Session)
        ensures
            r@ == (SessionView { user, conversation, phase: PhaseView::Connecting }),
    {
        Session { user, conversation, phase: Phase::Connecting }
    }

    /// Whether the session has ended.
    pub fn is_closed(&self) -> (r: bool)
        ensures
            r == (self@.phase is Closed),
    {
        match self.phase {
            Phase::Closed => true,
            _ => false,
        }
    }

    /// Advances the session by one event and says what is to be done.
    pub fn step(&mut self, event: SessionEvent) -> (a: SessionAction)
        ensures
            (final(self)@, a@) == next(old(self)@, event@),
    {
        let mut phase = Phase::Closed;
        std::mem::swap(&mut self.phase, &mut phase);
        match (phase, event) {
            (Phase::Connecting, SessionEvent::MembershipChecked(rows)) => {
                if is_member(&rows) {
                    self.phase = Phase::Authorized;
                    SessionAction::Subscribe(self.conversation)
                } else {
                    self.phase = Phase::Closed;
                    SessionAction::Reject
                }
            },
            (Phase::Authorized, SessionEvent::Subscribed) => {
                self.phase = Phase::Active;
                SessionAction::Nothing
            },
            (Phase::Active, SessionEvent::Frame { text, now }) => {
                match interpret_frame(text.as_str()) {
                    Some(content) => {
                        let stored = StoredMessage {
                            conversation: self.conversation,
                            sender: self.user,
                            content: content.clone(),
                        };
                        self.phase = Phase::Persisting(
                            OutgoingEvent { sender: self.user, content, created_at: now },
                        );
                        SessionAction::Persist(stored)
                    },
                    None => {
                        self.phase = Phase::Active;
                        SessionAction::Nothing
                    },
                }
            },
            (Phase::Persisting(ev), SessionEvent::Persisted(_)) => {
                self.phase = Phase::Active;
                SessionAction::Publish(ev)
            },
            (Phase::Active, SessionEvent::InboundEnded) => {
                self.phase = Phase::Closing;
                SessionAction::CancelOutbound
            },
            (Phase::Persisting(_), SessionEvent::InboundEnded) => {
                self.phase = Phase::Closing;
                SessionAction::CancelOutbound
            },
            (Phase::Active, SessionEvent::OutboundEnded) => {
                self.phase = Phase::Closing;
                SessionAction::CancelInbound
            },
            (Phase::Persisting(_), SessionEvent::OutboundEnded) => {
                self.phase = Phase::Closing;
                SessionAction::CancelInbound
            },
            (Phase::Closing, SessionEvent::SiblingStopped) => {
                self.phase = Phase::Closed;
                SessionAction::Nothing
            },
            (other, _) => {
                self.phase = other;
                SessionAction::Nothing
            },
        }
    }
}

} // verus!
