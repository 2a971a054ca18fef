//! One client's session, as a state machine.
//!
//! A session greets its client, subscribes to the bus once the greeting went
//! out, then services one ready event at a time: a frame from the client or a
//! message from the bus. The driver races the two sources, feeds whichever is
//! ready to [`Session::step`], performs the returned [`Action`], and reports
//! how a send or a publish went as a further event. Once the session is
//! closed it ignores everything.

use crate::bus::PublishOutcome;
use crate::message::{relay_message, relay_text, welcome_message, welcome_text};
use vstd::prelude::*;

verus! {

/// A fault the connection reported instead of a frame.
#[derive(Clone, Copy, Debug, PartialEq, Eq, Structural)]
pub enum TransportFault {
    /// The connection was already closed.
    ConnectionClosed,
    /// The peer broke the framing protocol.
    Protocol,
    /// A text frame was not valid UTF-8.
    Utf8,
    /// Any other failure, such as an I/O error or a reset connection.
    Other,
}

/// What the client's side of the connection produced.
pub enum Inbound {
    /// A text frame.
    Text(String),
    /// A binary, ping, pong or other non-text frame.
    NonText,
    /// A fault instead of a frame.
    Fault(TransportFault),
    /// The stream ended: no frame will ever come.
    EndOfStream,
}

/// What the session's bus subscription produced.
pub enum BusEvent {
    /// The next published message.
    Message(String),
    /// The subscription fell behind and this many messages were lost.
    Lagged(u64),
    /// Every publisher is gone.
    Closed,
}

/// An event the driver hands to a session.
pub enum Event {
    /// The last `Send` action completed.
    Sent,
    /// The last `Send` action failed.
    SendFailed,
    /// The client's connection produced something.
    Frame(Inbound),
    /// The bus subscription produced something.
    Bus(BusEvent),
    /// The last `Publish` action came to this outcome.
    Published(PublishOutcome),
}

/// Why a session ended in error.
#[derive(Clone, Copy, Debug, PartialEq, Eq, Structural)]
pub enum SessionError {
    /// Sending a frame to the client failed.
    SendFailed,
    /// The connection failed with a fault that is not a graceful close.
    Transport,
    /// The subscription lagged behind and lost this many messages.
    Lagged(u64),
    /// The bus was closed.
    BusClosed,
}

/// What the driver must do next.
pub enum Action {
    /// Send this text frame to the client, then report `Sent` or `SendFailed`.
    Send(String),
    /// Subscribe the session to the bus, then wait for the next event.
    Subscribe,
    /// Publish this text on the bus, then report `Published`.
    Publish(String),
    /// Nothing to do: wait for the next event.
    Wait,
    /// The session ended without error: drop the connection and subscription.
    Finish,
    /// The session ended with an error: drop both and report it.
    Fail(SessionError),
}

/// An action with its texts as character sequences.
pub enum ActionModel {
    Send(Seq<char>),
    Subscribe,
    Publish(Seq<char>),
    Wait,
    Finish,
    Fail(SessionError),
}

impl View for Action {
    type V = ActionModel;

    open spec fn view(&self) -> ActionModel {
        match self {
            Action::Send(s) => ActionModel::Send(s@),
            Action::Subscribe => ActionModel::Subscribe,
            Action::Publish(s) => ActionModel::Publish(s@),
            Action::Wait => ActionModel::Wait,
            Action::Finish => ActionModel::Finish,
            Action::Fail(e) => ActionModel::Fail(*e),
        }
    }
}

/// Where a session stands.
#[derive(Clone, Copy, Debug, PartialEq, Eq, Structural)]
pub enum Phase {
    /// The greeting is on its way; no subscription yet.
    Greeting,
    /// Relaying in both directions.
    Active,
    /// Ended; terminal.
    Closed,
}

/// A session as its client's address and its phase.
pub struct SessionModel {
    pub addr: Seq<char>,
    pub phase: Phase,
}

/// One client's session.
pub struct Session {
    addr: String,
    phase: Phase,
}

impl View for Session {
    type V = SessionModel;

    closed spec fn view(&self) -> SessionModel {
        SessionModel { addr: self.addr@, phase: self.phase }
    }
}

/// The faults that end a session quietly: the peer closed, broke the
/// protocol, or sent text that is not UTF-8.
pub open spec fn is_graceful(f: TransportFault) -> bool {
    !(f is Other)
}

/// The session `s` in phase `p`.
pub open spec fn with_phase(s: SessionModel, p: Phase) -> SessionModel {
    SessionModel { phase: p, ..s }
}

/// The session's transition: the next session and the action for event `e`.
pub open spec fn next(s: SessionModel, e: Event) -> (SessionModel, ActionModel) {
    match s.phase {
        Phase::Greeting => match e {
            Event::Sent => (with_phase(s, Phase::Active), ActionModel::Subscribe),
            Event::SendFailed => (
                with_phase(s, Phase::Closed),
                ActionModel::Fail(SessionError::SendFailed),
            ),
            _ => (s, ActionModel::Wait),
        },
        Phase::Active => match e {
            Event::Sent => (s, ActionModel::Wait),
            Event::SendFailed => (
                with_phase(s, Phase::Closed),
                ActionModel::Fail(SessionError::SendFailed),
            ),
            Event::Frame(inbound) => match inbound {
                Inbound::Text(t) => (s, ActionModel::Publish(relay_text(s.addr, t@))),
                Inbound::NonText => (s, ActionModel::Wait),
                Inbound::Fault(f) => if is_graceful(f) {
                    (with_phase(s, Phase::Closed), ActionModel::Finish)
                } else {
                    (with_phase(s, Phase::Closed), ActionModel::Fail(SessionError::Transport))
                },
                Inbound::EndOfStream => (with_phase(s, Phase::Closed), ActionModel::Finish),
            },
            Event::Bus(b) => match b {
                BusEvent::Message(m) => (s, ActionModel::Send(m@)),
                BusEvent::Lagged(n) => (
                    with_phase(s, Phase::Closed),
                    ActionModel::Fail(SessionError::Lagged(n)),
                ),
                BusEvent::Closed => (
                    with_phase(s, Phase::Closed),
                    ActionModel::Fail(SessionError::BusClosed),
                ),
            },
            Event::Published(_) => (s, ActionModel::Wait),
        },
        Phase::Closed => (s, ActionModel::Wait),
    }
}

/// Runs a session through the events `evs` in order: the session at the end
/// and the actions returned, one per event.
pub open spec fn run(s: SessionModel, evs: Seq<Event>) -> (SessionModel, Seq<ActionModel>)
    decreases evs.len(),
{
    if evs.len() == 0 {
        (s, Seq::empty())
    } else {
        let (s1, a) = next(s, evs[0]);
        let (s2, rest) = run(s1, evs.drop_first());
        (s2, seq![a] + rest)
    }
}

/// The texts that `acts` send to the client, in order.
pub open spec fn sent_texts(acts: Seq<ActionModel>) -> Seq<Seq<char>>
    decreases acts.len(),
{
    if acts.len() == 0 {
        Seq::empty()
    } else {
        let rest = sent_texts(acts.drop_first());
        match acts[0] {
            ActionModel::Send(t) => seq![t] + rest,
            _ => rest,
        }
    }
}

/// The messages that `evs` bring from the bus, in order.
pub open spec fn bus_messages(evs: Seq<Event>) -> Seq<Seq<char>>
    decreases evs.len(),
{
    if evs.len() == 0 {
        Seq::empty()
    } else {
        let rest = bus_messages(evs.drop_first());
        match evs[0] {
            Event::Bus(BusEvent::Message(m)) => seq![m@] + rest,
            _ => rest,
        }
    }
}

/// An event of a session whose client sends nothing and where nothing fails:
/// a bus message, a completed send, or a publish outcome.
pub open spec fn is_listening_event(e: Event) -> bool {
    match e {
        Event::Sent => true,
        Event::Published(_) => true,
        Event::Bus(BusEvent::Message(_)) => true,
        _ => false,
    }
}

/// An active session whose client sends no frame stays active and sends its
/// client every message the bus brings, each exactly once and in the order
/// the bus delivered them.
pub proof fn lemma_listener_receives_every_message(s: SessionModel, evs: Seq<Event>)
    requires
        s.phase == Phase::Active,
        forall|i: int| 0 <= i < evs.len() ==> is_listening_event(#[trigger] evs[i]),
    ensures
        run(s, evs).0 == s,
        sent_texts(run(s, evs).1) == bus_messages(evs),
    decreases evs.len(),
{
    if evs.len() > 0 {
        let tail = evs.drop_first();
        assert forall|i: int| 0 <= i < tail.len() implies is_listening_event(#[trigger] tail[i]) by {
            assert(tail[i] == evs[i + 1]);
        }
        assert(is_listening_event(evs[0]));
        lemma_listener_receives_every_message(s, tail);
        let (s1, a) = next(s, evs[0]);
        assert(s1 == s);
        let acts = run(s, evs).1;
        assert(acts.drop_first() =~= run(s, tail).1);
    }
}

/// A closed session stays closed and answers every event with `Wait`.
pub proof fn lemma_closed_is_terminal(s: SessionModel, evs: Seq<Event>)
    requires
        s.phase == Phase::Closed,
    ensures
        run(s, evs).0 == s,
        run(s, evs).1.len() == evs.len(),
        forall|i: int| 0 <= i < evs.len() ==> #[trigger] run(s, evs).1[i] == ActionModel::Wait,
    decreases evs.len(),
{
    if evs.len() > 0 {
        let tail = evs.drop_first();
        lemma_closed_is_terminal(s, tail);
        let acts = run(s, evs).1;
        assert forall|i: int| 0 <= i < evs.len() implies #[trigger] acts[i] == ActionModel::Wait by {
            if i > 0 {
                assert(acts[i] == run(s, tail).1[i - 1]);
            }
        }
    }
}

/// Whatever a publish came to, no subscriber included, an active session
/// carries on unchanged and asks for nothing.
pub proof fn lemma_publish_outcome_keeps_session(s: SessionModel, o: PublishOutcome)
    requires
        s.phase == Phase::Active,
    ensures
        next(s, Event::Published(o)) == (s, ActionModel::Wait),
{
}

/// A session relays its own client's text like any other: the frame is
/// published as `<addr>: <text>`, and when the bus brings that text back the
/// session sends it to its own client.
pub proof fn lemma_sender_receives_own_message(s: SessionModel, t: String, m: String)
    requires
        s.phase == Phase::Active,
        m@ == relay_text(s.addr, t@),
    ensures
        next(s, Event::Frame(Inbound::Text(t))) == (s, ActionModel::Publish(relay_text(s.addr, t@))),
        next(s, Event::Bus(BusEvent::Message(m))) == (s, ActionModel::Send(relay_text(s.addr, t@))),
{
}

/// While its greeting is on its way a session neither relays nor sends
/// anything: only the greeting's own completion or failure moves it.
pub proof fn lemma_greeting_relays_nothing(s: SessionModel, e: Event)
    requires
        s.phase == Phase::Greeting,
        !(e is Sent),
        !(e is SendFailed),
    ensures
        next(s, e) == (s, ActionModel::Wait),
{
}

impl Session {
    /// Opens a session for the client at `addr`. The first action sends the
    /// greeting; the subscription follows once that send completed.
    pub fn open(addr: String) -> (r: (Session, Action))
        ensures
            r.0@ == (SessionModel { addr: addr@, phase: Phase::Greeting }),
            r.1@ == ActionModel::Send(welcome_text(addr@)),
    {
        let greeting = welcome_message(addr.as_str());
        (Session { addr, phase: Phase::Greeting }, Action::Send(greeting))
    }

    /// The client's address.
    pub fn address(&self) -> (r: &str)
        ensures
            r@ == self@.addr,
    {
        self.addr.as_str()
    }

    /// The session's phase.
    pub fn phase(&self) -> (r: Phase)
        ensures
            r == self@.phase,
    {
        self.phase
    }

    /// Whether the session has ended.
    pub fn is_closed(&self) -> (r: bool)
        ensures
            r == (self@.phase == Phase::Closed),
    {
        match self.phase {
            Phase::Closed => true,
            _ => false,
        }
    }

    /// Handles one event and returns what the driver must do next.
    pub fn step(&mut self, e: Event) -> (a: Action)
        ensures
            (final(self)@, a@) == next(old(self)@, e),
    {
        match self.phase {
            Phase::Greeting => match e {
                Event::Sent => {
                    self.phase = Phase::Active;
                    Action::Subscribe
                },
                Event::SendFailed => {
                    self.phase = Phase::Closed;
                    Action::Fail(SessionError::SendFailed)
                },
                _ => Action::Wait,
            },
            Phase::Active => match e {
                Event::Sent => Action::Wait,
                Event::SendFailed => {
                    self.phase = Phase::Closed;
                    Action::Fail(SessionError::SendFailed)
                },
                Event::Frame(inbound) => match inbound {
                    Inbound::Text(t) => Action::Publish(relay_message(self.addr.as_str(), t.as_str())),
                    Inbound::NonText => Action::Wait,
                    Inbound::Fault(f) => {
                        self.phase = Phase::Closed;
                        match f {
                            TransportFault::Other => Action::Fail(SessionError::Transport),
                            _ => Action::Finish,
                        }
                    },
                    Inbound::EndOfStream => {
                        self.phase = Phase::Closed;
                        Action::Finish
                    },
                },
                Event::Bus(b) => match b {
                    BusEvent::Message(m) => Action::Send(m),
                    BusEvent::Lagged(n) => {
                        self.phase = Phase::Closed;
                        Action::Fail(SessionError::Lagged(n))
                    },
                    BusEvent::Closed => {
                        self.phase = Phase::Closed;
                        Action::Fail(SessionError::BusClosed)
                    },
                },
                Event::Published(_) => Action::Wait,
            },
            Phase::Closed => Action::Wait,
        }
    }
}

} // verus!
