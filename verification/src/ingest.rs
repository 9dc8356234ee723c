use crate::cache::DeviceStateCache;
use crate::tracker::{alert_of, handle_publish, is_outcome_of, states_after, Outcome};
use vstd::prelude::*;

verus! {

/// Seconds to wait after a lost or refused connection before the next one.
pub const BACKOFF_SECONDS: u64 = 5;

/// Seconds between two keep-alive messages to the bus.
pub const KEEP_ALIVE_SECONDS: u64 = 10;

/// Where the loop stands within one connection attempt.
#[derive(Clone, Copy, Debug, PartialEq, Eq, Structural)]
pub enum Phase {
    Connecting,
    Subscribing,
    Streaming,
    BackoffWait,
}

/// What the bus client or the clock reports back to the loop.
#[derive(Debug, PartialEq, Eq)]
pub enum Event {
    /// The connection stands.
    Connected,
    /// The subscription was accepted.
    Subscribed,
    /// A message came in.
    Publish { topic: String, payload: Vec<u8> },
    /// The bus reported something that is no message.
    Other,
    /// Connecting, subscribing or waiting for a message failed.
    Failed,
    /// The delay that was asked for has passed.
    DelayElapsed,
}

/// What the loop asks to be done next.
#[derive(Clone, Copy, Debug, PartialEq, Eq, Structural)]
pub enum Command {
    /// Open a connection to the bus.
    Connect,
    /// Subscribe to the topic filter.
    Subscribe,
    /// Wait for the next event of the bus.
    Poll,
    /// Wait for this many seconds.
    Sleep(u64),
}

/// The loop's answer to one event.
pub struct Reaction {
    /// What a message led to; `None` where the event was no message, or came
    /// while the loop was not streaming.
    pub outcome: Option<Outcome>,
    /// What is to be done next, after an alert has been sent.
    pub command: Command,
}

/// The phase that follows `phase` on `event`. A failure leads to the wait,
/// the end of the wait to a new connection; an event that the phase does
/// not wait for changes nothing.
pub open spec fn next_phase(phase: Phase, event: Event) -> Phase {
    match (phase, event) {
        (Phase::Connecting, Event::Connected) => Phase::Subscribing,
        (Phase::Subscribing, Event::Subscribed) => Phase::Streaming,
        (Phase::Connecting, Event::Failed) => Phase::BackoffWait,
        (Phase::Subscribing, Event::Failed) => Phase::BackoffWait,
        (Phase::Streaming, Event::Failed) => Phase::BackoffWait,
        (Phase::BackoffWait, Event::DelayElapsed) => Phase::Connecting,
        _ => phase,
    }
}

/// What a phase asks to be done.
pub open spec fn command_in(phase: Phase) -> Command {
    match phase {
        Phase::Connecting => Command::Connect,
        Phase::Subscribing => Command::Subscribe,
        Phase::Streaming => Command::Poll,
        Phase::BackoffWait => Command::Sleep(BACKOFF_SECONDS),
    }
}

/// The stored states after `event`: only a message that comes while the
/// loop is streaming can change them.
pub open spec fn next_loop_states(phase: Phase, states: Map<Seq<char>, bool>, event: Event) -> Map<
    Seq<char>,
    bool,
> {
    match (phase, event) {
        (Phase::Streaming, Event::Publish { topic, payload }) => states_after(
            states,
            topic@,
            payload@,
        ),
        _ => states,
    }
}

/// The text that `event` causes to be sent, if any.
pub open spec fn loop_alert(phase: Phase, states: Map<Seq<char>, bool>, event: Event) -> Option<
    Seq<char>,
> {
    match (phase, event) {
        (Phase::Streaming, Event::Publish { topic, payload }) => alert_of(states, topic@, payload@),
        _ => None,
    }
}

/// Whether `outcome` is what `event` leads to: what the message leads to
/// where a message comes while the loop is streaming, and `None` otherwise.
pub open spec fn is_loop_outcome(
    outcome: Option<Outcome>,
    phase: Phase,
    states: Map<Seq<char>, bool>,
    event: Event,
) -> bool {
    match (phase, event) {
        (Phase::Streaming, Event::Publish { topic, payload }) => outcome matches Some(found)
            && is_outcome_of(found, states, topic@, payload@),
        _ => outcome is None,
    }
}

/// The ingest loop's decisions: its phase and the device states it owns.
/// Whoever drives it carries out each command and reports the event that
/// follows.
pub struct IngestLoop {
    pub phase: Phase,
    pub cache: DeviceStateCache,
}

impl IngestLoop {
    /// A loop that is about to connect, on the given device states.
    pub fn new(cache: DeviceStateCache) -> (ingest: IngestLoop)
        ensures
            ingest.phase == Phase::Connecting,
            ingest.cache@ == cache@,
    {
        IngestLoop { phase: Phase::Connecting, cache }
    }

    /// What the loop's phase asks to be done.
    pub fn command(&self) -> (command: Command)
        ensures
            command == command_in(self.phase),
    {
        match self.phase {
            Phase::Connecting => Command::Connect,
            Phase::Subscribing => Command::Subscribe,
            Phase::Streaming => Command::Poll,
            Phase::BackoffWait => Command::Sleep(BACKOFF_SECONDS),
        }
    }

    /// Takes one event: moves to the next phase, holds a message against the
    /// device states, and says what to send and what to do next.
    pub fn step(&mut self, event: &Event) -> (reaction: Reaction)
        ensures
            final(self).phase == next_phase(old(self).phase, *event),
            final(self).cache@ == next_loop_states(old(self).phase, old(self).cache@, *event),
            reaction.command == command_in(final(self).phase),
            is_loop_outcome(reaction.outcome, old(self).phase, old(self).cache@, *event),
    {
        let mut outcome: Option<Outcome> = None;
        match self.phase {
            Phase::Connecting => {
                match event {
                    Event::Connected => {
                        self.phase = Phase::Subscribing;
                    },
                    Event::Failed => {
                        self.phase = Phase::BackoffWait;
                    },
                    _ => {},
                }
            },
            Phase::Subscribing => {
                match event {
                    Event::Subscribed => {
                        self.phase = Phase::Streaming;
                    },
                    Event::Failed => {
                        self.phase = Phase::BackoffWait;
                    },
                    _ => {},
                }
            },
            Phase::Streaming => {
                match event {
                    Event::Publish { topic, payload } => {
                        outcome =
                        Some(handle_publish(&mut self.cache, topic.as_str(), payload.as_slice()));
                    },
                    Event::Failed => {
                        self.phase = Phase::BackoffWait;
                    },
                    _ => {},
                }
            },
            Phase::BackoffWait => {
                match event {
                    Event::DelayElapsed => {
                        self.phase = Phase::Connecting;
                    },
                    _ => {},
                }
            },
        }
        Reaction { outcome, command: self.command() }
    }
}

/// A lost connection is taken up again: from any phase in which the bus is
/// used, a failure leads to a wait of `BACKOFF_SECONDS`, the end of the wait
/// to a new connection, the connection to a new subscription and the
/// subscription to streaming. None of these events touches the stored
/// states, so the next message is held against what was known before.
pub proof fn lemma_reconnect(phase: Phase, states: Map<Seq<char>, bool>)
    requires
        phase != Phase::BackoffWait,
    ensures
        next_phase(phase, Event::Failed) == Phase::BackoffWait,
        command_in(Phase::BackoffWait) == Command::Sleep(5),
        next_phase(Phase::BackoffWait, Event::DelayElapsed) == Phase::Connecting,
        command_in(Phase::Connecting) == Command::Connect,
        next_phase(Phase::Connecting, Event::Connected) == Phase::Subscribing,
        command_in(Phase::Subscribing) == Command::Subscribe,
        next_phase(Phase::Subscribing, Event::Subscribed) == Phase::Streaming,
        command_in(Phase::Streaming) == Command::Poll,
        next_loop_states(phase, states, Event::Failed) == states,
        next_loop_states(Phase::BackoffWait, states, Event::DelayElapsed) == states,
        next_loop_states(Phase::Connecting, states, Event::Connected) == states,
        next_loop_states(Phase::Subscribing, states, Event::Subscribed) == states,
{
}

/// Only a failure ends streaming: no message, whatever it holds, and no
/// other event moves the loop out of that phase.
pub proof fn lemma_only_failure_ends_streaming(event: Event)
    ensures
        next_phase(Phase::Streaming, event) != Phase::Streaming <==> event is Failed,
{
}

/// An event that is no message, or that comes while the loop is not
/// streaming, sends nothing and leaves the stored states as they were.
pub proof fn lemma_only_streamed_messages_count(
    phase: Phase,
    states: Map<Seq<char>, bool>,
    event: Event,
)
    requires
        phase != Phase::Streaming || !(event is Publish),
    ensures
        loop_alert(phase, states, event) is None,
        next_loop_states(phase, states, event) == states,
{
}

} // verus!
