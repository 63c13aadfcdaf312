//! The decisions of the input pump: one round after another, wait for input
//! up to the tick rate, send the key pressed if any, then send a heartbeat.
//!
//! The pump does not touch the terminal itself. Whoever runs it performs the
//! action it asks for (poll, read) and hands the outcome back to `step`.
use crate::channel::{send_key, sender_channel};
use crate::events::EventConfig;
use crate::key::{Key, RawKey};
use crate::stream::{heartbeats_of, keys_of, lemma_keys_delivered_in_order, lemma_one_heartbeat_per_round, pressed, stream, Round};
use std::sync::mpsc::Sender;
use vstd::prelude::*;

verus! {

/// Where the pump stands in its round.
#[derive(Clone, Copy, Debug, PartialEq, Eq, Structural)]
pub enum PumpState {
    /// It waits to learn whether input came before the tick ran out.
    Polling,
    /// Input is ready; it waits for the event that was read.
    Reading,
    /// A poll, read or send failed, or an outcome came out of turn: it sends
    /// nothing more.
    Stopped,
}

/// An event read from the terminal.
#[derive(Clone, Copy, Debug, PartialEq, Eq, Structural)]
pub enum RawEvent {
    /// A key press.
    Key(RawKey),
    /// Anything else (mouse, resize, focus, paste).
    Other,
}

/// The outcome of the last action, handed back to the pump.
#[derive(Clone, Copy, Debug, PartialEq, Eq, Structural)]
pub enum PumpInput {
    /// The poll ended: `true` when input is ready, `false` on timeout.
    Polled(bool),
    /// The poll failed.
    PollFailed,
    /// The ready event was read.
    Read(RawEvent),
    /// Reading the ready event failed.
    ReadFailed,
}

/// What the pump asks for next.
#[derive(Clone, Copy, Debug)]
pub enum PumpAction {
    /// Wait for input for at most this long, then hand back `Polled`.
    Poll(std::time::Duration),
    /// Read one event, then hand back `Read`.
    Read,
    /// The pump has stopped for good.
    Stop,
}

/// The round that an outcome completes in the given state, if it completes
/// one: a timed-out poll, or a read after a ready poll.
pub open spec fn completed_round(state: PumpState, input: PumpInput) -> Option<Round> {
    match (state, input) {
        (PumpState::Polling, PumpInput::Polled(false)) => Some(Round::Quiet),
        (PumpState::Reading, PumpInput::Read(RawEvent::Key(raw))) => Some(Round::Pressed(raw)),
        (PumpState::Reading, PumpInput::Read(RawEvent::Other)) => Some(Round::Other),
        _ => None,
    }
}

/// The producer side of the stream: sends keys and heartbeats on its end of
/// the channel as the rounds complete.
pub struct Pump {
    tx: Sender<Key>,
    config: EventConfig,
    state: PumpState,
    /// The rounds completed so far.
    rounds: Ghost<Seq<Round>>,
    /// The keys sent so far, each send having succeeded.
    sent: Ghost<Seq<Key>>,
}

impl Pump {
    pub closed spec fn config(&self) -> EventConfig {
        self.config
    }

    /// The channel the pump sends into.
    pub closed spec fn channel(&self) -> int {
        sender_channel(self.tx)
    }

    pub closed spec fn state(&self) -> PumpState {
        self.state
    }

    pub closed spec fn rounds(&self) -> Seq<Round> {
        self.rounds@
    }

    pub closed spec fn sent(&self) -> Seq<Key> {
        self.sent@
    }

    /// A running pump has sent exactly the stream of its rounds; a stopped
    /// one has sent a prefix of it.
    pub open spec fn wf(&self) -> bool {
        if self.state() is Stopped {
            self.sent().is_prefix_of(stream(self.rounds()))
        } else {
            self.sent() == stream(self.rounds())
        }
    }

    /// Nothing has happened yet: no round, nothing sent, waiting to poll.
    pub open spec fn is_fresh(&self) -> bool {
        &&& self.state() is Polling
        &&& self.rounds() == Seq::<Round>::empty()
        &&& self.sent() == Seq::<Key>::empty()
    }

    /// A pump that sends on `tx`.
    pub fn new(tx: Sender<Key>, config: EventConfig) -> (p: Pump)
        ensures
            p.wf(),
            p.is_fresh(),
            p.config() == config,
            p.channel() == sender_channel(tx),
    {
        Pump {
            tx,
            config,
            state: PumpState::Polling,
            rounds: Ghost(Seq::empty()),
            sent: Ghost(Seq::empty()),
        }
    }

    /// The first action: poll for one tick.
    pub fn start(&self) -> (a: PumpAction)
        ensures
            self.state() is Stopped ==> a is Stop,
            !(self.state() is Stopped) ==> a == PumpAction::Poll(self.config().tick_rate),
    {
        match self.state {
            PumpState::Stopped => PumpAction::Stop,
            _ => PumpAction::Poll(self.config.tick_rate),
        }
    }

    /// Sends one key and records it if the send succeeded; stops otherwise.
    fn send(&mut self, k: Key) -> (ok: bool)
        ensures
            final(self).config == old(self).config,
            final(self).rounds == old(self).rounds,
            final(self).tx == old(self).tx,
            ok ==> final(self).state == old(self).state && final(self).sent@ == old(self).sent@.push(k),
            !ok ==> final(self).state is Stopped && final(self).sent == old(self).sent,
    {
        match send_key(&self.tx, k) {
            Ok(()) => {
                self.sent = Ghost(self.sent@.push(k));
                true
            },
            Err(_) => {
                self.state = PumpState::Stopped;
                false
            },
        }
    }

    /// Takes the outcome of the last action and returns the next one.
    ///
    /// A ready poll asks for a read. A timed-out poll sends a heartbeat; a
    /// read key press sends the decoded key and then a heartbeat; any other
    /// read event sends a heartbeat only. After a completed round the pump
    /// polls again for one tick. A failed poll or read, a failed send, or an
    /// outcome that does not answer the last action stops the pump.
    pub fn step(&mut self, input: PumpInput) -> (a: PumpAction)
        requires
            old(self).wf(),
        ensures
            final(self).wf(),
            final(self).config() == old(self).config(),
            final(self).channel() == old(self).channel(),
            old(self).state() is Polling && input == PumpInput::Polled(true) ==> {
                &&& a is Read
                &&& final(self).state() is Reading
                &&& final(self).rounds() == old(self).rounds()
                &&& final(self).sent() == old(self).sent()
            },
            completed_round(old(self).state(), input) matches Some(r) ==> {
                &&& final(self).rounds() == old(self).rounds().push(r)
                &&& final(self).state() is Polling ==> a == PumpAction::Poll(
                    old(self).config().tick_rate,
                )
                &&& final(self).state() is Stopped ==> a is Stop
                &&& final(self).state() is Stopped ==> final(self).sent() != stream(
                    final(self).rounds(),
                )
                &&& !(final(self).state() is Reading)
            },
            !(old(self).state() is Polling && input == PumpInput::Polled(true))
                && completed_round(old(self).state(), input) is None ==> {
                &&& a is Stop
                &&& final(self).state() is Stopped
                &&& final(self).rounds() == old(self).rounds()
                &&& final(self).sent() == old(self).sent()
            },
    {
        match (self.state, input) {
            (PumpState::Polling, PumpInput::Polled(true)) => {
                self.state = PumpState::Reading;
                PumpAction::Read
            },
            (PumpState::Polling, PumpInput::Polled(false)) => {
                self.finish_round(Round::Quiet, None)
            },
            (PumpState::Reading, PumpInput::Read(RawEvent::Key(raw))) => {
                self.finish_round(Round::Pressed(raw), Some(Key::from_raw(raw)))
            },
            (PumpState::Reading, PumpInput::Read(RawEvent::Other)) => {
                self.finish_round(Round::Other, None)
            },
            _ => {
                self.state = PumpState::Stopped;
                PumpAction::Stop
            },
        }
    }

    /// Sends what the round `r` yields: `key` if one was pressed, then the
    /// heartbeat.
    fn finish_round(&mut self, r: Round, key: Option<Key>) -> (a: PumpAction)
        requires
            !(old(self).state is Stopped),
            old(self).sent@ == stream(old(self).rounds@),
            key == (match r {
                Round::Pressed(raw) => Some(crate::key::decoded(raw)),
                _ => None,
            }),
        ensures
            final(self).wf(),
            final(self).config == old(self).config,
            final(self).rounds@ == old(self).rounds@.push(r),
            final(self).state is Polling || final(self).state is Stopped,
            final(self).state is Polling ==> a == PumpAction::Poll(old(self).config.tick_rate),
            final(self).state is Stopped ==> a is Stop,
            final(self).state is Stopped ==> final(self).sent@ != stream(final(self).rounds@),
            final(self).tx == old(self).tx,
    {
        let ghost before = self.sent@;
        self.rounds = Ghost(self.rounds@.push(r));
        proof {
            assert(stream(self.rounds@) == before + crate::stream::round_keys(r)) by {
                assert(self.rounds@.drop_last() =~= old(self).rounds@);
            }
        }
        self.state = PumpState::Polling;
        if let Some(k) = key {
            if !self.send(k) {
                proof {
                    assert(self.sent@ == before);
                    assert(before.is_prefix_of(stream(self.rounds@)));
                    assert(stream(self.rounds@).len() > before.len());
                }
                return PumpAction::Stop;
            }
        }
        let ok = self.send(Key::Tick);
        proof {
            if ok {
                assert(self.sent@ =~= before + crate::stream::round_keys(r));
            } else {
                assert(self.sent@.is_prefix_of(stream(self.rounds@)));
                assert(stream(self.rounds@).len() > self.sent@.len());
            }
        }
        if ok {
            PumpAction::Poll(self.config.tick_rate)
        } else {
            PumpAction::Stop
        }
    }
}

/// A running pump has sent exactly the stream of its rounds, nothing
/// reordered, repeated or lost: every key pressed, in the order pressed, and
/// one heartbeat per round.
pub proof fn lemma_running_pump_sent_its_stream(p: &Pump)
    requires
        p.wf(),
        !(p.state() is Stopped),
    ensures
        p.sent() == stream(p.rounds()),
        keys_of(p.sent()) == pressed(p.rounds()),
        heartbeats_of(p.sent()).len() == p.rounds().len(),
{
    lemma_keys_delivered_in_order(p.rounds());
    lemma_one_heartbeat_per_round(p.rounds());
}

} // verus!
