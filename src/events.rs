//! The handle an application reads keys from, and its configuration.
use crate::channel::{
    clone_sender, duration_from_millis, key_channel, millis_duration, receiver_channel, recv_key,
    sender_channel,
};
use crate::key::Key;
use crate::pump::Pump;
use std::sync::mpsc::{Receiver, RecvError, Sender};
use std::time::Duration;
use vstd::prelude::*;

verus! {

/// The length of a tick when none is given, in milliseconds.
pub const DEFAULT_TICK_MILLIS: u64 = 250;

/// Configuration for event handling.
#[derive(Debug, Clone, Copy)]
pub struct EventConfig {
    /// The longest the pump waits for input before it sends a heartbeat.
    pub tick_rate: Duration,
}

impl EventConfig {
    /// A configuration whose tick lasts `ms` milliseconds.
    pub fn from_millis(ms: u64) -> (r: EventConfig)
        ensures
            r.tick_rate == millis_duration(ms),
    {
        EventConfig { tick_rate: duration_from_millis(ms) }
    }
}

impl Default for EventConfig {
    fn default() -> (r: EventConfig)
        ensures
            r.tick_rate == millis_duration(DEFAULT_TICK_MILLIS),
    {
        EventConfig::from_millis(DEFAULT_TICK_MILLIS)
    }
}

/// Key input merged with heartbeats, read one key at a time.
///
/// The handle owns the consuming end of the channel and one producer end,
/// kept only so that the channel stays open for as long as the handle
/// lives. The pump that feeds the channel is created with the handle and
/// handed out once, by `take_pump`, to be run on its own thread.
pub struct KeyEvents {
    rx: Receiver<Key>,
    _tx: Sender<Key>,
    pump: Option<Pump>,
}

impl KeyEvents {
    /// The pump not yet handed out, if any.
    pub closed spec fn pending_pump(&self) -> Option<Pump> {
        self.pump
    }

    /// The producer end the handle keeps belongs to the channel it reads.
    pub closed spec fn one_channel(&self) -> bool {
        receiver_channel(self.rx) == sender_channel(self._tx)
    }

    /// The channel the handle reads from.
    pub closed spec fn channel(&self) -> int {
        receiver_channel(self.rx)
    }

    /// Whether this handle still holds a fresh pump for `config`: one that
    /// has run no round, sent nothing, waits to poll, and sends into the
    /// channel this handle reads.
    pub open spec fn fresh_for(&self, config: EventConfig) -> bool {
        &&& self.one_channel()
        &&& self.pending_pump() is Some
        &&& self.pending_pump()->0.channel() == self.channel()
        &&& self.pending_pump()->0.wf()
        &&& self.pending_pump()->0.is_fresh()
        &&& self.pending_pump()->0.config() == config
    }

    /// A handle whose pump ticks every `tick_rate` milliseconds.
    pub fn new(tick_rate: u64) -> (r: KeyEvents)
        ensures
            r.fresh_for(EventConfig { tick_rate: millis_duration(tick_rate) }),
    {
        KeyEvents::with_config(EventConfig::from_millis(tick_rate))
    }

    /// A handle whose pump runs with the given configuration.
    pub fn with_config(config: EventConfig) -> (r: KeyEvents)
        ensures
            r.fresh_for(config),
    {
        let (tx, rx) = key_channel();
        let event_tx = clone_sender(&tx);
        let pump = Pump::new(event_tx, config);
        KeyEvents { rx, _tx: tx, pump: Some(pump) }
    }

    /// Hands out the pump, once: it is the one producer meant to send, and is
    /// to be run on a thread of its own.
    pub fn take_pump(&mut self) -> (p: Option<Pump>)
        ensures
            p == old(self).pending_pump(),
            final(self).pending_pump() is None,
            final(self).one_channel() == old(self).one_channel(),
            final(self).channel() == old(self).channel(),
    {
        self.pump.take()
    }

    /// Blocks until the next key is queued and returns it, in the order the
    /// pump sent them. The handle keeps a producer end of the channel, so
    /// the channel does not close under it and the read never fails. The
    /// pump must have been taken out (and be run elsewhere) first: a pump
    /// still held here could never send.
    pub fn next(&self) -> (r: Result<Key, RecvError>)
        requires
            self.one_channel(),
            self.pending_pump() is None,
        ensures
            r is Ok,
    {
        recv_key(&self.rx, &self._tx)
    }
}

} // verus!
