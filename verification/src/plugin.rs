//! The event bridge: what each lifecycle event does to the gauges and which
//! log record it leaves.
//!
//! A handler finishes its update of the gauges before it returns and hands
//! the record back to its caller, who delivers it on a task of its own. No
//! handler waits for a delivery or learns how one ended.

use vstd::prelude::*;
use vstd::string::*;
use crate::config::Config;
use crate::logging::{unix_seconds, Log, LogView, Logger};
use crate::metrics::{Metrics, Snapshot};

verus! {

/// One lifecycle event of the host framework. An event is its payload and
/// nothing more: events are never told apart or matched up.
#[derive(Clone, Debug, PartialEq, Eq)]
pub enum Event {
    /// A player came online.
    PlayerJoin { username: String },
    /// A player went offline.
    PlayerLeave { username: String },
    /// A player said something.
    ChatMessage { username: String, text: String },
    /// A performance sample of one tick.
    Tick { tps: i64, latency: u64 },
}

/// The latency gauge after a sample: the sample itself while it fits the
/// gauge, and its two's complement reading beyond that.
pub open spec fn latency_reading(latency: u64) -> i64 {
    if latency <= i64::MAX {
        latency as i64
    } else {
        (latency - 0x1_0000_0000_0000_0000) as i64
    }
}

/// The gauges after an event: a join counts one player more, a leave one
/// less, a tick overwrites both samples, and a chat message changes nothing.
pub open spec fn gauges_after(gauges: Snapshot, event: Event) -> Snapshot {
    match event {
        Event::PlayerJoin { .. } => gauges.joined(),
        Event::PlayerLeave { .. } => gauges.left(),
        Event::ChatMessage { .. } => gauges,
        Event::Tick { tps, latency } => gauges.with_tps(tps).with_latency(latency_reading(latency)),
    }
}

/// The record an event leaves when it is handled at `timestamp`. A tick
/// leaves none: at tick frequency the log would grow without bound.
pub open spec fn record_of(event: Event, timestamp: u64) -> Option<LogView> {
    match event {
        Event::PlayerJoin { username } => Some(
            LogView { event: "player_join"@, username: username@, message: None, timestamp },
        ),
        Event::PlayerLeave { username } => Some(
            LogView { event: "player_leave"@, username: username@, message: None, timestamp },
        ),
        Event::ChatMessage { username, text } => Some(
            LogView { event: "chat_message"@, username: username@, message: Some(text@), timestamp },
        ),
        Event::Tick { .. } => None,
    }
}

/// The view of an optional record.
pub open spec fn optional_record(record: Option<Log>) -> Option<LogView> {
    match record {
        Some(log) => Some(log@),
        None => None,
    }
}

fn latency_value(latency: u64) -> (value: i64)
    ensures
        value == latency_reading(latency),
{
    if latency <= 0x7fff_ffff_ffff_ffff {
        latency as i64
    } else {
        let excess: u64 = latency - 0x8000_0000_0000_0000;
        excess as i64 + i64::MIN
    }
}

/// The bridge between the host framework and the telemetry: it owns the
/// registry and knows where the records go.
pub struct Plugin {
    metrics: Metrics,
    config: Config,
}

impl Plugin {
    /// The gauges as the bridge has left them.
    pub closed spec fn gauges(&self) -> Snapshot {
        self.metrics@
    }

    /// The configuration the bridge was made with.
    pub closed spec fn settings(&self) -> Config {
        self.config
    }

    /// Makes a bridge around a registry.
    pub fn new(metrics: Metrics, config: Config) -> (plugin: Plugin)
        ensures
            plugin.gauges() == metrics@,
            plugin.settings() == config,
    {
        Plugin { metrics, config }
    }

    /// The registry, for the exporter to read.
    pub fn metrics(&self) -> (metrics: &Metrics)
        ensures
            metrics@ == self.gauges(),
    {
        &self.metrics
    }

    /// The configuration the bridge was made with.
    pub fn config(&self) -> (config: &Config)
        ensures
            *config == self.settings(),
    {
        &self.config
    }

    /// The sink for the records of this bridge: the one at the configured log
    /// endpoint.
    pub fn logger(&self) -> (logger: Logger)
        ensures
            logger@ == self.settings().loki_endpoint@,
    {
        Logger::new(self.config.loki_endpoint.clone())
    }

    /// Handles an event that arrived at `timestamp`: updates the gauges and
    /// returns the record to deliver, if the event leaves one.
    pub fn apply(&mut self, event: &Event, timestamp: u64) -> (record: Option<Log>)
        ensures
            final(self).gauges() == gauges_after(old(self).gauges(), *event),
            final(self).settings() == old(self).settings(),
            optional_record(record) == record_of(*event, timestamp),
    {
        match event {
            Event::PlayerJoin { username } => {
                self.metrics.increment_player_count();
                Some(Log::stamped("player_join", username.as_str(), None, timestamp))
            },
            Event::PlayerLeave { username } => {
                self.metrics.decrement_player_count();
                Some(Log::stamped("player_leave", username.as_str(), None, timestamp))
            },
            Event::ChatMessage { username, text } => {
                Some(Log::stamped("chat_message", username.as_str(), Some(text.clone()), timestamp))
            },
            Event::Tick { tps, latency } => {
                self.metrics.set_tps(*tps);
                self.metrics.set_latency(latency_value(*latency));
                None
            },
        }
    }

    /// Handles an event now: as [`Plugin::apply`] with the reading of the
    /// system clock for the time stamp.
    pub fn handle(&mut self, event: &Event) -> (record: Option<Log>)
        ensures
            final(self).gauges() == gauges_after(old(self).gauges(), *event),
            final(self).settings() == old(self).settings(),
            record is None <==> event is Tick,
            record matches Some(log) ==> record_of(*event, log.timestamp) == Some(log@),
    {
        self.apply(event, unix_seconds())
    }

    /// A player came online: one player more, and a `player_join` record.
    pub fn on_player_join(&mut self, username: &str) -> (log: Log)
        ensures
            final(self).gauges() == old(self).gauges().joined(),
            final(self).settings() == old(self).settings(),
            log@ == (LogView {
                event: "player_join"@,
                username: username@,
                message: None,
                timestamp: log.timestamp,
            }),
    {
        self.metrics.increment_player_count();
        Log::new("player_join", username, None)
    }

    /// A player went offline: one player less, and a `player_leave` record.
    pub fn on_player_leave(&mut self, username: &str) -> (log: Log)
        ensures
            final(self).gauges() == old(self).gauges().left(),
            final(self).settings() == old(self).settings(),
            log@ == (LogView {
                event: "player_leave"@,
                username: username@,
                message: None,
                timestamp: log.timestamp,
            }),
    {
        self.metrics.decrement_player_count();
        Log::new("player_leave", username, None)
    }

    /// A player said something: a `chat_message` record that carries what was
    /// said. The gauges stay as they are.
    pub fn on_chat_message(&self, username: &str, message: &str) -> (log: Log)
        ensures
            log@ == (LogView {
                event: "chat_message"@,
                username: username@,
                message: Some(message@),
                timestamp: log.timestamp,
            }),
    {
        Log::new("chat_message", username, Some(message.to_owned()))
    }

    /// A tick was sampled: both samples overwrite their gauges. Nothing is
    /// logged.
    pub fn on_tick(&mut self, tps: i64, latency: u64)
        ensures
            final(self).gauges() == old(self).gauges().with_tps(tps).with_latency(
                latency_reading(latency),
            ),
            final(self).settings() == old(self).settings(),
    {
        self.metrics.set_tps(tps);
        self.metrics.set_latency(latency_value(latency));
    }
}

} // verus!
