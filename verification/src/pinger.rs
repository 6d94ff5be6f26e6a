//! The decisions of the pinging thread: what to report after each ping, how
//! long to wait before the next, and which messages change its settings.
use vstd::prelude::*;

use crate::settings::{ChannelMessage, Settings};

verus! {

/// Nanoseconds in one millisecond.
pub const NANOS_PER_MILLI: u128 = 1_000_000;

/// What running the ping command gave.
#[derive(Clone, Copy, PartialEq, Eq, Structural, Debug)]
pub enum PingOutcome {
    /// The command ran and reported a reply; `elapsed_nanos` is the time it
    /// took.
    Replied { elapsed_nanos: u128 },
    /// The command ran and reported no reply.
    NoReply { elapsed_nanos: u128 },
    /// The command could not be started.
    NotRun,
}

/// The whole milliseconds in `nanos`, capped at `u64::MAX`.
pub open spec fn millis_of(nanos: u128) -> u64 {
    if nanos / NANOS_PER_MILLI > u64::MAX {
        u64::MAX
    } else {
        (nanos / NANOS_PER_MILLI) as u64
    }
}

/// Law: the reported milliseconds are the whole milliseconds of the round
/// trip: times a million they do not exceed it, and one more millisecond would.
pub proof fn lemma_millis_are_whole_round_trip(nanos: u128)
    requires
        nanos / 1_000_000 <= u64::MAX,
    ensures
        millis_of(nanos) * 1_000_000 <= nanos,
        nanos < (millis_of(nanos) + 1) * 1_000_000,
{
    assert(nanos == (nanos / 1_000_000) * 1_000_000 + nanos % 1_000_000) by (nonlinear_arith);
}

/// How long the ping took as far as the pacing of pings goes: a command that
/// did not start took no time.
pub open spec fn ping_duration_nanos(outcome: PingOutcome) -> u128 {
    match outcome {
        PingOutcome::Replied { elapsed_nanos } => elapsed_nanos,
        PingOutcome::NoReply { elapsed_nanos } => elapsed_nanos,
        PingOutcome::NotRun => 0,
    }
}

/// How long to wait before the next ping, so that pings start `interval_nanos`
/// apart: the rest of the interval, or nothing when the ping took longer.
pub fn wait_before_next_ping(interval_nanos: u128, ping_nanos: u128) -> (r: u128)
    ensures
        r == (if interval_nanos >= ping_nanos {
            interval_nanos - ping_nanos
        } else {
            0
        }),
{
    if interval_nanos >= ping_nanos {
        interval_nanos - ping_nanos
    } else {
        0
    }
}

/// The state of the pinging thread.
pub struct Pinger<F> {
    settings: Settings<F>,
}

impl<F> Pinger<F> {
    /// The settings the thread pings with.
    pub closed spec fn spec_settings(&self) -> Settings<F> {
        self.settings
    }

    /// A pinger that starts with `settings`.
    pub fn new(settings: Settings<F>) -> (r: Self)
        ensures
            r.spec_settings() == settings,
    {
        Pinger { settings }
    }

    /// The settings the thread pings with.
    pub fn settings(&self) -> (r: &Settings<F>)
        ensures
            *r == self.spec_settings(),
    {
        &self.settings
    }

    /// Takes new settings from a `Settings` message; other messages change
    /// nothing.
    pub fn on_receive_channel_data(&mut self, data: ChannelMessage<F>)
        ensures
            final(self).spec_settings() == (match data {
                ChannelMessage::Settings { settings } => settings,
                _ => old(self).spec_settings(),
            }),
    {
        match data {
            ChannelMessage::Settings { settings } => {
                self.settings = settings;
            },
            _ => {},
        }
    }

    /// What to tell the interface after a ping, and how long the ping took for
    /// the pacing: a reply is reported with its round trip in whole
    /// milliseconds, a ping without reply as an error, and a command that did
    /// not start is not reported.
    pub fn after_ping(&self, outcome: PingOutcome) -> (r: (Option<ChannelMessage<F>>, u128))
        ensures
            r.1 == ping_duration_nanos(outcome),
            match outcome {
                PingOutcome::Replied { elapsed_nanos } => r.0 matches Some(
                    ChannelMessage::Update { ping_address, ping_result },
                ) && ping_address == self.spec_settings().ping_address && ping_result == Ok::<
                    u64,
                    (),
                >(millis_of(elapsed_nanos)),
                PingOutcome::NoReply { .. } => r.0 matches Some(
                    ChannelMessage::Update { ping_address, ping_result },
                ) && ping_address == self.spec_settings().ping_address && ping_result == Err::<
                    u64,
                    (),
                >(()),
                PingOutcome::NotRun => r.0 is None,
            },
    {
        match outcome {
            PingOutcome::Replied { elapsed_nanos } => {
                let ms = elapsed_nanos / NANOS_PER_MILLI;
                let ms: u64 = if ms > u64::MAX as u128 {
                    u64::MAX
                } else {
                    ms as u64
                };
                (
                    Some(
                        ChannelMessage::Update {
                            ping_address: self.settings.ping_address.clone(),
                            ping_result: Ok(ms),
                        },
                    ),
                    elapsed_nanos,
                )
            },
            PingOutcome::NoReply { elapsed_nanos } => (
                Some(
                    ChannelMessage::Update {
                        ping_address: self.settings.ping_address.clone(),
                        ping_result: Err(()),
                    },
                ),
                elapsed_nanos,
            ),
            PingOutcome::NotRun => (None, 0),
        }
    }
}

} // verus!
