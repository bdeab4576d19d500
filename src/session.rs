//! The decisions of the probe loop, one round at a time.
//!
//! The caller owns the transport and the clocks. Each round it asks
//! `begin_round` for the bytes to send, waits at most `timeout_secs` for a
//! datagram, discards whatever else arrives within `drain_window_millis`,
//! hands what happened to `complete_round`, presents the outcome it gets
//! back, pauses `pause_millis`, and starts over until `is_finished`.
use crate::protocol::{decode_reply, ping_frame, OfflinePingPacket, OfflinePongPacket};
use vstd::prelude::*;

verus! {

/// Wait for a reply, in seconds, unless configured otherwise.
pub const DEFAULT_TIMEOUT_SECS: u64 = 3;

/// Window in which stray datagrams are discarded after each round.
pub const DEFAULT_DRAIN_WINDOW_MILLIS: u64 = 1;

/// Pause between rounds.
pub const DEFAULT_PAUSE_MILLIS: u64 = 1000;

/// How a probe run is configured.
pub struct ProbeConfig {
    /// Longest wait for a reply, in seconds.
    pub timeout_secs: u64,
    /// Window in which extra datagrams are discarded after each round.
    pub drain_window_millis: u64,
    /// Pause between rounds.
    pub pause_millis: u64,
    /// Number of rounds to run; `None` runs without end.
    pub max_rounds: Option<u64>,
    /// Whether the status text is shown beside the latency.
    pub show_status: bool,
}

/// The round limit that a signed count stands for: a negative count (the
/// command line's `-1`) means no limit.
pub fn round_limit(count: i32) -> (r: Option<u64>)
    ensures
        count < 0 ==> r is None,
        count >= 0 ==> r == Some(count as u64),
{
    if count < 0 {
        None
    } else {
        Some(count as u64)
    }
}

impl ProbeConfig {
    /// The usual settings for a run of `max_rounds` rounds.
    pub fn with_defaults(max_rounds: Option<u64>, show_status: bool) -> (r: Self)
        ensures
            r.timeout_secs == DEFAULT_TIMEOUT_SECS,
            r.drain_window_millis == DEFAULT_DRAIN_WINDOW_MILLIS,
            r.pause_millis == DEFAULT_PAUSE_MILLIS,
            r.max_rounds == max_rounds,
            r.show_status == show_status,
    {
        ProbeConfig {
            timeout_secs: DEFAULT_TIMEOUT_SECS,
            drain_window_millis: DEFAULT_DRAIN_WINDOW_MILLIS,
            pause_millis: DEFAULT_PAUSE_MILLIS,
            max_rounds,
            show_status,
        }
    }
}

/// Where a round stands.
pub enum RoundPhase {
    /// No request is outstanding.
    Idle,
    /// A request went out at this reading of the monotonic clock.
    Sent { sent_at_millis: u64 },
}

/// What the transport reported for the outstanding request.
pub enum ReplyEvent {
    /// Nothing arrived within the timeout.
    TimedOut,
    /// A datagram arrived at this reading of the monotonic clock.
    Datagram { received_at_millis: u64, bytes: Vec<u8> },
}

/// What a round came to, for the caller to present.
pub enum RoundOutcome {
    /// A reply that decoded.
    Success { latency_millis: u64, byte_count: usize, server_id: u64, status_text: String },
    /// A datagram that did not decode as a reply.
    MalformedReply,
    /// No datagram within the timeout.
    Timeout,
}

/// Milliseconds between sending and receiving; readings out of order count
/// as no time at all.
pub open spec fn latency_of(sent_at: u64, received_at: u64) -> u64 {
    if sent_at <= received_at {
        (received_at - sent_at) as u64
    } else {
        0
    }
}

/// Milliseconds between two readings of a monotonic clock.
pub fn latency_millis(sent_at: u64, received_at: u64) -> (r: u64)
    ensures
        r == latency_of(sent_at, received_at),
{
    if sent_at <= received_at {
        received_at - sent_at
    } else {
        0
    }
}

/// A reply received after its request was sent has as latency the time
/// between the two readings, which is never negative.
pub proof fn law_latency_non_negative(sent_at: u64, received_at: u64)
    requires
        sent_at <= received_at,
    ensures
        latency_of(sent_at, received_at) == received_at - sent_at,
        latency_of(sent_at, received_at) >= 0,
{
}

/// Whether `outcome` is what a round that was sent at `sent_at` comes to on
/// `event`.
pub open spec fn outcome_of(sent_at: u64, event: ReplyEvent, outcome: RoundOutcome) -> bool {
    match event {
        ReplyEvent::TimedOut => outcome is Timeout,
        ReplyEvent::Datagram { received_at_millis, bytes } => match decode_reply(bytes@) {
            None => outcome is MalformedReply,
            Some(reply) => match outcome {
                RoundOutcome::Success { latency_millis, byte_count, server_id, status_text } => {
                    &&& latency_millis == latency_of(sent_at, received_at_millis)
                    &&& byte_count == bytes@.len()
                    &&& server_id == reply.1
                    &&& status_text@ == reply.2
                },
                _ => false,
            },
        },
    }
}

/// Relies on rand's `random::<u64>`: some 64-bit value, nothing more is known.
#[verifier::external_body]
fn draw_probe_id() -> (r: u64) {
    rand::random::<u64>()
}

/// The state of a probe run.
pub struct ProbeSession {
    pub config: ProbeConfig,
    /// Rounds completed so far.
    pub rounds_done: u64,
    pub phase: RoundPhase,
}

impl ProbeSession {
    /// Whether the configured number of rounds has been reached.
    pub open spec fn finished(&self) -> bool {
        match self.config.max_rounds {
            Some(m) => self.rounds_done >= m,
            None => false,
        }
    }

    /// A session that has run no round yet.
    pub fn new(config: ProbeConfig) -> (r: Self)
        ensures
            r.config == config,
            r.rounds_done == 0,
            r.phase is Idle,
    {
        ProbeSession { config, rounds_done: 0, phase: RoundPhase::Idle }
    }

    /// Whether the run is over.
    pub fn is_finished(&self) -> (r: bool)
        ensures
            r == self.finished(),
    {
        match self.config.max_rounds {
            Some(m) => self.rounds_done >= m,
            None => false,
        }
    }

    /// Starts a round with the given probe identifier: the request stamped
    /// `issued_at_millis` (wall clock) is returned for sending, and
    /// `sent_at_millis` (monotonic clock) is kept to time the reply.
    pub fn begin_round_with_id(&mut self, issued_at_millis: u64, sent_at_millis: u64, probe_id: u64) -> (r: Vec<u8>)
        requires
            old(self).phase is Idle,
        ensures
            r@ == ping_frame(issued_at_millis, probe_id),
            final(self).phase == (RoundPhase::Sent { sent_at_millis }),
            final(self).rounds_done == old(self).rounds_done,
            final(self).config == old(self).config,
    {
        let request = OfflinePingPacket { start_time: issued_at_millis, client_id: probe_id };
        self.phase = RoundPhase::Sent { sent_at_millis };
        request.encode()
    }

    /// Starts a round under a fresh random probe identifier.
    pub fn begin_round(&mut self, issued_at_millis: u64, sent_at_millis: u64) -> (r: Vec<u8>)
        requires
            old(self).phase is Idle,
        ensures
            exists|id: u64| r@ == ping_frame(issued_at_millis, id),
            final(self).phase == (RoundPhase::Sent { sent_at_millis }),
            final(self).rounds_done == old(self).rounds_done,
            final(self).config == old(self).config,
    {
        let probe_id = draw_probe_id();
        self.begin_round_with_id(issued_at_millis, sent_at_millis, probe_id)
    }

    /// Ends the outstanding round on what the transport reported, and counts
    /// it.
    pub fn complete_round(&mut self, event: ReplyEvent) -> (r: RoundOutcome)
        requires
            old(self).phase is Sent,
        ensures
            outcome_of(old(self).phase->sent_at_millis, event, r),
            final(self).phase is Idle,
            final(self).rounds_done == if old(self).rounds_done < u64::MAX {
                old(self).rounds_done + 1
            } else {
                old(self).rounds_done as int
            },
            final(self).config == old(self).config,
    {
        let sent_at = match self.phase {
            RoundPhase::Sent { sent_at_millis } => sent_at_millis,
            RoundPhase::Idle => 0,
        };
        let outcome = match event {
            ReplyEvent::TimedOut => RoundOutcome::Timeout,
            ReplyEvent::Datagram { received_at_millis, bytes } => {
                let byte_count = bytes.len();
                match OfflinePongPacket::decode(bytes) {
                    None => RoundOutcome::MalformedReply,
                    Some(reply) => RoundOutcome::Success {
                        latency_millis: latency_millis(sent_at, received_at_millis),
                        byte_count,
                        server_id: reply.server_id,
                        status_text: reply.motd,
                    },
                }
            },
        };
        self.phase = RoundPhase::Idle;
        if self.rounds_done < u64::MAX {
            self.rounds_done = self.rounds_done + 1;
        }
        outcome
    }
}

} // verus!
