//! Counters that describe the health of each upstream channel.
use crate::models::disaster::ProviderChannel;
use std::time::{Duration, SystemTime, UNIX_EPOCH};
use vstd::prelude::*;

verus! {

/// Declares `std::time::SystemTime`, an opaque point in wall-clock time.
#[verifier::external_type_specification]
#[verifier::external_body]
pub struct ExSystemTime(SystemTime);

/// `SystemTime::now`: the current wall-clock time. Nothing is stated of the
/// value, which depends on the clock.
#[verifier::external_body]
fn system_now() -> SystemTime {
    SystemTime::now()
}

/// `SystemTime::duration_since(UNIX_EPOCH)`: the time elapsed since the Unix
/// epoch, `None` when the clock reads earlier than the epoch. Nothing is
/// stated of the value, which depends on the clock.
#[verifier::external_body]
fn since_unix_epoch(t: &SystemTime) -> Option<Duration> {
    t.duration_since(UNIX_EPOCH).ok()
}

/// `Duration::as_millis`: the whole milliseconds of `d`. Nothing is stated
/// of the value, since `Duration` is opaque here.
#[verifier::external_body]
fn duration_millis(d: &Duration) -> u128 {
    d.as_millis()
}

/// Milliseconds since the Unix epoch, saturated at `u64::MAX`, or 0 when the
/// clock reads earlier than the epoch. The reading is the clock's, so no
/// value is promised; [`epoch_ms`] states how a reading becomes the result.
fn current_epoch_ms() -> u64 {
    let elapsed_ms = match since_unix_epoch(&system_now()) {
        Some(d) => Some(duration_millis(&d)),
        None => None,
    };
    epoch_ms(elapsed_ms)
}

/// The milliseconds since the Unix epoch of a clock reading, given as the
/// whole milliseconds elapsed since the epoch (`None` when the reading is
/// earlier than the epoch): saturated at `u64::MAX`, and 0 for `None`.
fn epoch_ms(elapsed_ms: Option<u128>) -> (r: u64)
    ensures
        r == match elapsed_ms {
            Some(ms) => if ms > u64::MAX { u64::MAX } else { ms as u64 },
            None => 0u64,
        },
{
    match elapsed_ms {
        Some(ms) => {
            if ms > u64::MAX as u128 {
                u64::MAX
            } else {
                ms as u64
            }
        },
        None => 0,
    }
}

/// `x + 1` with wrap-around, as `fetch_add(1)` on an atomic counter gives it.
pub open spec fn bump(x: u64) -> u64 {
    if x == u64::MAX {
        0
    } else {
        (x + 1) as u64
    }
}

fn bumped(x: u64) -> (r: u64)
    ensures
        r == bump(x),
{
    if x == u64::MAX {
        0
    } else {
        x + 1
    }
}

/// The counters of one channel.
pub struct ChannelMetrics {
    connected: bool,
    last_message_epoch_ms: u64,
    reconnects: u64,
    messages: u64,
    parse_errors: u64,
    queue_depth: usize,
    queue_backpressure: u64,
    notifications_succeeded: u64,
    notifications_failed: u64,
}

/// The mathematical content of a [`ChannelMetrics`].
pub struct MetricsView {
    pub connected: bool,
    pub last_message_epoch_ms: u64,
    pub reconnects: u64,
    pub messages: u64,
    pub parse_errors: u64,
    pub queue_depth: usize,
    pub queue_backpressure: u64,
    pub notifications_succeeded: u64,
    pub notifications_failed: u64,
}

impl View for ChannelMetrics {
    type V = MetricsView;

    closed spec fn view(&self) -> MetricsView {
        MetricsView {
            connected: self.connected,
            last_message_epoch_ms: self.last_message_epoch_ms,
            reconnects: self.reconnects,
            messages: self.messages,
            parse_errors: self.parse_errors,
            queue_depth: self.queue_depth,
            queue_backpressure: self.queue_backpressure,
            notifications_succeeded: self.notifications_succeeded,
            notifications_failed: self.notifications_failed,
        }
    }
}

/// The counters of a channel that has seen nothing.
pub open spec fn fresh_metrics() -> MetricsView {
    MetricsView {
        connected: false,
        last_message_epoch_ms: 0,
        reconnects: 0,
        messages: 0,
        parse_errors: 0,
        queue_depth: 0,
        queue_backpressure: 0,
        notifications_succeeded: 0,
        notifications_failed: 0,
    }
}

/// A copy of the counters of one channel, for the status endpoint.
#[derive(Debug, Clone, Copy, PartialEq, Eq)]
pub struct ChannelSnapshot {
    pub connected: bool,
    pub last_message_epoch_ms: Option<u64>,
    pub reconnects: u64,
    pub messages: u64,
    pub parse_errors: u64,
    pub queue_depth: usize,
    pub queue_backpressure: u64,
    pub notifications_succeeded: u64,
    pub notifications_failed: u64,
}

/// The snapshot that the counters `m` give: a last-message time of 0 means
/// that no message was seen.
pub open spec fn snapshot_of(m: MetricsView) -> ChannelSnapshot {
    ChannelSnapshot {
        connected: m.connected,
        last_message_epoch_ms: if m.last_message_epoch_ms != 0 {
            Some(m.last_message_epoch_ms)
        } else {
            None
        },
        reconnects: m.reconnects,
        messages: m.messages,
        parse_errors: m.parse_errors,
        queue_depth: m.queue_depth,
        queue_backpressure: m.queue_backpressure,
        notifications_succeeded: m.notifications_succeeded,
        notifications_failed: m.notifications_failed,
    }
}

impl Default for ChannelMetrics {
    fn default() -> (r: Self)
        ensures
            r@ == fresh_metrics(),
    {
        ChannelMetrics {
            connected: false,
            last_message_epoch_ms: 0,
            reconnects: 0,
            messages: 0,
            parse_errors: 0,
            queue_depth: 0,
            queue_backpressure: 0,
            notifications_succeeded: 0,
            notifications_failed: 0,
        }
    }
}

impl ChannelMetrics {
    pub fn set_connected(&mut self, connected: bool)
        ensures
            final(self)@ == (MetricsView { connected, ..old(self)@ }),
    {
        self.connected = connected;
    }

    /// Counts a message received at `now_ms` (milliseconds since the epoch).
    pub fn record_message_at(&mut self, now_ms: u64)
        ensures
            final(self)@ == (MetricsView {
                messages: bump(old(self)@.messages),
                last_message_epoch_ms: now_ms,
                ..old(self)@
            }),
    {
        self.messages = bumped(self.messages);
        self.last_message_epoch_ms = now_ms;
    }

    /// Counts a message received now; the time stored is the clock's.
    pub fn record_message(&mut self)
        ensures
            final(self)@ == (MetricsView {
                messages: bump(old(self)@.messages),
                last_message_epoch_ms: final(self)@.last_message_epoch_ms,
                ..old(self)@
            }),
    {
        let now = current_epoch_ms();
        self.record_message_at(now);
    }

    pub fn record_reconnect(&mut self)
        ensures
            final(self)@ == (MetricsView { reconnects: bump(old(self)@.reconnects), ..old(self)@ }),
    {
        self.reconnects = bumped(self.reconnects);
    }

    pub fn record_parse_error(&mut self)
        ensures
            final(self)@ == (MetricsView { parse_errors: bump(old(self)@.parse_errors), ..old(self)@ }),
    {
        self.parse_errors = bumped(self.parse_errors);
    }

    pub fn set_queue_depth(&mut self, depth: usize)
        ensures
            final(self)@ == (MetricsView { queue_depth: depth, ..old(self)@ }),
    {
        self.queue_depth = depth;
    }

    pub fn record_queue_backpressure(&mut self)
        ensures
            final(self)@ == (MetricsView {
                queue_backpressure: bump(old(self)@.queue_backpressure),
                ..old(self)@
            }),
    {
        self.queue_backpressure = bumped(self.queue_backpressure);
    }

    /// Counts one delivered notification, as succeeded or as failed.
    pub fn record_notification(&mut self, succeeded: bool)
        ensures
            succeeded ==> final(self)@ == (MetricsView {
                notifications_succeeded: bump(old(self)@.notifications_succeeded),
                ..old(self)@
            }),
            !succeeded ==> final(self)@ == (MetricsView {
                notifications_failed: bump(old(self)@.notifications_failed),
                ..old(self)@
            }),
    {
        if succeeded {
            self.notifications_succeeded = bumped(self.notifications_succeeded);
        } else {
            self.notifications_failed = bumped(self.notifications_failed);
        }
    }

    pub fn snapshot(&self) -> (s: ChannelSnapshot)
        ensures
            s == snapshot_of(self@),
    {
        let last_message = self.last_message_epoch_ms;
        ChannelSnapshot {
            connected: self.connected,
            last_message_epoch_ms: if last_message != 0 {
                Some(last_message)
            } else {
                None
            },
            reconnects: self.reconnects,
            messages: self.messages,
            parse_errors: self.parse_errors,
            queue_depth: self.queue_depth,
            queue_backpressure: self.queue_backpressure,
            notifications_succeeded: self.notifications_succeeded,
            notifications_failed: self.notifications_failed,
        }
    }
}

/// The counters of both upstream channels.
pub struct RuntimeStatus {
    wolfx: ChannelMetrics,
    fanstudio: ChannelMetrics,
}

/// A copy of the counters of both channels.
#[derive(Debug, Clone, Copy, PartialEq, Eq)]
pub struct RuntimeStatusSnapshot {
    pub wolfx: ChannelSnapshot,
    pub fanstudio: ChannelSnapshot,
}

impl Default for RuntimeStatus {
    fn default() -> (r: Self)
        ensures
            r.wolfx_spec()@ == fresh_metrics(),
            r.fanstudio_spec()@ == fresh_metrics(),
    {
        RuntimeStatus { wolfx: ChannelMetrics::default(), fanstudio: ChannelMetrics::default() }
    }
}

impl RuntimeStatus {
    /// The counters of the Wolfx channel.
    pub closed spec fn wolfx_spec(&self) -> ChannelMetrics {
        self.wolfx
    }

    /// The counters of the FAN Studio channel.
    pub closed spec fn fanstudio_spec(&self) -> ChannelMetrics {
        self.fanstudio
    }

    /// The counters of `channel`.
    pub open spec fn channel_spec(&self, channel: ProviderChannel) -> ChannelMetrics {
        match channel {
            ProviderChannel::Wolfx => self.wolfx_spec(),
            ProviderChannel::FanStudio => self.fanstudio_spec(),
        }
    }

    pub fn channel(&self, channel: ProviderChannel) -> (m: &ChannelMetrics)
        ensures
            *m == self.channel_spec(channel),
    {
        match channel {
            ProviderChannel::Wolfx => &self.wolfx,
            ProviderChannel::FanStudio => &self.fanstudio,
        }
    }

    /// The counters of `channel`, to be updated; the other channel's stay.
    pub fn channel_mut(&mut self, channel: ProviderChannel) -> (m: &mut ChannelMetrics)
        ensures
            *m == old(self).channel_spec(channel),
            final(self).channel_spec(channel) == *final(m),
            channel is Wolfx ==> final(self).fanstudio_spec() == old(self).fanstudio_spec(),
            channel is FanStudio ==> final(self).wolfx_spec() == old(self).wolfx_spec(),
    {
        match channel {
            ProviderChannel::Wolfx => &mut self.wolfx,
            ProviderChannel::FanStudio => &mut self.fanstudio,
        }
    }

    pub fn wolfx(&self) -> (m: &ChannelMetrics)
        ensures
            *m == self.wolfx_spec(),
    {
        &self.wolfx
    }

    pub fn fanstudio(&self) -> (m: &ChannelMetrics)
        ensures
            *m == self.fanstudio_spec(),
    {
        &self.fanstudio
    }

    pub fn snapshot(&self) -> (s: RuntimeStatusSnapshot)
        ensures
            s.wolfx == snapshot_of(self.wolfx_spec()@),
            s.fanstudio == snapshot_of(self.fanstudio_spec()@),
    {
        RuntimeStatusSnapshot { wolfx: self.wolfx.snapshot(), fanstudio: self.fanstudio.snapshot() }
    }
}

} // verus!
