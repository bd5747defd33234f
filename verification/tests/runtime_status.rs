use disaster_alert::models::disaster::ProviderChannel;
use disaster_alert::services::runtime_status::{ChannelMetrics, RuntimeStatus};

#[test]
fn fresh_status_reports_nothing_seen() {
    let status = RuntimeStatus::default();
    let snapshot = status.snapshot();
    assert!(!snapshot.wolfx.connected);
    assert_eq!(snapshot.wolfx.last_message_epoch_ms, None);
    assert_eq!(snapshot.fanstudio.messages, 0);
}

#[test]
fn counters_follow_the_events_of_their_channel() {
    let mut status = RuntimeStatus::default();
    {
        let wolfx = status.channel_mut(ProviderChannel::Wolfx);
        wolfx.set_connected(true);
        wolfx.record_message_at(1_700_000_000_000);
        wolfx.record_message_at(1_700_000_000_500);
        wolfx.record_reconnect();
        wolfx.record_parse_error();
        wolfx.set_queue_depth(7);
        wolfx.record_queue_backpressure();
        wolfx.record_notification(true);
        wolfx.record_notification(false);
        wolfx.record_notification(false);
    }
    status.channel_mut(ProviderChannel::FanStudio).record_message();
    let snapshot = status.snapshot();
    assert!(snapshot.wolfx.connected);
    assert_eq!(snapshot.wolfx.last_message_epoch_ms, Some(1_700_000_000_500));
    assert_eq!(snapshot.wolfx.messages, 2);
    assert_eq!(snapshot.wolfx.reconnects, 1);
    assert_eq!(snapshot.wolfx.parse_errors, 1);
    assert_eq!(snapshot.wolfx.queue_depth, 7);
    assert_eq!(snapshot.wolfx.queue_backpressure, 1);
    assert_eq!(snapshot.wolfx.notifications_succeeded, 1);
    assert_eq!(snapshot.wolfx.notifications_failed, 2);
    assert_eq!(snapshot.fanstudio.messages, 1);
    assert!(snapshot.fanstudio.last_message_epoch_ms.is_some());
    assert_eq!(status.channel(ProviderChannel::Wolfx).snapshot(), snapshot.wolfx);
    assert_eq!(status.wolfx().snapshot(), snapshot.wolfx);
    assert_eq!(status.fanstudio().snapshot(), snapshot.fanstudio);
}

#[test]
fn a_zero_timestamp_reads_as_no_message() {
    let mut metrics = ChannelMetrics::default();
    metrics.record_message_at(0);
    let snapshot = metrics.snapshot();
    assert_eq!(snapshot.messages, 1);
    assert_eq!(snapshot.last_message_epoch_ms, None);
}
