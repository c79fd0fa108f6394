use ovpn3_orchestrator::fanout::{LogChannel, LogCursor, LOG_BACKLOG_CAPACITY};
use ovpn3_orchestrator::signals::LogMessage;

fn event(n: u32) -> LogMessage {
    LogMessage {
        path: String::from("/net/openvpn/v3/backends/b1"),
        member: String::from("Log"),
        first_flag: n,
        second_flag: 0,
        message: format!("event {}", n),
    }
}

#[test]
fn events_arrive_in_publish_order() {
    let mut channel = LogChannel::new(LOG_BACKLOG_CAPACITY);
    let mut observer = channel.subscribe();
    channel.publish(event(1));
    channel.publish(event(2));
    channel.publish(event(3));
    assert_eq!(channel.recv(&mut observer), Some(event(1)));
    assert_eq!(channel.recv(&mut observer), Some(event(2)));
    assert_eq!(channel.recv(&mut observer), Some(event(3)));
    assert_eq!(channel.recv(&mut observer), None);
}

#[test]
fn new_observer_sees_only_future_events() {
    let mut channel = LogChannel::new(LOG_BACKLOG_CAPACITY);
    channel.publish(event(1));
    let mut observer = channel.subscribe();
    assert_eq!(channel.recv(&mut observer), None);
    channel.publish(event(2));
    assert_eq!(channel.recv(&mut observer), Some(event(2)));
}

#[test]
fn lagging_observer_misses_only_the_oldest_events() {
    // Capacity 4, six events published: the two oldest are dropped, and a
    // fully lagged observer resumes at the oldest retained event.
    let mut channel = LogChannel::new(4);
    let mut observer = LogCursor { next: 0 };
    for n in 1..=6 {
        channel.publish(event(n));
    }
    assert_eq!(channel.recv(&mut observer), Some(event(3)));
    assert_eq!(channel.recv(&mut observer), Some(event(4)));
    assert_eq!(channel.recv(&mut observer), Some(event(5)));
    assert_eq!(channel.recv(&mut observer), Some(event(6)));
    assert_eq!(channel.recv(&mut observer), None);
}

#[test]
fn prompt_observer_misses_nothing_at_the_capacity_boundary() {
    let mut channel = LogChannel::new(2);
    let mut observer = channel.subscribe();
    channel.publish(event(1));
    channel.publish(event(2));
    assert_eq!(channel.recv(&mut observer), Some(event(1)));
    channel.publish(event(3));
    assert_eq!(channel.recv(&mut observer), Some(event(2)));
    assert_eq!(channel.recv(&mut observer), Some(event(3)));
    assert_eq!(channel.recv(&mut observer), None);
}

#[test]
fn default_backlog_capacity_is_sixteen() {
    assert_eq!(LOG_BACKLOG_CAPACITY, 16);
    // Seventeen events through a default channel: a fully lagged observer
    // has lost exactly the first one.
    let mut channel = LogChannel::new(LOG_BACKLOG_CAPACITY);
    let mut observer = LogCursor { next: 0 };
    for n in 1..=17 {
        channel.publish(event(n));
    }
    assert_eq!(channel.recv(&mut observer), Some(event(2)));
}
