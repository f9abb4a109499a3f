use encoder_firmware::channel::{NotificationChannel, Received, CHANNEL_CAPACITY};

#[test]
fn new_channel_is_open_and_empty() {
    let mut channel = NotificationChannel::new();
    assert!(channel.is_empty());
    assert!(!channel.is_full());
    assert!(!channel.is_closed());
    assert_eq!(channel.len(), 0);
    assert_eq!(channel.try_receive(), Received::Empty);
}

#[test]
fn capacity_is_five() {
    assert_eq!(CHANNEL_CAPACITY, 5);
}

#[test]
fn send_to_full_channel_returns_false_at_once() {
    let mut channel = NotificationChannel::new();
    for _ in 0..5 {
        assert!(channel.try_send(true));
    }
    assert!(channel.is_full());
    assert_eq!(channel.len(), 5);
    for _ in 0..100 {
        assert!(!channel.try_send(true));
        assert_eq!(channel.len(), 5);
    }
}

#[test]
fn refused_send_leaves_the_queue_as_it_was() {
    let mut channel = NotificationChannel::new();
    for signal in [true, false, true, true, false] {
        assert!(channel.try_send(signal));
    }
    assert!(!channel.try_send(true));
    let mut got = Vec::new();
    while let Received::Signal(signal) = channel.try_receive() {
        got.push(signal);
    }
    assert_eq!(got, vec![true, false, true, true, false]);
}

#[test]
fn signals_come_out_in_order_across_the_wrap() {
    let mut channel = NotificationChannel::new();
    let mut sent = Vec::new();
    let mut got = Vec::new();
    let mut next = false;
    for round in 0..23usize {
        for _ in 0..(round % 4 + 1) {
            if channel.try_send(next) {
                sent.push(next);
            }
            next = !next || round % 3 == 0;
        }
        for _ in 0..(round % 3 + 1) {
            if let Received::Signal(signal) = channel.try_receive() {
                got.push(signal);
            }
        }
        assert!(channel.len() <= 5);
        assert_eq!(channel.len(), sent.len() - got.len());
    }
    while let Received::Signal(signal) = channel.try_receive() {
        got.push(signal);
    }
    assert_eq!(got, sent);
}

#[test]
fn room_returns_after_a_receive() {
    let mut channel = NotificationChannel::new();
    for _ in 0..5 {
        assert!(channel.try_send(false));
    }
    assert!(!channel.try_send(true));
    assert_eq!(channel.try_receive(), Received::Signal(false));
    assert!(channel.try_send(true));
    assert!(!channel.try_send(true));
    for _ in 0..4 {
        assert_eq!(channel.try_receive(), Received::Signal(false));
    }
    assert_eq!(channel.try_receive(), Received::Signal(true));
    assert_eq!(channel.try_receive(), Received::Empty);
}

#[test]
fn receive_from_empty_changes_nothing() {
    let mut channel = NotificationChannel::new();
    for _ in 0..3 {
        assert_eq!(channel.try_receive(), Received::Empty);
        assert!(channel.is_empty());
    }
    assert!(channel.try_send(true));
    assert_eq!(channel.try_receive(), Received::Signal(true));
}

#[test]
fn closed_channel_drains_then_reports_closed() {
    let mut channel = NotificationChannel::new();
    assert!(channel.try_send(true));
    assert!(channel.try_send(false));
    channel.close();
    assert!(channel.is_closed());
    assert_eq!(channel.len(), 2);
    assert_eq!(channel.try_receive(), Received::Signal(true));
    assert_eq!(channel.try_receive(), Received::Signal(false));
    assert_eq!(channel.try_receive(), Received::Closed);
    assert_eq!(channel.try_receive(), Received::Closed);
}

#[test]
fn closed_channel_refuses_sends() {
    let mut channel = NotificationChannel::new();
    channel.close();
    assert!(!channel.try_send(true));
    assert!(channel.is_empty());
    assert_eq!(channel.try_receive(), Received::Closed);
}
