use encoder_firmware::channel::{NotificationChannel, Received};
use encoder_firmware::encoder::{Direction, EncoderState, History};
use encoder_firmware::interrupts::{
    on_button_edge, on_interrupt, on_quadrature_edge, PendingLines, Requested, WAKE,
};
use encoder_firmware::message::{DisplayMessage, ANTICLOCKWISE_LABEL, CLOCKWISE_LABEL};

#[test]
fn clockwise_run_from_rest_asks_for_one_render() {
    let mut encoder = EncoderState::new();
    let mut channel = NotificationChannel::new();
    assert_eq!(
        encoder.history,
        History { ps1: true, ps2: true, pps1: true, pps2: true }
    );
    assert_eq!(on_quadrature_edge(&mut encoder, &mut channel, true, false), None);
    assert_eq!(on_quadrature_edge(&mut encoder, &mut channel, false, false), None);
    assert!(channel.is_empty());
    let render = on_quadrature_edge(&mut encoder, &mut channel, false, true);
    assert_eq!(encoder.counter(), 1);
    let message = render.expect("a tick asks for a render");
    assert!(message.text.as_bytes().ends_with(CLOCKWISE_LABEL.as_bytes()));
    assert_eq!(message.text.as_bytes(), b"1 clockwise");
    assert_eq!(message, DisplayMessage::tick(1, Direction::Clockwise));
    assert_eq!(channel.len(), 1);
    assert_eq!(channel.try_receive(), Received::Signal(WAKE));
}

#[test]
fn anticlockwise_run_from_rest_asks_for_one_render() {
    let mut encoder = EncoderState::new();
    let mut channel = NotificationChannel::new();
    assert_eq!(on_quadrature_edge(&mut encoder, &mut channel, false, true), None);
    assert_eq!(on_quadrature_edge(&mut encoder, &mut channel, false, false), None);
    assert!(channel.is_empty());
    let render = on_quadrature_edge(&mut encoder, &mut channel, true, false);
    assert_eq!(encoder.counter(), -1);
    let message = render.expect("a tick asks for a render");
    assert!(message.text.as_bytes().ends_with(ANTICLOCKWISE_LABEL.as_bytes()));
    assert_eq!(message.text.as_bytes(), b"-1 anticlockwise");
    assert_eq!(channel.len(), 1);
}

#[test]
fn noise_asks_for_nothing() {
    let mut encoder = EncoderState::new();
    let mut channel = NotificationChannel::new();
    for (s1, s2) in [(true, false), (true, true), (false, true), (true, true), (true, true)] {
        assert_eq!(on_quadrature_edge(&mut encoder, &mut channel, s1, s2), None);
    }
    assert_eq!(encoder.counter(), 0);
    assert!(channel.is_empty());
}

#[test]
fn button_resets_and_asks_for_a_render() {
    let mut encoder = EncoderState { counter: -17, history: History::new() };
    let mut channel = NotificationChannel::new();
    let message = on_button_edge(&mut encoder, &mut channel);
    assert_eq!(encoder.counter(), 0);
    assert_eq!(message.text.as_bytes(), b"0 button pushed");
    assert_eq!(message, DisplayMessage::button(0));
    assert_eq!(channel.try_receive(), Received::Signal(WAKE));
    assert_eq!(channel.try_receive(), Received::Empty);
}

#[test]
fn full_channel_never_stops_a_handler() {
    let mut encoder = EncoderState::new();
    let mut channel = NotificationChannel::new();
    for _ in 0..5 {
        assert!(channel.try_send(false));
    }
    for turn in 1..=8 {
        on_quadrature_edge(&mut encoder, &mut channel, true, false);
        on_quadrature_edge(&mut encoder, &mut channel, false, false);
        let render = on_quadrature_edge(&mut encoder, &mut channel, false, true);
        assert_eq!(render, Some(DisplayMessage::tick(turn, Direction::Clockwise)));
        on_quadrature_edge(&mut encoder, &mut channel, true, true);
        assert_eq!(channel.len(), 5);
    }
    assert_eq!(encoder.counter(), 8);
    let message = on_button_edge(&mut encoder, &mut channel);
    assert_eq!(message, DisplayMessage::button(0));
    assert_eq!(encoder.counter(), 0);
    // What was queued before is still all there, and nothing else.
    for _ in 0..5 {
        assert_eq!(channel.try_receive(), Received::Signal(false));
    }
    assert_eq!(channel.try_receive(), Received::Empty);
}

#[test]
fn closed_channel_never_stops_a_handler() {
    let mut encoder = EncoderState::new();
    let mut channel = NotificationChannel::new();
    channel.close();
    on_quadrature_edge(&mut encoder, &mut channel, false, true);
    on_quadrature_edge(&mut encoder, &mut channel, false, false);
    let render = on_quadrature_edge(&mut encoder, &mut channel, true, false);
    assert_eq!(render, Some(DisplayMessage::tick(-1, Direction::Anticlockwise)));
    assert!(channel.is_empty());
}

fn lines(button: bool, s1: bool, s2: bool) -> PendingLines {
    PendingLines { button, s1, s2 }
}

#[test]
fn pass_with_nothing_pending_does_nothing() {
    let mut encoder = EncoderState { counter: 4, history: History::new() };
    let mut channel = NotificationChannel::new();
    let before = encoder;
    let requested = on_interrupt(&mut encoder, &mut channel, lines(false, false, false), false, true);
    assert_eq!(requested, Requested { button: None, tick: None });
    assert_eq!(encoder, before);
    assert!(channel.is_empty());
}

#[test]
fn pass_samples_when_either_line_is_pending() {
    for (first, second) in [(true, false), (false, true), (true, true)] {
        let mut encoder = EncoderState::new();
        let mut channel = NotificationChannel::new();
        on_interrupt(&mut encoder, &mut channel, lines(false, first, second), true, false);
        on_interrupt(&mut encoder, &mut channel, lines(false, first, second), false, false);
        let requested = on_interrupt(&mut encoder, &mut channel, lines(false, first, second), false, true);
        assert_eq!(requested.button, None);
        assert_eq!(requested.tick, Some(DisplayMessage::tick(1, Direction::Clockwise)));
        assert_eq!(encoder.counter(), 1);
        assert_eq!(channel.len(), 1);
    }
}

#[test]
fn pass_with_only_the_button_pending_does_not_sample() {
    let mut encoder = EncoderState { counter: 9, history: History::new() };
    let mut channel = NotificationChannel::new();
    let requested = on_interrupt(&mut encoder, &mut channel, lines(true, false, false), false, false);
    assert_eq!(requested.button, Some(DisplayMessage::button(0)));
    assert_eq!(requested.tick, None);
    assert_eq!(encoder, EncoderState::new());
    assert_eq!(channel.len(), 1);
}

#[test]
fn pass_handles_the_button_before_the_sample() {
    // A detent is one sample from complete when button and line fire together:
    // the reset comes first, the tick counts from zero.
    let history = History { ps1: false, ps2: false, pps1: false, pps2: true };
    let mut encoder = EncoderState { counter: 50, history };
    let mut channel = NotificationChannel::new();
    let requested = on_interrupt(&mut encoder, &mut channel, lines(true, true, false), true, false);
    assert_eq!(requested.button, Some(DisplayMessage::button(0)));
    assert_eq!(requested.tick, Some(DisplayMessage::tick(-1, Direction::Anticlockwise)));
    assert_eq!(encoder.counter(), -1);
    assert_eq!(channel.len(), 2);
}

#[test]
fn pass_drops_signals_that_do_not_fit() {
    let history = History { ps1: false, ps2: false, pps1: true, pps2: false };
    let mut encoder = EncoderState { counter: 0, history };
    let mut channel = NotificationChannel::new();
    for _ in 0..4 {
        assert!(channel.try_send(false));
    }
    let requested = on_interrupt(&mut encoder, &mut channel, lines(true, false, true), false, true);
    assert!(requested.button.is_some());
    assert_eq!(requested.tick, Some(DisplayMessage::tick(1, Direction::Clockwise)));
    assert_eq!(channel.len(), 5);
    for _ in 0..4 {
        assert_eq!(channel.try_receive(), Received::Signal(false));
    }
    assert_eq!(channel.try_receive(), Received::Signal(WAKE));
    assert_eq!(channel.try_receive(), Received::Empty);
}
