use encoder_firmware::encoder::Direction;
use encoder_firmware::message::{
    DisplayMessage, TextStyle, ANTICLOCKWISE_LABEL, BLINK_TEXT, BUTTON_LABEL, CLOCKWISE_LABEL,
    IDLE_TEXT,
};

#[test]
fn labels_are_fixed() {
    assert_eq!(CLOCKWISE_LABEL, "clockwise");
    assert_eq!(ANTICLOCKWISE_LABEL, "anticlockwise");
    assert_eq!(BUTTON_LABEL, "button pushed");
    assert_eq!(IDLE_TEXT, "idle");
    assert_eq!(BLINK_TEXT, "blink");
}

#[test]
fn tick_message_shows_counter_and_direction() {
    let message = DisplayMessage::tick(1, Direction::Clockwise);
    assert_eq!(message.text.as_bytes(), b"1 clockwise");
    assert_eq!(message.style, TextStyle::Large);
    assert!(message.clear);

    let message = DisplayMessage::tick(-1, Direction::Anticlockwise);
    assert_eq!(message.text.as_bytes(), b"-1 anticlockwise");
    assert_eq!(message.style, TextStyle::Large);
    assert!(message.clear);
}

#[test]
fn tick_message_of_the_extremes_fits() {
    let message = DisplayMessage::tick(i32::MIN, Direction::Anticlockwise);
    assert_eq!(message.text.as_bytes(), b"-2147483648 anticlockwise");
    let message = DisplayMessage::tick(i32::MAX, Direction::Clockwise);
    assert_eq!(message.text.as_bytes(), b"2147483647 clockwise");
}

#[test]
fn button_message_shows_the_reset_counter() {
    let message = DisplayMessage::button(0);
    assert_eq!(message.text.as_bytes(), b"0 button pushed");
    assert_eq!(message.style, TextStyle::Large);
    assert!(message.clear);
}

#[test]
fn idle_message_is_fixed() {
    let message = DisplayMessage::idle();
    assert_eq!(message.text.as_bytes(), b"idle");
    assert_eq!(message.style, TextStyle::Small);
    assert!(message.clear);
}

#[test]
fn blink_message_is_fixed() {
    let message = DisplayMessage::blink();
    assert_eq!(message.text.as_bytes(), b"blink");
    assert_eq!(message.style, TextStyle::Small);
    assert!(message.clear);
}

#[test]
fn every_text_is_ascii_within_capacity() {
    for counter in [0, 1, -1, 99, -99, i32::MAX, i32::MIN] {
        for direction in [Direction::Clockwise, Direction::Anticlockwise] {
            let message = DisplayMessage::tick(counter, direction);
            assert!(message.text.len() <= 64);
            assert!(message.text.as_bytes().is_ascii());
        }
    }
}

#[test]
fn messages_are_equal_by_style_text_and_flag() {
    let a = DisplayMessage::tick(5, Direction::Clockwise);
    let b = DisplayMessage::tick(5, Direction::Clockwise);
    assert_eq!(a, b);
    assert_ne!(a, DisplayMessage::tick(6, Direction::Clockwise));
    assert_ne!(a, DisplayMessage::tick(5, Direction::Anticlockwise));
    let mut other_style = a;
    other_style.style = TextStyle::Small;
    assert_ne!(a, other_style);
    let mut other_flag = a;
    other_flag.clear = false;
    assert_ne!(a, other_flag);
}
