//! What is put on the display: a style, a short text and a clear flag.

use vstd::prelude::*;
use vstd::std_specs::cmp::PartialEqSpecImpl;
use vstd::string::StringSliceAdditionalSpecFns;
use crate::encoder::Direction;
use crate::text::{decimal, lemma_decimal_digits_len, pow10, MessageText};

verus! {

/// Text shown after the counter on a clockwise tick.
pub const CLOCKWISE_LABEL: &'static str = "clockwise";

/// Text shown after the counter on an anticlockwise tick.
pub const ANTICLOCKWISE_LABEL: &'static str = "anticlockwise";

/// Text shown after the counter when the button resets it.
pub const BUTTON_LABEL: &'static str = "button pushed";

/// Text shown when nothing has happened for one heartbeat period.
pub const IDLE_TEXT: &'static str = "idle";

/// Text shown on each blink of the LED.
pub const BLINK_TEXT: &'static str = "blink";

/// One of the two fixed mono-spaced fonts; pixels are drawn in the "on" colour.
#[derive(Clone, Copy, Debug, PartialEq, Eq, Structural)]
pub enum TextStyle {
    Small,
    Large,
}

/// One request to the display task. Two requests are equal where style, text
/// and clear flag are.
#[derive(Clone, Copy, Debug, Eq)]
pub struct DisplayMessage {
    pub style: TextStyle,
    pub text: MessageText,
    pub clear: bool,
}

/// A message as contracts speak of it: the text as a sequence of bytes.
pub ghost struct MessageModel {
    pub style: TextStyle,
    pub text: Seq<u8>,
    pub clear: bool,
}

impl View for DisplayMessage {
    type V = MessageModel;

    open spec fn view(&self) -> MessageModel {
        MessageModel { style: self.style, text: self.text@, clear: self.clear }
    }
}

impl PartialEq for DisplayMessage {
    fn eq(&self, other: &Self) -> (same: bool) {
        self.style == other.style && self.clear == other.clear && self.text == other.text
    }
}

impl PartialEqSpecImpl for DisplayMessage {
    open spec fn obeys_eq_spec() -> bool {
        true
    }

    open spec fn eq_spec(&self, other: &Self) -> bool {
        self@ == other@
    }
}

/// The label that names a direction of rotation.
pub open spec fn direction_label(direction: Direction) -> Seq<u8> {
    match direction {
        Direction::Clockwise => CLOCKWISE_LABEL.spec_bytes(),
        Direction::Anticlockwise => ANTICLOCKWISE_LABEL.spec_bytes(),
    }
}

/// A counter value, one space, then a label.
pub open spec fn counter_text(counter: i32, label: Seq<u8>) -> Seq<u8> {
    decimal(counter as int) + seq![32u8] + label
}

/// The message for a tick that left the counter at `counter`.
pub open spec fn tick_model(counter: i32, direction: Direction) -> MessageModel {
    MessageModel {
        style: TextStyle::Large,
        text: counter_text(counter, direction_label(direction)),
        clear: true,
    }
}

/// The message for a button press that left the counter at `counter`.
pub open spec fn button_model(counter: i32) -> MessageModel {
    MessageModel {
        style: TextStyle::Large,
        text: counter_text(counter, BUTTON_LABEL.spec_bytes()),
        clear: true,
    }
}

/// The message of an idle heartbeat.
pub open spec fn idle_model() -> MessageModel {
    MessageModel { style: TextStyle::Small, text: IDLE_TEXT.spec_bytes(), clear: true }
}

/// The message of one blink.
pub open spec fn blink_model() -> MessageModel {
    MessageModel { style: TextStyle::Small, text: BLINK_TEXT.spec_bytes(), clear: true }
}

/// The decimal rendering of a 32-bit counter has at most eleven bytes.
pub proof fn lemma_counter_width(counter: i32)
    ensures
        1 <= decimal(counter as int).len() <= 11,
{
    reveal_with_fuel(pow10, 11);
    if counter < 0 {
        lemma_decimal_digits_len((-counter) as nat, 10);
    } else {
        lemma_decimal_digits_len(counter as nat, 10);
    }
}

/// Builds "`counter` `label`" for a label of at most 52 bytes.
fn counter_message(counter: i32, label: &str) -> (m: DisplayMessage)
    requires
        label.spec_bytes().len() <= 52,
    ensures
        m@ == (MessageModel {
            style: TextStyle::Large,
            text: counter_text(counter, label.spec_bytes()),
            clear: true,
        }),
{
    proof {
        lemma_counter_width(counter);
    }
    let mut text = MessageText::new();
    let number = text.push_decimal(counter);
    let space = text.push(32u8);
    let tail = text.push_str(label);
    assert(number is Ok && space is Ok && tail is Ok);
    assert(text@ =~= counter_text(counter, label.spec_bytes()));
    DisplayMessage { style: TextStyle::Large, text, clear: true }
}

/// A message of a fixed text of at most 64 bytes, in the small font.
fn notice(words: &str) -> (m: DisplayMessage)
    requires
        words.spec_bytes().len() <= 64,
    ensures
        m@ == (MessageModel { style: TextStyle::Small, text: words.spec_bytes(), clear: true }),
{
    let mut text = MessageText::new();
    let pushed = text.push_str(words);
    assert(pushed is Ok);
    assert(text@ =~= words.spec_bytes());
    DisplayMessage { style: TextStyle::Small, text, clear: true }
}

/// The bytes of the labels and fixed texts, one ASCII byte for each character.
pub proof fn lemma_label_bytes()
    ensures
        CLOCKWISE_LABEL.spec_bytes() == seq![99u8, 108, 111, 99, 107, 119, 105, 115, 101],
        ANTICLOCKWISE_LABEL.spec_bytes() == seq![
            97u8,
            110,
            116,
            105,
            99,
            108,
            111,
            99,
            107,
            119,
            105,
            115,
            101,
        ],
        BUTTON_LABEL.spec_bytes() == seq![
            98u8,
            117,
            116,
            116,
            111,
            110,
            32,
            112,
            117,
            115,
            104,
            101,
            100,
        ],
        IDLE_TEXT.spec_bytes() == seq![105u8, 100, 108, 101],
        BLINK_TEXT.spec_bytes() == seq![98u8, 108, 105, 110, 107],
{
    reveal_strlit("clockwise");
    reveal_strlit("anticlockwise");
    reveal_strlit("button pushed");
    reveal_strlit("idle");
    reveal_strlit("blink");
    vstd::string::is_ascii_spec_bytes(CLOCKWISE_LABEL);
    vstd::string::is_ascii_spec_bytes(ANTICLOCKWISE_LABEL);
    vstd::string::is_ascii_spec_bytes(BUTTON_LABEL);
    vstd::string::is_ascii_spec_bytes(IDLE_TEXT);
    vstd::string::is_ascii_spec_bytes(BLINK_TEXT);
}

impl DisplayMessage {
    /// The message for a tick in `direction` that left the counter at
    /// `counter`: the counter, a space and the direction's label, in the large
    /// font, on a cleared display.
    pub fn tick(counter: i32, direction: Direction) -> (m: DisplayMessage)
        ensures
            m@ == tick_model(counter, direction),
    {
        proof {
            lemma_label_bytes();
        }
        match direction {
            Direction::Clockwise => counter_message(counter, CLOCKWISE_LABEL),
            Direction::Anticlockwise => counter_message(counter, ANTICLOCKWISE_LABEL),
        }
    }

    /// The message for a button press that left the counter at `counter`.
    pub fn button(counter: i32) -> (m: DisplayMessage)
        ensures
            m@ == button_model(counter),
    {
        proof {
            lemma_label_bytes();
        }
        counter_message(counter, BUTTON_LABEL)
    }

    /// The message of an idle heartbeat.
    pub fn idle() -> (m: DisplayMessage)
        ensures
            m@ == idle_model(),
    {
        proof {
            lemma_label_bytes();
        }
        notice(IDLE_TEXT)
    }

    /// The message of one blink.
    pub fn blink() -> (m: DisplayMessage)
        ensures
            m@ == blink_model(),
    {
        proof {
            lemma_label_bytes();
        }
        notice(BLINK_TEXT)
    }
}

} // verus!
