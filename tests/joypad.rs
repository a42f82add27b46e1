use rustboy::joypad::Status::{Selected, Unselected};
use rustboy::joypad::{Buttons, JoyPad};

#[test]
fn test_buttons_from() {
    assert_eq!(
        Buttons::from(0b_0000_1111),
        Buttons {
            button: Selected,
            direction: Selected,
            down_start: Unselected,
            up_select: Unselected,
            left_b: Unselected,
            right_a: Unselected,
        }
    );
    assert_eq!(
        Buttons::from(0b_0010_1111),
        Buttons {
            button: Unselected,
            direction: Selected,
            down_start: Unselected,
            up_select: Unselected,
            left_b: Unselected,
            right_a: Unselected,
        }
    );
    assert_eq!(
        Buttons::from(0b_0001_1011),
        Buttons {
            button: Selected,
            direction: Unselected,
            down_start: Unselected,
            up_select: Selected,
            left_b: Unselected,
            right_a: Unselected,
        }
    );
    assert_eq!(
        Buttons::from(0b_1101_1110),
        Buttons {
            button: Selected,
            direction: Unselected,
            down_start: Unselected,
            up_select: Unselected,
            left_b: Unselected,
            right_a: Selected,
        }
    );
}

#[test]
fn test_buttons_into() {
    assert_eq!(
        u8::from(Buttons {
            button: Selected,
            direction: Selected,
            down_start: Unselected,
            up_select: Unselected,
            left_b: Unselected,
            right_a: Unselected,
        }),
        0b_0000_1111
    );
    assert_eq!(
        u8::from(Buttons {
            button: Unselected,
            direction: Selected,
            down_start: Unselected,
            up_select: Unselected,
            left_b: Selected,
            right_a: Unselected,
        }),
        0b_0010_1101
    );
}

#[test]
fn joypad_reads_selected_column_active_low() {
    let mut pad = JoyPad::new();
    pad.handle_key_event(Some('a'));
    // Action buttons selected (bit 5 low): A pressed reads as bit 0 low.
    pad.write(0x10);
    assert_eq!(pad.read(), 0xDE);
    // Directions selected instead: A does not show.
    pad.write(0x20);
    assert_eq!(pad.read(), 0xEF);
    // Down is on bit 3 of the direction column.
    pad.handle_key_event(Some('j'));
    assert_eq!(pad.read(), 0xE7);
    // Nothing selected: all lines high.
    pad.write(0x30);
    assert_eq!(pad.read(), 0xFF);
    pad.handle_key_event(None);
    pad.write(0x10);
    assert_eq!(pad.read(), 0xDF);
}
