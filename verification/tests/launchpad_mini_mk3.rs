use launchy::launchpad_mini_mk3::input::{
    decode_grid_button, decode_short_message, is_inside_border,
};
use launchy::launchpad_mini_mk3::{Button, Input, Message};
use launchy::protocols::query::{DeviceInquiry, VersionInquiry};
use launchy::{DecodeError, FailurePolicy, InputDevice};

#[test]
fn mk3_grid_button_takes_the_border_off() {
    assert_eq!(decode_grid_button(11), Button::GridButton { x: 0, y: 0 });
    assert_eq!(decode_grid_button(18), Button::GridButton { x: 7, y: 0 });
    assert_eq!(decode_grid_button(81), Button::GridButton { x: 0, y: 7 });
    assert_eq!(decode_grid_button(88), Button::GridButton { x: 7, y: 7 });
    assert_eq!(decode_grid_button(45), Button::GridButton { x: 4, y: 3 });
    assert_eq!(decode_grid_button(19), Button::GridButton { x: 8, y: 0 });
    assert_eq!(decode_grid_button(255), Button::GridButton { x: 4, y: 24 });
}

#[test]
fn mk3_border_keys() {
    assert!(!is_inside_border(0));
    assert!(!is_inside_border(9));
    assert!(!is_inside_border(10));
    assert!(is_inside_border(11));
    assert!(!is_inside_border(20));
    assert!(is_inside_border(99));
    assert!(!is_inside_border(100));
    assert!(is_inside_border(101));
}

#[test]
fn mk3_note_on_presses_and_releases_grid_buttons() {
    assert_eq!(
        Input::decode_message(0, &[0x90, 11, 127]),
        Message::Press { button: Button::GridButton { x: 0, y: 0 } }
    );
    assert_eq!(
        Input::decode_message(0, &[0x90, 11, 0]),
        Message::Release { button: Button::GridButton { x: 0, y: 0 } }
    );
    assert_eq!(
        Input::decode_message(0, &[0x90, 88, 127]),
        Message::Press { button: Button::GridButton { x: 7, y: 7 } }
    );
    assert_eq!(
        Input::decode_message(0, &[0x90, 36, 0]),
        Message::Release { button: Button::GridButton { x: 5, y: 2 } }
    );
}

#[test]
fn mk3_every_key_follows_the_transform() {
    let mut key: u8 = 0;
    loop {
        let pressed = Input::try_decode_message(0, &[0x90, key, 127]);
        let released = Input::try_decode_message(0, &[0x90, key, 0]);
        if key % 10 >= 1 && key / 10 >= 1 {
            let button = Button::GridButton { x: key % 10 - 1, y: key / 10 - 1 };
            assert_eq!(pressed, Ok(Message::Press { button }));
            assert_eq!(released, Ok(Message::Release { button }));
        } else {
            assert_eq!(pressed, Ok(Message::Unsupported));
            assert_eq!(released, Ok(Message::Unsupported));
        }
        if key == 255 {
            break;
        }
        key += 1;
    }
}

#[test]
fn mk3_controller_change_presses_and_releases_control_buttons() {
    let mut controller: u8 = 104;
    while controller <= 111 {
        let button = Button::ControlButton { index: controller - 104 };
        assert_eq!(Input::decode_message(0, &[0xB0, controller, 0]), Message::Release { button });
        assert_eq!(Input::decode_message(0, &[0xB0, controller, 127]), Message::Press { button });
        controller += 1;
    }
    assert_eq!(
        Input::decode_message(0, &[0xB0, 104, 127]),
        Message::Press { button: Button::ControlButton { index: 0 } }
    );
    assert_eq!(
        Input::decode_message(0, &[0xB0, 111, 0]),
        Message::Release { button: Button::ControlButton { index: 7 } }
    );
}

#[test]
fn mk3_other_velocities_are_unsupported() {
    let mut velocity: u8 = 1;
    while velocity < 127 {
        assert_eq!(Input::decode_message(0, &[0x90, 11, velocity]), Message::Unsupported);
        assert_eq!(Input::decode_message(0, &[0xB0, 104, velocity]), Message::Unsupported);
        velocity += 1;
    }
    assert_eq!(Input::decode_message(0, &[0x90, 11, 128]), Message::Unsupported);
    assert_eq!(Input::decode_message(0, &[0xB0, 111, 255]), Message::Unsupported);
}

#[test]
fn mk3_text_end_as_controller_change() {
    assert_eq!(Input::decode_message(0, &[0xB0, 0, 3]), Message::TextEndedOrLooped);
    assert_eq!(Input::decode_message(0, &[0xB0, 0, 2]), Message::Unsupported);
    assert_eq!(Input::decode_message(0, &[0xB0, 1, 3]), Message::Unsupported);
    assert_eq!(Input::decode_message(0, &[0x90, 0, 3]), Message::Unsupported);
}

#[test]
fn mk3_unknown_short_messages_are_unsupported() {
    assert_eq!(Input::decode_message(0, &[0x80, 11, 0]), Message::Unsupported);
    assert_eq!(Input::decode_message(0, &[0xB0, 103, 127]), Message::Unsupported);
    assert_eq!(Input::decode_message(0, &[0xB0, 112, 0]), Message::Unsupported);
    assert_eq!(Input::decode_message(0, &[0xB0, 21, 64]), Message::Unsupported);
    assert_eq!(Input::decode_message(0, &[0xB0, 28, 0]), Message::Unsupported);
    assert_eq!(Input::decode_message(0, &[0, 0, 0]), Message::Unsupported);
    assert_eq!(Input::decode_message(0, &[240, 0, 247]), Message::Unsupported);
}

#[test]
fn mk3_device_inquiry() {
    let data: [u8; 17] = [240, 126, 1, 6, 2, 0, 32, 41, 105, 0, 0, 0, 0, 0, 0, 42, 247];
    assert_eq!(
        Input::decode_message(0, &data),
        Message::DeviceInquiry(DeviceInquiry { device_id: 1, firmware_revision: 42 })
    );
}

#[test]
fn mk3_version_inquiry() {
    let data: [u8; 19] = [240, 0, 32, 41, 0, 112, 1, 0, 0, 0, 0, 2, 0, 0, 0, 0, 0, 0, 247];
    assert_eq!(
        Input::decode_message(0, &data),
        Message::VersionInquiry(VersionInquiry {
            bootloader_version: 10000,
            firmware_version: 20000
        })
    );
}

#[test]
fn mk3_text_loop_sysex() {
    let data: [u8; 8] = [240, 0, 32, 41, 2, 24, 21, 247];
    assert_eq!(Input::try_decode_message(0, &data), Ok(Message::TextEndedOrLooped));
    assert_eq!(Input::decode_message(0, &data), Message::TextEndedOrLooped);
}

#[test]
fn mk3_no_other_eight_bytes_are_the_text_loop() {
    let text: [u8; 8] = [240, 0, 32, 41, 2, 24, 21, 247];
    let mut at: usize = 0;
    while at < 8 {
        let mut delta: u8 = 1;
        loop {
            let mut data: [u8; 8] = text;
            data[at] = data[at].wrapping_add(delta);
            assert_eq!(Input::try_decode_message(0, &data), Err(DecodeError::InvalidSysEx));
            if delta == 255 {
                break;
            }
            delta += 1;
        }
        at += 1;
    }
    assert_eq!(Input::try_decode_message(0, &[0; 8]), Err(DecodeError::InvalidSysEx));
}

#[test]
fn mk3_malformed_sysex_is_an_error() {
    assert_eq!(Input::try_decode_message(0, &[]), Err(DecodeError::InvalidSysEx));
    assert_eq!(Input::try_decode_message(0, &[240, 247]), Err(DecodeError::InvalidSysEx));
    assert_eq!(Input::try_decode_message(0, &[0x90, 11]), Err(DecodeError::InvalidSysEx));
    assert_eq!(Input::try_decode_message(0, &[0x90, 11, 127, 0]), Err(DecodeError::InvalidSysEx));
    // a version inquiry with a byte above 9 in the place of a digit
    assert_eq!(
        Input::try_decode_message(
            0,
            &[240, 0, 32, 41, 0, 112, 1, 0, 10, 0, 0, 2, 0, 0, 0, 0, 0, 0, 247]
        ),
        Err(DecodeError::InvalidSysEx)
    );
    // a version inquiry that is one byte short
    assert_eq!(
        Input::try_decode_message(0, &[240, 0, 32, 41, 0, 112, 1, 0, 0, 0, 0, 2, 0, 0, 0, 0, 0, 247]),
        Err(DecodeError::InvalidSysEx)
    );
    // a device inquiry that does not end with the end byte
    assert_eq!(
        Input::try_decode_message(0, &[240, 126, 1, 6, 2, 0, 32, 41, 105, 0, 0, 0, 0, 0, 0, 42, 0]),
        Err(DecodeError::InvalidSysEx)
    );
    // the text loop with one byte more
    assert_eq!(
        Input::try_decode_message(0, &[240, 0, 32, 41, 2, 24, 21, 247, 247]),
        Err(DecodeError::InvalidSysEx)
    );
}

#[test]
fn mk3_short_message_decoder_agrees_with_the_device() {
    assert_eq!(
        decode_short_message(0x90, 23, 127),
        Message::Press { button: Button::GridButton { x: 2, y: 1 } }
    );
    assert_eq!(
        decode_short_message(0xB0, 105, 0),
        Message::Release { button: Button::ControlButton { index: 1 } }
    );
    assert_eq!(decode_short_message(0xB0, 0, 3), Message::TextEndedOrLooped);
    assert_eq!(decode_short_message(0x90, 20, 127), Message::Unsupported);
    assert_eq!(decode_short_message(0x90, 5, 0), Message::Unsupported);
    assert_eq!(decode_short_message(0xA0, 11, 0), Message::Unsupported);
}

#[test]
fn mk3_decoding_ignores_timestamp_and_history() {
    let a: [u8; 3] = [0x90, 11, 127];
    let b: [u8; 8] = [240, 0, 32, 41, 2, 24, 21, 247];
    let alone = Input::try_decode_message(0, &b);
    let first = Input::try_decode_message(1, &a);
    let second = Input::try_decode_message(2, &a);
    assert_eq!(first, second);
    let after = Input::try_decode_message(u64::MAX, &b);
    assert_eq!(alone, after);
    let bad: [u8; 2] = [240, 247];
    assert_eq!(Input::try_decode_message(3, &bad), Input::try_decode_message(4, &bad));
    assert_eq!(Input::try_decode_message(5, &b), alone);
}

#[test]
fn mk3_try_decode_and_decode_agree() {
    let data: [u8; 3] = [0x90, 45, 127];
    assert_eq!(Input::try_decode_message(7, &data), Ok(Input::decode_message(7, &data)));
}

#[test]
fn mk3_degrades() {
    assert_eq!(Input::failure_policy(), FailurePolicy::Degrade);
    let mut status: u8 = 0;
    loop {
        assert!(Input::try_decode_message(0, &[status, 17, 64]).is_ok());
        assert!(Input::try_decode_message(0, &[status, 0, 3]).is_ok());
        if status == 255 {
            break;
        }
        status += 1;
    }
}

#[test]
fn mk3_identity() {
    assert_eq!(Input::MIDI_DEVICE_KEYWORD, "Launchpad Mini MK3 MIDI 2");
    assert_eq!(Input::MIDI_CONNECTION_NAME, "Launchy Mini Mk3 Input");
}
