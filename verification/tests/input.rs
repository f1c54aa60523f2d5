use push2_pong::error::MyError;
use push2_pong::geometry::Point;
use push2_pong::input::{
    decode_message, get_encoder_value, get_midi_in_port, handle_paddles, MidiMessage,
};

#[test]
fn small_bytes_are_steps_to_the_right() {
    assert_eq!(get_encoder_value(&0), 0);
    assert_eq!(get_encoder_value(&1), 1);
    assert_eq!(get_encoder_value(&2), 2);
    assert_eq!(get_encoder_value(&63), 63);
}

#[test]
fn large_bytes_are_steps_to_the_left() {
    assert_eq!(get_encoder_value(&127), -1);
    assert_eq!(get_encoder_value(&126), -2);
    assert_eq!(get_encoder_value(&65), -63);
    assert_eq!(get_encoder_value(&64), -64);
    assert_eq!(get_encoder_value(&128), -64);
    assert_eq!(get_encoder_value(&191), -1);
    assert_eq!(get_encoder_value(&192), -64);
    assert_eq!(get_encoder_value(&255), -1);
}

#[test]
fn every_byte_decodes_into_a_small_delta() {
    for raw in 0..=255u8 {
        let delta = get_encoder_value(&raw);
        assert!(-64 <= delta && delta <= 63);
        if raw < 64 {
            assert_eq!(delta as i32, raw as i32);
        } else {
            assert_eq!(delta as i32, (raw % 64) as i32 - 64);
        }
    }
}

#[test]
fn the_four_encoders_are_told_apart() {
    assert_eq!(decode_message(&[0xB0, 0x4F, 3]), Some(MidiMessage::X(3)));
    assert_eq!(decode_message(&[0xB0, 0x4E, 127]), Some(MidiMessage::Y(-1)));
    assert_eq!(decode_message(&[0xB0, 0x0F, 64]), Some(MidiMessage::X2(-64)));
    assert_eq!(decode_message(&[0xB0, 0x47, 63]), Some(MidiMessage::Y2(63)));
}

#[test]
fn other_events_are_dropped() {
    assert_eq!(decode_message(&[]), None);
    assert_eq!(decode_message(&[0xFE]), None);
    assert_eq!(decode_message(&[0xFE, 0x00]), None);
    assert_eq!(decode_message(&[0xB0, 0x4F]), None);
    assert_eq!(decode_message(&[0xB0, 0x4F, 1, 0]), None);
    assert_eq!(decode_message(&[0xB1, 0x4F, 1]), None);
    assert_eq!(decode_message(&[0x90, 0x4F, 1]), None);
    assert_eq!(decode_message(&[0xB0, 0x50, 1]), None);
    assert_eq!(decode_message(&[0xB0, 0x00, 1]), None);
}

#[test]
fn no_event_moves_no_paddle() {
    let mut position = Point::new(909, 80);
    let mut position2 = Point::new(50, 80);
    handle_paddles(&Vec::new(), &mut position, &mut position2, 960, 160);
    assert_eq!(position, Point::new(909, 80));
    assert_eq!(position2, Point::new(50, 80));
}

#[test]
fn each_event_moves_its_own_axis() {
    let mut position = Point::new(909, 80);
    let mut position2 = Point::new(50, 80);
    let events = vec![
        MidiMessage::X(3),
        MidiMessage::Y(-5),
        MidiMessage::X2(-7),
        MidiMessage::Y2(11),
    ];
    handle_paddles(&events, &mut position, &mut position2, 960, 160);
    assert_eq!(position, Point::new(912, 75));
    assert_eq!(position2, Point::new(43, 91));
}

#[test]
fn events_add_up_in_their_order() {
    let mut position = Point::new(909, 150);
    let mut position2 = Point::new(50, 80);
    // Down to the last row and held there, then up again from the last row.
    let events = vec![MidiMessage::Y(63), MidiMessage::Y(-10)];
    handle_paddles(&events, &mut position, &mut position2, 960, 160);
    assert_eq!(position, Point::new(909, 149));
    assert_eq!(position2, Point::new(50, 80));

    let mut position = Point::new(909, 150);
    let events = vec![MidiMessage::Y(-10), MidiMessage::Y(63)];
    handle_paddles(&events, &mut position, &mut position2, 960, 160);
    assert_eq!(position, Point::new(909, 159));
}

#[test]
fn paddles_are_held_on_the_field() {
    let mut position = Point::new(950, 5);
    let mut position2 = Point::new(10, 155);
    let events = vec![
        MidiMessage::X(63),
        MidiMessage::Y(-64),
        MidiMessage::X2(-64),
        MidiMessage::Y2(63),
    ];
    handle_paddles(&events, &mut position, &mut position2, 960, 160);
    assert_eq!(position, Point::new(959, 0));
    assert_eq!(position2, Point::new(0, 159));
}

#[test]
fn the_named_port_is_found() {
    let names = vec![
        String::from("Midi Through Port-0"),
        String::from("Ableton Push 2 Live Port"),
        String::from("Ableton Push 2 User Port"),
    ];
    assert!(matches!(get_midi_in_port(&names, "Ableton Push 2 Live Port"), Ok(1)));
    assert!(matches!(get_midi_in_port(&names, "Midi Through Port-0"), Ok(0)));
}

#[test]
fn the_first_port_of_a_name_is_taken() {
    let names = vec![String::new(), String::from("a"), String::from("b"), String::from("a")];
    assert!(matches!(get_midi_in_port(&names, "a"), Ok(1)));
    assert!(matches!(get_midi_in_port(&names, ""), Ok(0)));
}

#[test]
fn a_missing_port_is_an_error() {
    let names = vec![String::from("Midi Through Port-0")];
    assert!(matches!(
        get_midi_in_port(&names, "Ableton Push 2 Live Port"),
        Err(MyError::NoMidiInFound)
    ));
    assert!(matches!(get_midi_in_port(&names, "Midi Through"), Err(MyError::NoMidiInFound)));
    assert!(matches!(get_midi_in_port(&Vec::new(), "a"), Err(MyError::NoMidiInFound)));
}
