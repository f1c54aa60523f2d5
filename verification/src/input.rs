//! The input router: controller messages become paddle movements.

use vstd::prelude::*;
use crate::error::MyError;
use crate::geometry::{add_max, clamped_advance, Point};

verus! {

/// A turn of one of the four encoders that steer the paddles: the x or y
/// axis of paddle 1 (`X`, `Y`) or of paddle 2 (`X2`, `Y2`), with the number
/// of steps turned.
#[derive(Clone, Copy, Debug, PartialEq, Eq, Structural)]
pub enum MidiMessage {
    X(i8),
    Y(i8),
    X2(i8),
    Y2(i8),
}

/// The status byte of a control change on the first channel.
pub const CONTROL_CHANGE: u8 = 0xB0;

/// The controller numbers of the four encoders.
pub const ENCODER_X: u8 = 0x4F;

pub const ENCODER_Y: u8 = 0x4E;

pub const ENCODER_X2: u8 = 0x0F;

pub const ENCODER_Y2: u8 = 0x47;

/// The steps that a relative encoder reports with the byte `raw`: bytes below
/// 64 are that many steps to the right, all others are `64 - (raw mod 64)`
/// steps to the left.
pub open spec fn relative_delta(raw: int) -> int {
    if raw < 64 {
        raw
    } else {
        -(64 - raw % 64)
    }
}

/// Decodes the value byte of a relative encoder into signed steps.
pub fn get_encoder_value(value: &u8) -> (delta: i8)
    ensures
        delta == relative_delta(*value as int),
        -64 <= delta <= 63,
{
    let raw: u8 = *value;
    let low: u8 = raw & 0x3F;
    assert(low == raw % 64) by (bit_vector)
        requires
            low == raw & 0x3F,
    ;
    assert((raw & 0xC0 == 0) == (raw < 64)) by (bit_vector);
    let is_right: bool = (raw & 0xC0) == 0;
    if is_right {
        low as i8
    } else {
        -(64 - low as i8)
    }
}

/// The message that the bytes of a controller event stand for: a control
/// change of three bytes from one of the four encoders. Anything else means
/// nothing to the game.
pub open spec fn decoded(message: Seq<u8>) -> Option<MidiMessage> {
    if message.len() == 3 && message[0] == CONTROL_CHANGE {
        let delta = relative_delta(message[2] as int) as i8;
        if message[1] == ENCODER_X {
            Some(MidiMessage::X(delta))
        } else if message[1] == ENCODER_Y {
            Some(MidiMessage::Y(delta))
        } else if message[1] == ENCODER_X2 {
            Some(MidiMessage::X2(delta))
        } else if message[1] == ENCODER_Y2 {
            Some(MidiMessage::Y2(delta))
        } else {
            None
        }
    } else {
        None
    }
}

/// Reads one controller event. Events that do not come from the four
/// encoders are dropped.
pub fn decode_message(message: &[u8]) -> (event: Option<MidiMessage>)
    ensures
        event == decoded(message@),
{
    if message.len() != 3 || message[0] != CONTROL_CHANGE {
        return None;
    }
    let delta: i8 = get_encoder_value(&message[2]);
    let control: u8 = message[1];
    if control == ENCODER_X {
        Some(MidiMessage::X(delta))
    } else if control == ENCODER_Y {
        Some(MidiMessage::Y(delta))
    } else if control == ENCODER_X2 {
        Some(MidiMessage::X2(delta))
    } else if control == ENCODER_Y2 {
        Some(MidiMessage::Y2(delta))
    } else {
        None
    }
}

/// `position` moved by `delta` along the x axis of a field `width` wide.
pub open spec fn moved_along_x(position: Point, delta: i8, width: int) -> Point {
    Point { x: clamped_advance(position.x as int, delta as int, width) as i32, y: position.y }
}

/// `position` moved by `delta` along the y axis of a field `height` high.
pub open spec fn moved_along_y(position: Point, delta: i8, height: int) -> Point {
    Point { x: position.x, y: clamped_advance(position.y as int, delta as int, height) as i32 }
}

/// The positions of the two paddles after one message: the axis that the
/// message names has moved and is held on the field.
pub open spec fn routed(
    event: MidiMessage,
    paddles: (Point, Point),
    width: int,
    height: int,
) -> (Point, Point) {
    match event {
        MidiMessage::X(delta) => (moved_along_x(paddles.0, delta, width), paddles.1),
        MidiMessage::Y(delta) => (moved_along_y(paddles.0, delta, height), paddles.1),
        MidiMessage::X2(delta) => (paddles.0, moved_along_x(paddles.1, delta, width)),
        MidiMessage::Y2(delta) => (paddles.0, moved_along_y(paddles.1, delta, height)),
    }
}

/// The positions of the two paddles after all `events`, applied in the order
/// in which they arrived.
pub open spec fn routed_all(
    events: Seq<MidiMessage>,
    paddles: (Point, Point),
    width: int,
    height: int,
) -> (Point, Point)
    decreases events.len(),
{
    if events.len() == 0 {
        paddles
    } else {
        routed(events.last(), routed_all(events.drop_last(), paddles, width, height), width, height)
    }
}

/// Applies the pending messages to the positions of the two paddles, on a
/// field of `width` by `height` cells.
pub fn handle_paddles(
    events: &Vec<MidiMessage>,
    position: &mut Point,
    position2: &mut Point,
    width: i32,
    height: i32,
)
    requires
        width > 0,
        height > 0,
    ensures
        (*final(position), *final(position2)) == routed_all(
            events@,
            (*old(position), *old(position2)),
            width as int,
            height as int,
        ),
{
    let mut i: usize = 0;
    while i < events.len()
        invariant
            i <= events.len(),
            width > 0,
            height > 0,
            (*position, *position2) == routed_all(
                events@.take(i as int),
                (*old(position), *old(position2)),
                width as int,
                height as int,
            ),
        decreases events.len() - i,
    {
        proof {
            assert(events@.take(i + 1).drop_last() =~= events@.take(i as int));
            assert(events@.take(i + 1).last() == events@[i as int]);
        }
        match events[i] {
            MidiMessage::X(value) => {
                position.x = add_max(position.x, value as i32, width);
            },
            MidiMessage::Y(value) => {
                position.y = add_max(position.y, value as i32, height);
            },
            MidiMessage::X2(value) => {
                position2.x = add_max(position2.x, value as i32, width);
            },
            MidiMessage::Y2(value) => {
                position2.y = add_max(position2.y, value as i32, height);
            },
        }
        i += 1;
    }
    proof {
        assert(events@.take(events@.len() as int) =~= events@);
    }
}

/// Picks the controller's input port among the ports that the system
/// offers, given by their names in the system's order: the first one that
/// is called `port_name`.
pub fn get_midi_in_port(names: &Vec<String>, port_name: &str) -> (found: Result<usize, MyError>)
    ensures
        found matches Ok(index) ==> index < names.len() && names[index as int]@ == port_name@,
        found matches Ok(index) ==> forall|j: int| 0 <= j < index ==> names[j]@ != port_name@,
        found matches Err(error) ==> error is NoMidiInFound,
        found is Err <==> forall|j: int| 0 <= j < names.len() ==> names[j]@ != port_name@,
{
    let wanted: String = port_name.to_owned();
    let mut i: usize = 0;
    while i < names.len()
        invariant
            i <= names.len(),
            wanted@ == port_name@,
            forall|j: int| 0 <= j < i ==> names[j]@ != port_name@,
        decreases names.len() - i,
    {
        if names[i] == wanted {
            return Ok(i);
        }
        i += 1;
    }
    Err(MyError::NoMidiInFound)
}

} // verus!
