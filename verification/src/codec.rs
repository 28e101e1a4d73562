//! Report codec: decodes the controller's bit-packed input reports into a
//! normalized gamepad state, and encodes vibration feedback frames.

use crate::Error;
use vstd::prelude::*;

verus! {

/// A normalized, protocol-agnostic gamepad snapshot: the standard
/// buttons, two signed 16-bit stick vectors, and two unsigned 8-bit
/// trigger values.
#[derive(Clone, Copy, Debug, PartialEq, Eq, Structural)]
pub struct GamepadState {
    pub button_a: bool,
    pub button_b: bool,
    pub button_x: bool,
    pub button_y: bool,
    pub left_shoulder: bool,
    pub right_shoulder: bool,
    pub left_thumb: bool,
    pub right_thumb: bool,
    pub back: bool,
    pub start: bool,
    pub guide: bool,
    pub dpad_up: bool,
    pub dpad_down: bool,
    pub dpad_left: bool,
    pub dpad_right: bool,
    pub thumb_lx: i16,
    pub thumb_ly: i16,
    pub thumb_rx: i16,
    pub thumb_ry: i16,
    pub left_trigger: u8,
    pub right_trigger: u8,
}

/// A decoded report: the normalized gamepad state plus the two auxiliary
/// buttons that the virtual protocol does not carry.
#[derive(Clone, Copy, Debug, PartialEq, Eq, Structural)]
pub struct Report {
    pub gamepad: GamepadState,
    pub is_assistant_pressed: bool,
    pub is_capture_pressed: bool,
}

/// The D-pad invariant: opposite directions are never active together,
/// which leaves exactly the nine documented combinations (eight
/// directions and center).
pub open spec fn dpad_well_formed(g: GamepadState) -> bool {
    &&& !(g.dpad_up && g.dpad_down)
    &&& !(g.dpad_left && g.dpad_right)
}

/// Whether some bit of `mask` is set in `b`.
pub open spec fn bit_set(b: u8, mask: u8) -> bool {
    b & mask != 0
}

/// The D-pad source values that activate the "up" direction.
pub open spec fn spec_dpad_up(d: u8) -> bool {
    d == 0 || d == 1 || d == 7
}

/// The D-pad source values that activate the "right" direction.
pub open spec fn spec_dpad_right(d: u8) -> bool {
    d == 1 || d == 2 || d == 3
}

/// The D-pad source values that activate the "down" direction.
pub open spec fn spec_dpad_down(d: u8) -> bool {
    d == 3 || d == 4 || d == 5
}

/// The D-pad source values that activate the "left" direction.
pub open spec fn spec_dpad_left(d: u8) -> bool {
    d == 5 || d == 6 || d == 7
}

/// Widens an axis byte to a 16-bit domain: the byte becomes the high
/// eight bits, and its low three bits (shifted up by one) fill the low
/// nibble, spreading the 256 raw steps over the wider range.
pub open spec fn spec_axis_widen(v: u8) -> int {
    v * 256 + (v * 2) % 16
}

/// The documented clamp on a widened axis value: `0xFFFE` is treated as
/// `0xFFFF`; every other value passes through unchanged.
pub open spec fn spec_axis_clamp(wide: int) -> int {
    if wide == 0xfffe {
        0xffff
    } else {
        wide
    }
}

/// What `convert_axis_value` returns: the widened axis byte, clamped.
pub open spec fn spec_convert_axis_value(v: u8) -> int {
    spec_axis_clamp(spec_axis_widen(v))
}

/// Widens an axis byte to the 16-bit domain and applies the documented
/// `0xFFFE` to `0xFFFF` clamp. Deterministic: the result is a function of
/// the byte alone.
pub fn convert_axis_value(value: u8) -> (r: i32)
    ensures
        r == spec_convert_axis_value(value),
        0 <= r <= 0xff0f,
{
    let v: i32 = value as i32;
    let wide: i32 = v * 256 + (v * 2) % 16;
    if wide == 0xfffe {
        0xffff
    } else {
        wide
    }
}

/// The clamp law: a widened axis value of `0xFFFE` maps to `0xFFFF`, and
/// every other value is left unchanged.
pub proof fn lemma_axis_clamp(wide: int)
    ensures
        wide == 0xfffe ==> spec_axis_clamp(wide) == 0xffff,
        wide != 0xfffe ==> spec_axis_clamp(wide) == wide,
{
}

/// The pre-normalization adjustment for a raw axis byte: values in
/// `(0x00, 0x7F]` are decremented by one, compensating for the device
/// skipping zero irregularly.
pub open spec fn spec_axis_adjust(v: u8) -> u8 {
    if 0 < v && v <= 0x7f {
        (v - 1) as u8
    } else {
        v
    }
}

/// The normalized value of a raw X-axis byte: adjusted, widened, clamped,
/// and offset so that the signed center sits at zero.
pub open spec fn spec_thumb_x(raw: u8) -> i16 {
    (spec_convert_axis_value(spec_axis_adjust(raw)) - 0x8000) as i16
}

/// The normalized value of a raw Y-axis byte: as for X, but inverted to
/// match the target coordinate convention, with the off-by-one result
/// `-1` clamped to zero.
pub open spec fn spec_thumb_y(raw: u8) -> i16 {
    let v = 0x7fff - spec_convert_axis_value(spec_axis_adjust(raw));
    if v == -1 {
        0i16
    } else {
        v as i16
    }
}

/// What decoding a raw report yields when it is well formed: every field
/// of the normalized state, read from its documented position.
pub open spec fn spec_gamepad(data: Seq<u8>) -> GamepadState {
    GamepadState {
        button_a: bit_set(data[3], 0x40),
        button_b: bit_set(data[3], 0x20),
        button_x: bit_set(data[3], 0x10),
        button_y: bit_set(data[3], 0x08),
        left_shoulder: bit_set(data[3], 0x04),
        right_shoulder: bit_set(data[3], 0x02),
        left_thumb: bit_set(data[3], 0x01),
        right_thumb: bit_set(data[2], 0x80),
        back: bit_set(data[2], 0x40),
        start: bit_set(data[2], 0x20),
        guide: bit_set(data[2], 0x10),
        dpad_up: spec_dpad_up(data[1]),
        dpad_down: spec_dpad_down(data[1]),
        dpad_left: spec_dpad_left(data[1]),
        dpad_right: spec_dpad_right(data[1]),
        thumb_lx: spec_thumb_x(data[4]),
        thumb_ly: spec_thumb_y(data[5]),
        thumb_rx: spec_thumb_x(data[6]),
        thumb_ry: spec_thumb_y(data[7]),
        left_trigger: data[8],
        right_trigger: data[9],
    }
}

/// A raw report is well formed when it is at least ten bytes long, starts
/// with the report-type tag `0x03`, and carries a D-pad value in `0..=8`.
pub open spec fn spec_report_well_formed(data: Seq<u8>) -> bool {
    &&& data.len() >= 10
    &&& data[0] == 0x03
    &&& data[1] <= 8
}

/// What decoding a raw report returns: the fully decoded report when the
/// input is well formed, and `MalformedReport` otherwise.
pub open spec fn spec_decode(data: Seq<u8>) -> Result<Report, Error> {
    if spec_report_well_formed(data) {
        Ok(
            Report {
                gamepad: spec_gamepad(data),
                is_assistant_pressed: bit_set(data[2], 0x01),
                is_capture_pressed: bit_set(data[2], 0x02),
            },
        )
    } else {
        Err(Error::MalformedReport)
    }
}

/// Applies the pre-normalization adjustment to a raw axis byte.
fn axis_adjust(v: u8) -> (r: u8)
    ensures
        r == spec_axis_adjust(v),
{
    if 0 < v && v <= 0x7f {
        v - 1
    } else {
        v
    }
}

/// Normalizes a raw X-axis byte to a signed 16-bit coordinate.
fn thumb_x(raw: u8) -> (r: i16)
    ensures
        r == spec_thumb_x(raw),
{
    let c: i32 = convert_axis_value(axis_adjust(raw));
    (c - 0x8000) as i16
}

/// Normalizes a raw Y-axis byte to a signed 16-bit coordinate.
fn thumb_y(raw: u8) -> (r: i16)
    ensures
        r == spec_thumb_y(raw),
{
    let c: i32 = convert_axis_value(axis_adjust(raw));
    let v: i32 = -c + 0x7fff;
    if v == -1 {
        0
    } else {
        v as i16
    }
}

impl Report {
    /// Decodes a raw report buffer into a normalized report.
    ///
    /// Fails with `MalformedReport` exactly when the buffer is shorter
    /// than ten bytes, does not start with the report-type tag `0x03`, or
    /// carries a D-pad value above 8. A decoded report always satisfies
    /// the D-pad invariant.
    pub fn decode(data: &[u8]) -> (r: Result<Report, Error>)
        ensures
            r == spec_decode(data@),
            r matches Ok(rep) ==> dpad_well_formed(rep.gamepad),
    {
        if data.len() < 10 {
            return Err(Error::MalformedReport);
        }
        let tag = data[0];
        let dpad = data[1];
        if tag != 0x03 || dpad > 8 {
            return Err(Error::MalformedReport);
        }
        let b0 = data[2];
        let b1 = data[3];
        let gamepad = GamepadState {
            button_a: b1 & 0x40 != 0,
            button_b: b1 & 0x20 != 0,
            button_x: b1 & 0x10 != 0,
            button_y: b1 & 0x08 != 0,
            left_shoulder: b1 & 0x04 != 0,
            right_shoulder: b1 & 0x02 != 0,
            left_thumb: b1 & 0x01 != 0,
            right_thumb: b0 & 0x80 != 0,
            back: b0 & 0x40 != 0,
            start: b0 & 0x20 != 0,
            guide: b0 & 0x10 != 0,
            dpad_up: dpad == 0 || dpad == 1 || dpad == 7,
            dpad_down: dpad == 3 || dpad == 4 || dpad == 5,
            dpad_left: dpad == 5 || dpad == 6 || dpad == 7,
            dpad_right: dpad == 1 || dpad == 2 || dpad == 3,
            thumb_lx: thumb_x(data[4]),
            thumb_ly: thumb_y(data[5]),
            thumb_rx: thumb_x(data[6]),
            thumb_ry: thumb_y(data[7]),
            left_trigger: data[8],
            right_trigger: data[9],
        };
        Ok(
            Report {
                gamepad,
                is_assistant_pressed: b0 & 0x01 != 0,
                is_capture_pressed: b0 & 0x02 != 0,
            },
        )
    }
}

/// The D-pad decoding law: for each of the nine valid source values the
/// decoded report carries exactly the documented direction combination,
/// and any larger value makes the whole report fail to decode with
/// `MalformedReport`.
pub proof fn lemma_dpad_decoding(data: Seq<u8>)
    requires
        data.len() >= 10,
        data[0] == 0x03,
    ensures
        data[1] <= 8 ==> spec_decode(data) is Ok,
        data[1] <= 8 ==> {
            let g = spec_decode(data)->Ok_0.gamepad;
            &&& data[1] == 0 ==> g.dpad_up && !g.dpad_right && !g.dpad_down && !g.dpad_left
            &&& data[1] == 1 ==> g.dpad_up && g.dpad_right && !g.dpad_down && !g.dpad_left
            &&& data[1] == 2 ==> !g.dpad_up && g.dpad_right && !g.dpad_down && !g.dpad_left
            &&& data[1] == 3 ==> !g.dpad_up && g.dpad_right && g.dpad_down && !g.dpad_left
            &&& data[1] == 4 ==> !g.dpad_up && !g.dpad_right && g.dpad_down && !g.dpad_left
            &&& data[1] == 5 ==> !g.dpad_up && !g.dpad_right && g.dpad_down && g.dpad_left
            &&& data[1] == 6 ==> !g.dpad_up && !g.dpad_right && !g.dpad_down && g.dpad_left
            &&& data[1] == 7 ==> g.dpad_up && !g.dpad_right && !g.dpad_down && g.dpad_left
            &&& data[1] == 8 ==> !g.dpad_up && !g.dpad_right && !g.dpad_down && !g.dpad_left
        },
        data[1] > 8 ==> spec_decode(data) == Err::<Report, Error>(Error::MalformedReport),
{
}

/// The fixed five-byte feedback frame the physical device expects for a
/// pair of motor intensities.
pub open spec fn spec_vibration_frame(large_motor: u8, small_motor: u8) -> Seq<u8> {
    seq![0x05u8, large_motor, large_motor, small_motor, small_motor]
}

/// Encodes two motor intensities into the device's five-byte feedback
/// command frame. Pure and total: no failure modes.
pub fn encode_vibration(large_motor: u8, small_motor: u8) -> (r: Vec<u8>)
    ensures
        r@ == spec_vibration_frame(large_motor, small_motor),
{
    let mut frame: Vec<u8> = Vec::new();
    frame.push(0x05);
    frame.push(large_motor);
    frame.push(large_motor);
    frame.push(small_motor);
    frame.push(small_motor);
    proof {
        assert(frame@ =~= spec_vibration_frame(large_motor, small_motor));
    }
    frame
}

} // verus!
