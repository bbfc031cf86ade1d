use emote_bridge::dispatch::{handle_datagram, handle_message, message_value, on_gesture};
use emote_bridge::gesture::{GestureState, MENU_OPEN};
use emote_bridge::osc::{OscArg, OscMessage};
use emote_bridge::player::{click_angle, run_toggle_sequence, Frame, GamepadState};
use emote_bridge::stick::{stick_coords, STICK_MAX};

const WATCHED: &str = "/avatar/parameters/VRCEmote";

fn press_frames(frames: &[Frame]) -> usize {
    frames.iter().filter(|f| f.delay_ms == 100).count()
}

fn release_frames(frames: &[Frame]) -> usize {
    frames.iter().filter(|f| f.delay_ms == 300).count()
}

fn move_frames(frames: &[Frame]) -> usize {
    frames.iter().filter(|f| f.delay_ms == 200).count()
}

// Angle mapping: 0 degrees points straight up, 90 right, 180 down, each
// within one unit of full scale on one axis and of zero on the other.
#[test]
fn angle_zero_points_up() {
    let (x, y) = stick_coords(0);
    assert!((x as i32).abs() <= 1, "x = {}", x);
    assert!((y as i32 - STICK_MAX as i32).abs() <= 1, "y = {}", y);
}

#[test]
fn angle_180_points_down() {
    let (x, y) = stick_coords(180);
    assert!((x as i32).abs() <= 1, "x = {}", x);
    assert!((y as i32 + STICK_MAX as i32).abs() <= 1, "y = {}", y);
}

#[test]
fn angle_90_points_right() {
    let (x, y) = stick_coords(90);
    assert!((x as i32 - STICK_MAX as i32).abs() <= 1, "x = {}", x);
    assert!((y as i32).abs() <= 1, "y = {}", y);
}

#[test]
fn angle_270_points_left() {
    let (x, y) = stick_coords(270);
    assert!((x as i32 + STICK_MAX as i32).abs() <= 1, "x = {}", x);
    assert!((y as i32).abs() <= 1, "y = {}", y);
}

#[test]
fn angle_mapping_deterministic() {
    assert_eq!(stick_coords(190), stick_coords(190));
    assert_eq!(stick_coords(0), stick_coords(360));
    let (x, y) = stick_coords(190);
    assert!(x < 0 && y < 0, "190 degrees is down-left, got ({}, {})", x, y);
}

// Edge trigger: [5, 212, 0] fires exactly once, on the third value.
#[test]
fn edge_sequence_fires_once() {
    let mut gs = GestureState::new();
    assert_eq!(gs.last, 0);
    assert!(!gs.observe(5));
    assert!(!gs.observe(212));
    assert!(gs.observe(0));
    assert_eq!(gs.last, 0);
}

// [212, 5, 0] never fires: the 0 does not directly follow the open value.
#[test]
fn edge_needs_direct_fall() {
    let mut gs = GestureState::new();
    assert!(!gs.observe(212));
    assert!(!gs.observe(5));
    assert!(!gs.observe(0));
}

// [212, 0, 0] fires exactly once, on the first 0: edge, not level.
#[test]
fn edge_does_not_refire() {
    let mut gs = GestureState::new();
    assert!(!gs.observe(212));
    assert!(gs.observe(0));
    assert!(!gs.observe(0));
}

#[test]
fn menu_open_constant() {
    assert_eq!(MENU_OPEN, 212);
}

// Sentinel: a missing or non-integer first argument is observed as -1 and
// never triggers, even right after the menu-open value.
#[test]
fn missing_arg_is_sentinel() {
    let mut gs = GestureState { last: 212 };
    let m = OscMessage { addr: String::from(WATCHED), args: vec![] };
    assert_eq!(message_value(&m), -1);
    assert!(!handle_message(&mut gs, &m));
    assert_eq!(gs.last, -1);
}

#[test]
fn non_integer_arg_is_sentinel() {
    let mut gs = GestureState { last: 212 };
    let m = OscMessage { addr: String::from(WATCHED), args: vec![OscArg::Other] };
    assert_eq!(message_value(&m), -1);
    assert!(!handle_message(&mut gs, &m));
    assert_eq!(gs.last, -1);
}

#[test]
fn integer_arg_is_observed() {
    let m = OscMessage { addr: String::from(WATCHED), args: vec![OscArg::Int(7)] };
    assert_eq!(message_value(&m), 7);
}

#[test]
fn other_address_is_ignored() {
    let mut gs = GestureState { last: 212 };
    let m = OscMessage {
        addr: String::from("/avatar/parameters/Other"),
        args: vec![OscArg::Int(0)],
    };
    assert!(!handle_message(&mut gs, &m));
    assert_eq!(gs.last, 212, "an ignored message must not overwrite the state");
}

#[test]
fn watched_message_triggers() {
    let mut gs = GestureState { last: 212 };
    let m = OscMessage { addr: String::from(WATCHED), args: vec![OscArg::Int(0)] };
    assert!(handle_message(&mut gs, &m));
    assert_eq!(gs.last, 0);
}

// Macro completeness: one run issues exactly 9 clicks (press/release pairs),
// ends with one recentering delivery, and leaves the pad neutral.
#[test]
fn toggle_sequence_is_complete() {
    let mut pad = GamepadState::new();
    let frames = run_toggle_sequence(&mut pad);
    assert_eq!(press_frames(&frames), 9);
    assert_eq!(release_frames(&frames), 9);
    let last = frames.last().expect("a run delivers at least the recenter");
    assert_eq!(last.delay_ms, 0);
    assert_eq!(last.pad, pad);
    assert_eq!(pad.thumb_rx, 0);
    assert_eq!(pad.thumb_ry, 0);
    assert_eq!(pad.right_trigger, 0);
    assert_eq!(pad.left_trigger, 0);
}

// Six equal clicks share one stick move; 190 and the first 180 move again,
// the second 180 does not: three moves, 9 press/release pairs, one recenter.
#[test]
fn toggle_sequence_frame_breakdown() {
    let mut pad = GamepadState::new();
    let frames = run_toggle_sequence(&mut pad);
    assert_eq!(move_frames(&frames), 3);
    assert_eq!(frames.len(), 3 + 9 * 2 + 1);
}

#[test]
fn toggle_sequence_keeps_buttons_and_left_side() {
    let mut pad = GamepadState::new();
    pad.buttons = 0x5109;
    pad.thumb_lx = -123;
    pad.thumb_ly = 77;
    let _ = run_toggle_sequence(&mut pad);
    assert_eq!(pad.buttons, 0x5109);
    assert_eq!(pad.thumb_lx, -123);
    assert_eq!(pad.thumb_ly, 77);
}

// No-op stick optimization: a second click at the same angle skips the
// stick-move delivery but still presses and releases the trigger.
#[test]
fn second_click_skips_move() {
    let mut pad = GamepadState::new();
    let mut out: Vec<Frame> = Vec::new();
    click_angle(&mut pad, 190, &mut out);
    assert_eq!(out.len(), 3);
    assert_eq!(out[0].delay_ms, 200);
    let after_first = pad;
    let mut again: Vec<Frame> = Vec::new();
    click_angle(&mut pad, 190, &mut again);
    assert_eq!(again.len(), 2);
    assert_eq!(again[0].delay_ms, 100);
    assert_eq!(again[0].pad.right_trigger, 255);
    assert_eq!(again[1].delay_ms, 300);
    assert_eq!(again[1].pad.right_trigger, 0);
    assert_eq!(pad, after_first);
}

// Focus gate: no focus, no macro run, no gamepad mutation.
#[test]
fn no_focus_no_frames() {
    let mut pad = GamepadState::new();
    pad.thumb_rx = 11;
    pad.right_trigger = 22;
    let before = pad;
    assert!(on_gesture(false, &mut pad).is_none());
    assert_eq!(pad, before);
}

#[test]
fn focus_runs_macro() {
    let mut pad = GamepadState::new();
    let frames = on_gesture(true, &mut pad).expect("focus granted runs the macro");
    assert_eq!(press_frames(&frames), 9);
    assert_eq!(frames.last().unwrap().pad, pad);
}

fn encode_message(addr: &str, args: Vec<rosc::OscType>) -> Vec<u8> {
    rosc::encoder::encode(&rosc::OscPacket::Message(rosc::OscMessage {
        addr: String::from(addr),
        args,
    }))
    .expect("encoding a well-formed message succeeds")
}

// Wire decoding feeds the detector: a real datagram carrying the open value
// and then one carrying 0 produce exactly one trigger.
#[test]
fn datagram_edge_fires() {
    let mut gs = GestureState::new();
    let open = encode_message(WATCHED, vec![rosc::OscType::Int(212)]);
    let close = encode_message(WATCHED, vec![rosc::OscType::Int(0)]);
    assert!(!handle_datagram(&mut gs, &open));
    assert_eq!(gs.last, 212);
    assert!(handle_datagram(&mut gs, &close));
    assert_eq!(gs.last, 0);
}

#[test]
fn datagram_other_address_ignored() {
    let mut gs = GestureState { last: 212 };
    let other = encode_message("/avatar/parameters/Other", vec![rosc::OscType::Int(0)]);
    assert!(!handle_datagram(&mut gs, &other));
    assert_eq!(gs.last, 212);
}

#[test]
fn datagram_float_arg_is_sentinel() {
    let mut gs = GestureState { last: 212 };
    let msg = encode_message(WATCHED, vec![rosc::OscType::Float(0.0)]);
    assert!(!handle_datagram(&mut gs, &msg));
    assert_eq!(gs.last, -1);
}

#[test]
fn datagram_bundle_ignored() {
    let mut gs = GestureState { last: 212 };
    let bundle = rosc::encoder::encode(&rosc::OscPacket::Bundle(rosc::OscBundle {
        timetag: rosc::OscTime { seconds: 0, fractional: 0 },
        content: vec![rosc::OscPacket::Message(rosc::OscMessage {
            addr: String::from(WATCHED),
            args: vec![rosc::OscType::Int(0)],
        })],
    }))
    .expect("encoding a bundle succeeds");
    assert!(!handle_datagram(&mut gs, &bundle));
    assert_eq!(gs.last, 212, "bundle contents are not unpacked");
}

#[test]
fn datagram_malformed_ignored() {
    let mut gs = GestureState { last: 212 };
    assert!(!handle_datagram(&mut gs, &[1u8, 2, 3]));
    assert_eq!(gs.last, 212);
}
