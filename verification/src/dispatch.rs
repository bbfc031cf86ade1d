//! Routing: which messages reach the gesture detector, what value they are
//! observed as, and the focus gate in front of the macro player.
use vstd::prelude::*;
use crate::gesture::{GestureState, is_trigger};
use crate::osc::{OscArg, OscMessage, decoded_of, decode_datagram};
use crate::player::{GamepadState, Frame, toggle_frames, toggle_final, run_toggle_sequence};

verus! {

/// Address of the one avatar parameter the detector watches.
pub open spec fn watched_path() -> Seq<char> {
    "/avatar/parameters/VRCEmote"@
}

/// The value a message is observed as: its first argument when that is an
/// integer, and -1 when the first argument is absent or of any other kind.
pub open spec fn observed_value(args: Seq<OscArg>) -> i32 {
    if args.len() == 0 {
        -1i32
    } else {
        match args[0] {
            OscArg::Int(v) => v,
            OscArg::Other => -1i32,
        }
    }
}

/// Extract the observed value from a message.
pub fn message_value(m: &OscMessage) -> (v: i32)
    ensures
        v == observed_value(m.args@),
{
    if m.args.len() == 0 {
        -1i32
    } else {
        match m.args[0] {
            OscArg::Int(v) => v,
            OscArg::Other => -1i32,
        }
    }
}

/// Feed one decoded message to the detector. Only a message addressed to the
/// watched path is observed; every other address leaves the detector
/// untouched and never triggers.
pub fn handle_message(gs: &mut GestureState, m: &OscMessage) -> (trigger: bool)
    ensures
        m.addr@ == watched_path() ==> final(gs).last == observed_value(m.args@)
            && trigger == is_trigger(old(gs).last, observed_value(m.args@)),
        m.addr@ != watched_path() ==> *final(gs) == *old(gs) && !trigger,
{
    let watched: String = "/avatar/parameters/VRCEmote".to_owned();
    if m.addr == watched {
        let v = message_value(m);
        gs.observe(v)
    } else {
        false
    }
}

/// Decode one datagram and feed it to the detector. A bundle or a malformed
/// datagram is ignored; so is a message to any other address.
pub fn handle_datagram(gs: &mut GestureState, buf: &[u8]) -> (trigger: bool)
    ensures
        match decoded_of(buf@) {
            Some(m) => {
                &&& m.0 == watched_path() ==> final(gs).last == observed_value(m.1)
                    && trigger == is_trigger(old(gs).last, observed_value(m.1))
                &&& m.0 != watched_path() ==> *final(gs) == *old(gs) && !trigger
            },
            None => *final(gs) == *old(gs) && !trigger,
        },
{
    match decode_datagram(buf) {
        Some(m) => handle_message(gs, &m),
        None => false,
    }
}

/// The focus gate in front of the macro player: after a trigger, the caller
/// reports whether the target window took focus. Without focus the macro is
/// not run and the gamepad is left untouched; with focus the whole toggle
/// sequence runs and its deliveries are returned.
pub fn on_gesture(focused: bool, pad: &mut GamepadState) -> (frames: Option<Vec<Frame>>)
    ensures
        !focused ==> frames is None && *final(pad) == *old(pad),
        focused ==> *final(pad) == toggle_final(*old(pad)),
        focused ==> match frames {
            Some(fs) => fs@ == toggle_frames(*old(pad)),
            None => false,
        },
{
    if focused {
        Some(run_toggle_sequence(pad))
    } else {
        None
    }
}

/// A message whose first argument is absent or not an integer is observed as
/// -1, and -1 is never the closing half of the gesture edge: such a message
/// can never itself produce a trigger, whatever was stored before it.
pub proof fn lemma_unrecognized_never_triggers(last: i32, args: Seq<OscArg>)
    requires
        args.len() == 0 || !(args[0] is Int),
    ensures
        observed_value(args) == -1,
        !is_trigger(last, observed_value(args)),
{
}

} // verus!
