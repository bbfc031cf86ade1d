//! Macro player: composes timed gamepad actions into the fixed toggle
//! sequence. Each action mutates the gamepad snapshot and yields one `Frame`,
//! a full snapshot to be delivered to the virtual-controller service together
//! with the settle delay that must follow the delivery. The caller performs
//! the deliveries and the delays, in order, one at a time.
use vstd::prelude::*;
use crate::stick::{stick_coords, stick_x_of, stick_y_of};

verus! {

/// Settle delay after a stick move, in milliseconds.
pub const MOVE_SETTLE_MS: u64 = 200;

/// Settle delay after a trigger press, in milliseconds.
pub const PRESS_SETTLE_MS: u64 = 100;

/// Settle delay after a trigger release, in milliseconds.
pub const RELEASE_SETTLE_MS: u64 = 300;

/// Full-scale trigger magnitude.
pub const TRIGGER_MAX: u8 = 255;

/// Snapshot of everything the virtual controller asserts: a button bitmask,
/// two sticks, two triggers.
#[derive(Clone, Copy, PartialEq, Eq, Structural, Debug)]
pub struct GamepadState {
    pub buttons: u16,
    pub thumb_lx: i16,
    pub thumb_ly: i16,
    pub thumb_rx: i16,
    pub thumb_ry: i16,
    pub left_trigger: u8,
    pub right_trigger: u8,
}

impl GamepadState {
    /// A neutral snapshot: nothing pressed, both sticks centered.
    pub fn new() -> (s: Self)
        ensures
            s == neutral_pad(),
    {
        GamepadState {
            buttons: 0,
            thumb_lx: 0,
            thumb_ly: 0,
            thumb_rx: 0,
            thumb_ry: 0,
            left_trigger: 0,
            right_trigger: 0,
        }
    }
}

/// The snapshot `GamepadState::new` returns.
pub open spec fn neutral_pad() -> GamepadState {
    GamepadState {
        buttons: 0,
        thumb_lx: 0,
        thumb_ly: 0,
        thumb_rx: 0,
        thumb_ry: 0,
        left_trigger: 0,
        right_trigger: 0,
    }
}

/// One delivery to the virtual-controller service: the snapshot to submit
/// and the settle delay to wait after submitting it.
#[derive(Clone, Copy, PartialEq, Eq, Structural, Debug)]
pub struct Frame {
    pub pad: GamepadState,
    pub delay_ms: u64,
}

/// `p` with the right stick at `(x, y)`.
pub open spec fn with_stick(p: GamepadState, x: i16, y: i16) -> GamepadState {
    GamepadState { thumb_rx: x, thumb_ry: y, ..p }
}

/// `p` with the right trigger at `t`.
pub open spec fn with_trigger(p: GamepadState, t: u8) -> GamepadState {
    GamepadState { right_trigger: t, ..p }
}

pub open spec fn frame(p: GamepadState, delay_ms: u64) -> Frame {
    Frame { pad: p, delay_ms }
}

/// What a stick move delivers: nothing when the stick is already there,
/// else the moved snapshot with its settle delay.
pub open spec fn move_frames(p: GamepadState, x: i16, y: i16) -> Seq<Frame> {
    if p.thumb_rx == x && p.thumb_ry == y {
        Seq::<Frame>::empty()
    } else {
        seq![frame(with_stick(p, x, y), MOVE_SETTLE_MS)]
    }
}

/// Move the right stick to `(x, y)`. A move to the current position is a
/// no-op: nothing is delivered and no delay is incurred.
pub fn move_stick(pad: &mut GamepadState, x: i16, y: i16, out: &mut Vec<Frame>)
    ensures
        *final(pad) == with_stick(*old(pad), x, y),
        final(out)@ == old(out)@ + move_frames(*old(pad), x, y),
{
    if x != pad.thumb_rx || y != pad.thumb_ry {
        pad.thumb_rx = x;
        pad.thumb_ry = y;
        out.push(Frame { pad: *pad, delay_ms: MOVE_SETTLE_MS });
    } else {
        assert(out@ =~= old(out)@ + move_frames(*old(pad), x, y));
    }
}

/// Press the right trigger to full scale.
pub fn press_trigger(pad: &mut GamepadState, out: &mut Vec<Frame>)
    ensures
        *final(pad) == with_trigger(*old(pad), TRIGGER_MAX),
        final(out)@ == old(out)@.push(frame(with_trigger(*old(pad), TRIGGER_MAX), PRESS_SETTLE_MS)),
{
    pad.right_trigger = TRIGGER_MAX;
    out.push(Frame { pad: *pad, delay_ms: PRESS_SETTLE_MS });
}

/// Release the right trigger.
pub fn release_trigger(pad: &mut GamepadState, out: &mut Vec<Frame>)
    ensures
        *final(pad) == with_trigger(*old(pad), 0),
        final(out)@ == old(out)@.push(frame(with_trigger(*old(pad), 0), RELEASE_SETTLE_MS)),
{
    pad.right_trigger = 0;
    out.push(Frame { pad: *pad, delay_ms: RELEASE_SETTLE_MS });
}

/// The snapshot after one click at `deg`: stick at the angle's coordinates,
/// trigger released.
pub open spec fn after_click(p: GamepadState, deg: u16) -> GamepadState {
    with_trigger(with_stick(p, stick_x_of(deg), stick_y_of(deg)), 0)
}

/// What one click at `deg` delivers: the stick move (unless the stick is
/// already at the angle's coordinates), then the trigger press, then the
/// trigger release.
pub open spec fn click_frames(p: GamepadState, deg: u16) -> Seq<Frame> {
    let moved = with_stick(p, stick_x_of(deg), stick_y_of(deg));
    move_frames(p, stick_x_of(deg), stick_y_of(deg))
        + seq![
            frame(with_trigger(moved, TRIGGER_MAX), PRESS_SETTLE_MS),
            frame(with_trigger(moved, 0), RELEASE_SETTLE_MS),
        ]
}

/// One discrete click at a stick angle: move the stick there if needed, then
/// press and release the trigger. The press and release always happen, even
/// when the stick did not need to move.
pub fn click_angle(pad: &mut GamepadState, deg: u16, out: &mut Vec<Frame>)
    requires
        deg <= 360,
    ensures
        *final(pad) == after_click(*old(pad), deg),
        final(out)@ == old(out)@ + click_frames(*old(pad), deg),
{
    let (x, y) = stick_coords(deg);
    move_stick(pad, x, y, out);
    press_trigger(pad, out);
    release_trigger(pad, out);
    assert(out@ =~= old(out)@ + click_frames(*old(pad), deg));
}

/// The angles of the toggle sequence, in order: six clicks straight up, one
/// at 190 degrees, two at 180 degrees.
pub open spec fn toggle_degs() -> Seq<u16> {
    seq![0u16, 0u16, 0u16, 0u16, 0u16, 0u16, 190u16, 180u16, 180u16]
}

/// The snapshot after clicking every angle of `degs` in order, from `p`.
pub open spec fn pad_after_clicks(p: GamepadState, degs: Seq<u16>) -> GamepadState
    decreases degs.len(),
{
    if degs.len() == 0 {
        p
    } else {
        pad_after_clicks(after_click(p, degs[0]), degs.drop_first())
    }
}

/// Everything that clicking every angle of `degs` in order delivers.
pub open spec fn frames_for_clicks(p: GamepadState, degs: Seq<u16>) -> Seq<Frame>
    decreases degs.len(),
{
    if degs.len() == 0 {
        Seq::<Frame>::empty()
    } else {
        click_frames(p, degs[0])
            + frames_for_clicks(after_click(p, degs[0]), degs.drop_first())
    }
}

/// The snapshot a toggle run leaves behind: the last click's state with the
/// stick recentered.
pub open spec fn toggle_final(p: GamepadState) -> GamepadState {
    with_stick(pad_after_clicks(p, toggle_degs()), 0, 0)
}

/// Everything a toggle run delivers: the nine clicks, then one recentering
/// delivery with no settle delay.
pub open spec fn toggle_frames(p: GamepadState) -> Seq<Frame> {
    frames_for_clicks(p, toggle_degs()).push(frame(toggle_final(p), 0))
}

/// Extending a click run by one angle appends that click's deliveries.
proof fn lemma_clicks_take_step(p: GamepadState, degs: Seq<u16>, i: int)
    requires
        0 <= i < degs.len(),
    ensures
        pad_after_clicks(p, degs.take(i + 1))
            == after_click(pad_after_clicks(p, degs.take(i)), degs[i]),
        frames_for_clicks(p, degs.take(i + 1))
            == frames_for_clicks(p, degs.take(i))
                + click_frames(pad_after_clicks(p, degs.take(i)), degs[i]),
    decreases i,
{
    if i == 0 {
        assert(degs.take(0) =~= Seq::<u16>::empty());
        assert(degs.take(1) =~= seq![degs[0]]);
        assert(degs.take(1).drop_first() =~= Seq::<u16>::empty());
        assert(pad_after_clicks(p, degs.take(0)) == p);
        assert(pad_after_clicks(after_click(p, degs[0]), Seq::<u16>::empty())
            == after_click(p, degs[0]));
        assert(pad_after_clicks(p, degs.take(1)) == after_click(p, degs[0]));
        assert(frames_for_clicks(p, degs.take(0)) == Seq::<Frame>::empty());
        assert(frames_for_clicks(after_click(p, degs[0]), Seq::<u16>::empty())
            == Seq::<Frame>::empty());
        assert(frames_for_clicks(p, degs.take(1))
            == click_frames(p, degs[0]) + Seq::<Frame>::empty());
        assert(frames_for_clicks(p, degs.take(i + 1))
            =~= frames_for_clicks(p, degs.take(i))
                + click_frames(pad_after_clicks(p, degs.take(i)), degs[i]));
    } else {
        let q = after_click(p, degs[0]);
        let dd = degs.drop_first();
        lemma_clicks_take_step(q, dd, i - 1);
        assert(degs.take(i + 1).drop_first() =~= dd.take(i));
        assert(degs.take(i).drop_first() =~= dd.take(i - 1));
        assert(degs.take(i)[0] == degs[0]);
        assert(degs.take(i + 1)[0] == degs[0]);
        assert(dd[i - 1] == degs[i]);
        assert(pad_after_clicks(p, degs.take(i + 1)) == pad_after_clicks(q, dd.take(i)));
        assert(pad_after_clicks(p, degs.take(i)) == pad_after_clicks(q, dd.take(i - 1)));
        assert(frames_for_clicks(p, degs.take(i + 1))
            == click_frames(p, degs[0]) + frames_for_clicks(q, dd.take(i)));
        assert(frames_for_clicks(p, degs.take(i))
            == click_frames(p, degs[0]) + frames_for_clicks(q, dd.take(i - 1)));
        assert(frames_for_clicks(p, degs.take(i + 1))
            =~= frames_for_clicks(p, degs.take(i))
                + click_frames(pad_after_clicks(p, degs.take(i)), degs[i]));
    }
}

/// How many discrete clicks a run of frames carries: each click delivers
/// exactly one snapshot with the trigger-press settle delay, and no other
/// delivery uses that delay.
pub open spec fn press_count(fs: Seq<Frame>) -> nat
    decreases fs.len(),
{
    if fs.len() == 0 {
        0nat
    } else {
        (if fs[0].delay_ms == PRESS_SETTLE_MS {
            1nat
        } else {
            0nat
        }) + press_count(fs.drop_first())
    }
}

proof fn lemma_press_count_add(a: Seq<Frame>, b: Seq<Frame>)
    ensures
        press_count(a + b) == press_count(a) + press_count(b),
    decreases a.len(),
{
    if a.len() == 0 {
        assert(a + b =~= b);
    } else {
        lemma_press_count_add(a.drop_first(), b);
        assert((a + b).drop_first() =~= a.drop_first() + b);
    }
}

proof fn lemma_click_press_count(p: GamepadState, deg: u16)
    ensures
        press_count(click_frames(p, deg)) == 1,
{
    let moved = with_stick(p, stick_x_of(deg), stick_y_of(deg));
    let f1 = frame(with_trigger(moved, TRIGGER_MAX), PRESS_SETTLE_MS);
    let f2 = frame(with_trigger(moved, 0), RELEASE_SETTLE_MS);
    let tail = seq![f1, f2];
    assert(press_count(Seq::<Frame>::empty()) == 0);
    assert(seq![f2].drop_first() =~= Seq::<Frame>::empty());
    assert(press_count(seq![f2]) == 0);
    assert(tail.drop_first() =~= seq![f2]);
    assert(press_count(tail) == 1);
    lemma_press_count_add(move_frames(p, stick_x_of(deg), stick_y_of(deg)), tail);
    if p.thumb_rx == stick_x_of(deg) && p.thumb_ry == stick_y_of(deg) {
        assert(press_count(move_frames(p, stick_x_of(deg), stick_y_of(deg))) == 0);
    } else {
        let mv = move_frames(p, stick_x_of(deg), stick_y_of(deg));
        assert(mv =~= seq![frame(moved, MOVE_SETTLE_MS)]);
        assert(mv.drop_first() =~= Seq::<Frame>::empty());
        assert(press_count(mv) == 0);
    }
    assert(click_frames(p, deg)
        == move_frames(p, stick_x_of(deg), stick_y_of(deg)) + tail);
}

proof fn lemma_clicks_press_count(p: GamepadState, degs: Seq<u16>)
    ensures
        press_count(frames_for_clicks(p, degs)) == degs.len(),
    decreases degs.len(),
{
    if degs.len() == 0 {
    } else {
        lemma_click_press_count(p, degs[0]);
        lemma_clicks_press_count(after_click(p, degs[0]), degs.drop_first());
        lemma_press_count_add(
            click_frames(p, degs[0]),
            frames_for_clicks(after_click(p, degs[0]), degs.drop_first()),
        );
    }
}

proof fn lemma_clicks_leave_trigger_released(p: GamepadState, degs: Seq<u16>)
    requires
        degs.len() > 0,
    ensures
        pad_after_clicks(p, degs).right_trigger == 0,
    decreases degs.len(),
{
    if degs.len() == 1 {
        assert(degs.drop_first() =~= Seq::<u16>::empty());
        assert(pad_after_clicks(after_click(p, degs[0]), Seq::<u16>::empty())
            == after_click(p, degs[0]));
    } else {
        lemma_clicks_leave_trigger_released(after_click(p, degs[0]), degs.drop_first());
        assert(pad_after_clicks(p, degs)
            == pad_after_clicks(after_click(p, degs[0]), degs.drop_first()));
    }
}

proof fn lemma_clicks_touch_only_right_side(p: GamepadState, degs: Seq<u16>)
    ensures
        pad_after_clicks(p, degs).buttons == p.buttons,
        pad_after_clicks(p, degs).thumb_lx == p.thumb_lx,
        pad_after_clicks(p, degs).thumb_ly == p.thumb_ly,
        pad_after_clicks(p, degs).left_trigger == p.left_trigger,
    decreases degs.len(),
{
    if degs.len() == 0 {
    } else {
        lemma_clicks_touch_only_right_side(after_click(p, degs[0]), degs.drop_first());
    }
}

/// What one full toggle run amounts to, from any starting snapshot: exactly
/// nine discrete clicks are delivered, the run ends with one recentering
/// delivery, and the snapshot left behind has the stick at (0, 0) and the
/// right trigger released, while the buttons, the left stick and the left
/// trigger stand as they started (so a run from a snapshot with the left
/// trigger at rest ends with both triggers at 0).
pub proof fn lemma_toggle_completeness(p: GamepadState)
    ensures
        press_count(toggle_frames(p)) == 9,
        toggle_frames(p).len() >= 1,
        toggle_frames(p).last() == frame(toggle_final(p), 0),
        toggle_final(p).thumb_rx == 0,
        toggle_final(p).thumb_ry == 0,
        toggle_final(p).right_trigger == 0,
        toggle_final(p).buttons == p.buttons,
        toggle_final(p).thumb_lx == p.thumb_lx,
        toggle_final(p).thumb_ly == p.thumb_ly,
        toggle_final(p).left_trigger == p.left_trigger,
{
    lemma_clicks_press_count(p, toggle_degs());
    lemma_clicks_leave_trigger_released(p, toggle_degs());
    lemma_clicks_touch_only_right_side(p, toggle_degs());
    let fin = frame(toggle_final(p), 0);
    lemma_press_count_add(frames_for_clicks(p, toggle_degs()), seq![fin]);
    assert(seq![fin].drop_first() =~= Seq::<Frame>::empty());
    assert(press_count(Seq::<Frame>::empty()) == 0);
    assert(press_count(seq![fin]) == 0);
    assert(toggle_frames(p) =~= frames_for_clicks(p, toggle_degs()) + seq![fin]);
}

/// Clicking the same angle twice in a row skips the stick move the second
/// time: the second click delivers exactly two frames, the trigger press and
/// the trigger release, and leaves the snapshot where the first click left
/// it.
pub proof fn lemma_second_click_skips_move(p: GamepadState, deg: u16)
    ensures
        click_frames(after_click(p, deg), deg).len() == 2,
        click_frames(after_click(p, deg), deg)[0].delay_ms == PRESS_SETTLE_MS,
        click_frames(after_click(p, deg), deg)[0].pad.right_trigger == TRIGGER_MAX,
        click_frames(after_click(p, deg), deg)[1].delay_ms == RELEASE_SETTLE_MS,
        click_frames(after_click(p, deg), deg)[1].pad.right_trigger == 0,
        after_click(after_click(p, deg), deg) == after_click(p, deg),
{
}

/// Run the whole toggle sequence from the current snapshot: nine clicks in
/// the fixed order, then recenter the stick and deliver one final snapshot
/// with no settle delay. The returned frames are everything the run asks the
/// virtual-controller service to deliver, in order.
pub fn run_toggle_sequence(pad: &mut GamepadState) -> (frames: Vec<Frame>)
    ensures
        *final(pad) == toggle_final(*old(pad)),
        frames@ == toggle_frames(*old(pad)),
{
    let mut out: Vec<Frame> = Vec::new();
    let ghost p0 = *pad;
    assert(out@ =~= frames_for_clicks(p0, toggle_degs().take(0)));
    let mut i: usize = 0;
    while i < 9
        invariant
            i <= 9,
            *pad == pad_after_clicks(p0, toggle_degs().take(i as int)),
            out@ == frames_for_clicks(p0, toggle_degs().take(i as int)),
        decreases 9 - i,
    {
        let d: u16 = if i < 6 { 0 } else if i == 6 { 190 } else { 180 };
        proof {
            assert(d == toggle_degs()[i as int]);
            lemma_clicks_take_step(p0, toggle_degs(), i as int);
        }
        click_angle(pad, d, &mut out);
        i += 1;
    }
    assert(toggle_degs().take(9) =~= toggle_degs());
    pad.thumb_rx = 0;
    pad.thumb_ry = 0;
    out.push(Frame { pad: *pad, delay_ms: 0 });
    out
}

} // verus!
