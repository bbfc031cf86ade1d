//! Gesture detector: a one-sample state machine over the watched avatar
//! parameter. It stores the last observed value and fires exactly on the
//! falling edge from the "menu open" value to 0.
use vstd::prelude::*;

verus! {

/// Parameter value that the upstream application reports while the radial
/// menu is open. An opaque domain constant of that application's encoding.
pub const MENU_OPEN: i32 = 212;

/// True exactly when a new observation `value` after a stored `last` is the
/// "menu closed after being opened" edge.
pub open spec fn is_trigger(last: i32, value: i32) -> bool {
    last == MENU_OPEN && value == 0
}

/// Last observed value of the watched avatar parameter; `-1` stands for a
/// malformed or unrecognized payload.
#[derive(Clone, Copy, PartialEq, Eq, Structural, Debug)]
pub struct GestureState {
    pub last: i32,
}

impl GestureState {
    /// A fresh detector, as at process start: nothing observed yet.
    pub fn new() -> (s: Self)
        ensures
            s.last == 0,
    {
        GestureState { last: 0 }
    }

    /// Feed one observed value. Returns true exactly on the trigger edge:
    /// the stored value was `MENU_OPEN` and the new one is 0. The new value
    /// is always stored, edge or not.
    pub fn observe(&mut self, value: i32) -> (trigger: bool)
        ensures
            final(self).last == value,
            trigger == is_trigger(old(self).last, value),
    {
        let fired = self.last == MENU_OPEN && value == 0;
        self.last = value;
        fired
    }
}

/// A trigger never fires twice off one opening: whatever fired has stored 0,
/// and 0 is not the menu-open value, so no following observation can see an
/// open menu that was not re-opened.
pub proof fn lemma_edge_not_level(value: i32)
    ensures
        !is_trigger(0, value),
{
}

} // verus!
