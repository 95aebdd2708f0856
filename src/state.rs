//! The control state shared by all tasks.
use vstd::prelude::*;

verus! {

/// Flags shared by the controller, the auto-grab supervisor and the actuator.
///
/// `is_dobot_busy` is written by the actuator alone; `facing` selects the
/// front (`true`) or the mirrored back (`false`) target geometry.
#[derive(Debug, Clone, Copy, PartialEq, Eq, Structural)]
pub struct GlobalState {
    pub is_dobot_busy: bool,
    pub enable_auto_grab: bool,
    pub facing: bool,
    pub terminate: bool,
}

/// The facing that a device reset returns to.
pub const DEFAULT_FACING: bool = true;

/// The state after a guarded facing toggle: it flips only while the arm is idle.
pub open spec fn toggled_facing(s: GlobalState) -> GlobalState {
    if s.is_dobot_busy {
        s
    } else {
        GlobalState { facing: !s.facing, ..s }
    }
}

impl GlobalState {
    /// The state at startup: every flag false.
    pub fn new() -> (r: Self)
        ensures
            !r.is_dobot_busy,
            !r.enable_auto_grab,
            !r.facing,
            !r.terminate,
    {
        GlobalState { is_dobot_busy: false, enable_auto_grab: false, facing: false, terminate: false }
    }

    /// Flips `facing` if the arm is idle; returns whether it flipped.
    pub fn toggle_facing_if_idle(&mut self) -> (flipped: bool)
        ensures
            *final(self) == toggled_facing(*old(self)),
            flipped == !old(self).is_dobot_busy,
    {
        if self.is_dobot_busy {
            false
        } else {
            self.facing = !self.facing;
            true
        }
    }

    /// Flips `enable_auto_grab`; returns the new value.
    pub fn toggle_auto_grab(&mut self) -> (enabled: bool)
        ensures
            *final(self) == (GlobalState { enable_auto_grab: !old(self).enable_auto_grab, ..*old(self) }),
            enabled == final(self).enable_auto_grab,
    {
        self.enable_auto_grab = !self.enable_auto_grab;
        self.enable_auto_grab
    }

    /// Sets the busy flag.
    pub fn set_busy(&mut self, busy: bool)
        ensures
            *final(self) == (GlobalState { is_dobot_busy: busy, ..*old(self) }),
    {
        self.is_dobot_busy = busy;
    }
}

} // verus!
