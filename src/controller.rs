//! The controller's dispatch: detections fill the cache, user commands
//! become actuator commands or state changes.
use vstd::prelude::*;
use crate::message::{
    first_object, into_first_object, Command, ControlMessage, DetectorMessage, DobotMessage, Receipt,
};
use crate::slot::SingleSlot;
use crate::state::{toggled_facing, GlobalState};
use crate::supervisor::poll_outcome;

verus! {

/// The outcome of one user command: the new shared state and cache, and the
/// command posted to the actuator, if any.
pub open spec fn control_outcome(
    s: GlobalState,
    cache: Option<DetectorMessage>,
    msg: ControlMessage,
    now: u64,
) -> (GlobalState, Option<DetectorMessage>, Option<Command>) {
    match msg {
        ControlMessage::Enter => (
            s,
            None,
            match first_object(cache) {
                Some(obj) => Some((DobotMessage::GrabObject(obj), now)),
                None => None,
            },
        ),
        ControlMessage::Home => (s, cache, Some((DobotMessage::Home, now))),
        ControlMessage::Reset => (s, cache, Some((DobotMessage::Reset, now))),
        ControlMessage::ToggleCycleGrab => if s.is_dobot_busy {
            (s, cache, None)
        } else {
            (toggled_facing(s), cache, Some((DobotMessage::Switch, now)))
        },
        ControlMessage::ToggleAutoGrab => (
            GlobalState { enable_auto_grab: !s.enable_auto_grab, ..s },
            cache,
            None,
        ),
    }
}

/// Whether a posted command is a grab.
pub open spec fn is_grab(posted: Option<Command>) -> bool {
    posted matches Some((DobotMessage::GrabObject(_), _))
}

/// Stores a new detection in the cache, replacing any older one.
pub fn on_detection(cache: &mut SingleSlot<DetectorMessage>, msg: DetectorMessage)
    ensures
        final(cache)@ == Some(msg),
{
    cache.put(msg);
}

/// Handles one user command received at `now`.
///
/// Enter consumes the cache and grabs its first object, if any; Home and
/// Reset are forwarded; the facing toggle flips the facing and posts a
/// switch only while the arm is idle; the auto-grab toggle flips that flag.
pub fn dispatch_control(
    state: &mut GlobalState,
    cache: &mut SingleSlot<DetectorMessage>,
    msg: ControlMessage,
    now: u64,
) -> (r: Option<Command>)
    ensures
        (*final(state), final(cache)@, r) == control_outcome(*old(state), old(cache)@, msg, now),
{
    match msg {
        ControlMessage::Enter => {
            let cached = cache.take();
            match into_first_object(cached) {
                Some(obj) => Some((DobotMessage::GrabObject(obj), now)),
                None => None,
            }
        },
        ControlMessage::Home => Some((DobotMessage::Home, now)),
        ControlMessage::Reset => Some((DobotMessage::Reset, now)),
        ControlMessage::ToggleCycleGrab => {
            if state.toggle_facing_if_idle() {
                Some((DobotMessage::Switch, now))
            } else {
                None
            }
        },
        ControlMessage::ToggleAutoGrab => {
            state.toggle_auto_grab();
            None
        },
    }
}

/// Which input sources of the controller are still open.
#[derive(Debug, Clone, Copy, PartialEq, Eq, Structural)]
pub struct ControllerLoop {
    pub detections_open: bool,
    pub controls_open: bool,
}

impl ControllerLoop {
    /// Both sources open.
    pub fn new() -> (r: Self)
        ensures
            r.detections_open,
            r.controls_open,
    {
        ControllerLoop { detections_open: true, controls_open: true }
    }

    /// The loop ends once both sources have closed.
    pub fn is_finished(&self) -> (r: bool)
        ensures
            r == (!self.detections_open && !self.controls_open),
    {
        !self.detections_open && !self.controls_open
    }

    /// Handles a receive on the detection source: a delivered detection is
    /// cached, a gap is skipped, a closure marks the source closed.
    pub fn on_detector(&mut self, cache: &mut SingleSlot<DetectorMessage>, receipt: Receipt<DetectorMessage>)
        ensures
            match receipt {
                Receipt::Delivered(m) => *final(self) == *old(self) && final(cache)@ == Some(m),
                Receipt::MissedSome => *final(self) == *old(self) && final(cache)@ == old(cache)@,
                Receipt::Closed => *final(self) == (ControllerLoop { detections_open: false, ..*old(self) })
                    && final(cache)@ == old(cache)@,
            },
    {
        match receipt {
            Receipt::Delivered(m) => on_detection(cache, m),
            Receipt::MissedSome => {},
            Receipt::Closed => {
                self.detections_open = false;
            },
        }
    }

    /// Handles a receive on the user-command source at `now`: a delivered
    /// command is dispatched, a gap is skipped, a closure marks the source
    /// closed. Returns the command to post, if any.
    pub fn on_control(
        &mut self,
        state: &mut GlobalState,
        cache: &mut SingleSlot<DetectorMessage>,
        receipt: Receipt<ControlMessage>,
        now: u64,
    ) -> (r: Option<Command>)
        ensures
            match receipt {
                Receipt::Delivered(m) => *final(self) == *old(self) && (*final(state), final(cache)@, r)
                    == control_outcome(*old(state), old(cache)@, m, now),
                Receipt::MissedSome => *final(self) == *old(self) && *final(state) == *old(state)
                    && final(cache)@ == old(cache)@ && r is None,
                Receipt::Closed => *final(self) == (ControllerLoop { controls_open: false, ..*old(self) })
                    && *final(state) == *old(state) && final(cache)@ == old(cache)@ && r is None,
            },
    {
        match receipt {
            Receipt::Delivered(m) => dispatch_control(state, cache, m, now),
            Receipt::MissedSome => None,
            Receipt::Closed => {
                self.controls_open = false;
                None
            },
        }
    }
}

/// The facing toggle never changes the facing while the arm is busy.
pub proof fn lemma_toggle_guarded(s: GlobalState, cache: Option<DetectorMessage>, now: u64)
    requires
        s.is_dobot_busy,
    ensures
        control_outcome(s, cache, ControlMessage::ToggleCycleGrab, now).0.facing == s.facing,
{
}

/// A cached detection with an object is grabbed by exactly one of Enter and
/// the auto-grab poll: whichever runs first posts the grab and empties the
/// cache, and the other then posts no grab.
pub proof fn lemma_detection_consumed_once(
    s: GlobalState,
    d: DetectorMessage,
    idle: u32,
    first: u64,
    second: u64,
)
    requires
        d.detection.objects@.len() > 0,
    ensures
        ({
            let by_enter = control_outcome(s, Some(d), ControlMessage::Enter, first);
            let then_poll = poll_outcome(idle, by_enter.0, by_enter.1, second);
            &&& by_enter.2 == Some((DobotMessage::GrabObject(d.detection.objects@[0]), first))
            &&& by_enter.1 is None
            &&& !is_grab(then_poll.3)
        }),
        s.enable_auto_grab ==> ({
            let by_poll = poll_outcome(idle, s, Some(d), first);
            let then_enter = control_outcome(by_poll.1, by_poll.2, ControlMessage::Enter, second);
            &&& by_poll.3 == Some((DobotMessage::GrabObject(d.detection.objects@[0]), first))
            &&& by_poll.2 is None
            &&& !is_grab(then_enter.2)
        }),
{
}

} // verus!
