//! The auto-grab supervisor: on each poll it promotes a cached detection
//! into a grab, or, after repeated empty polls with an idle arm, pivots to
//! the other facing.
use vstd::prelude::*;
use crate::message::{first_object, into_first_object, Command, DetectorMessage, DobotMessage};
use crate::slot::SingleSlot;
use crate::state::{toggled_facing, GlobalState};

verus! {

/// Time between two polls, in milliseconds.
pub const POLL_PERIOD_MS: u64 = 100;

/// Length of the idle heartbeat posted after an empty poll, in milliseconds.
pub const IDLE_NOOP_MS: u64 = 3000;

/// Empty polls answered with a heartbeat before the supervisor switches sides.
pub const IDLE_POLLS_BEFORE_SWITCH: u32 = 2;

/// The supervisor's memory: consecutive empty polls with an idle arm.
#[derive(Debug, Clone, Copy, PartialEq, Eq, Structural)]
pub struct AutoGrab {
    pub idle_polls: u32,
}

/// The outcome of one poll: the new idle count, shared state and cache, and
/// the command posted, if any.
pub open spec fn poll_outcome(idle: u32, s: GlobalState, cache: Option<DetectorMessage>, now: u64) -> (
    u32,
    GlobalState,
    Option<DetectorMessage>,
    Option<Command>,
) {
    if !s.enable_auto_grab {
        (idle, s, cache, None)
    } else {
        match first_object(cache) {
            Some(obj) => (0, s, None, Some((DobotMessage::GrabObject(obj), now))),
            None => if s.is_dobot_busy {
                (idle, s, None, None)
            } else if idle < IDLE_POLLS_BEFORE_SWITCH {
                ((idle + 1) as u32, s, None, Some((DobotMessage::Noop(IDLE_NOOP_MS), now)))
            } else {
                (0, toggled_facing(s), None, Some((DobotMessage::Switch, now)))
            },
        }
    }
}

impl AutoGrab {
    /// A supervisor that has seen no empty poll.
    pub fn new() -> (r: Self)
        ensures
            r.idle_polls == 0,
    {
        AutoGrab { idle_polls: 0 }
    }

    /// One poll at `now`. Does nothing while auto-grab is off. Otherwise
    /// takes the cached detection: its first object becomes a grab; with no
    /// object and an idle arm, the first two empty polls post a heartbeat
    /// and the third flips the facing and posts a switch.
    pub fn poll(&mut self, state: &mut GlobalState, cache: &mut SingleSlot<DetectorMessage>, now: u64) -> (r: Option<Command>)
        ensures
            (final(self).idle_polls, *final(state), final(cache)@, r) == poll_outcome(
                old(self).idle_polls,
                *old(state),
                old(cache)@,
                now,
            ),
    {
        if !state.enable_auto_grab {
            return None;
        }
        let cached = cache.take();
        match into_first_object(cached) {
            Some(obj) => {
                self.idle_polls = 0;
                Some((DobotMessage::GrabObject(obj), now))
            },
            None => {
                if state.is_dobot_busy {
                    None
                } else if self.idle_polls < IDLE_POLLS_BEFORE_SWITCH {
                    self.idle_polls = self.idle_polls + 1;
                    Some((DobotMessage::Noop(IDLE_NOOP_MS), now))
                } else {
                    self.idle_polls = 0;
                    state.toggle_facing_if_idle();
                    Some((DobotMessage::Switch, now))
                }
            },
        }
    }
}

/// With auto-grab on and an idle arm, three empty polls from a fresh count
/// post a heartbeat, a heartbeat, then a switch, and the facing flips only
/// at the third.
pub proof fn lemma_idle_escalation(s: GlobalState, t1: u64, t2: u64, t3: u64)
    requires
        s.enable_auto_grab,
        !s.is_dobot_busy,
    ensures
        ({
            let p1 = poll_outcome(0, s, None, t1);
            let p2 = poll_outcome(p1.0, p1.1, None, t2);
            let p3 = poll_outcome(p2.0, p2.1, None, t3);
            &&& p1.3 == Some((DobotMessage::Noop(IDLE_NOOP_MS), t1))
            &&& p2.3 == Some((DobotMessage::Noop(IDLE_NOOP_MS), t2))
            &&& p3.3 == Some((DobotMessage::Switch, t3))
            &&& p1.1.facing == s.facing
            &&& p2.1.facing == s.facing
            &&& p3.1 == GlobalState { facing: !s.facing, ..s }
            &&& p3.0 == 0
        }),
{
}

/// With auto-grab on and an idle arm, any three consecutive empty polls
/// flip the facing exactly once and end with the count they started from.
pub proof fn lemma_one_flip_per_three_polls(idle: u32, s: GlobalState, t1: u64, t2: u64, t3: u64)
    requires
        s.enable_auto_grab,
        !s.is_dobot_busy,
        idle <= IDLE_POLLS_BEFORE_SWITCH,
    ensures
        ({
            let p1 = poll_outcome(idle, s, None, t1);
            let p2 = poll_outcome(p1.0, p1.1, None, t2);
            let p3 = poll_outcome(p2.0, p2.1, None, t3);
            &&& p3.1 == GlobalState { facing: !s.facing, ..s }
            &&& p3.0 == idle
        }),
{
}

} // verus!
