//! The actuator's command sequencing: which received commands run, and the
//! motion program each one runs.
//!
//! The actuator task receives a command from the mailbox, asks `handle` for
//! a verdict, performs the motions of an accepted command in order, then
//! reports completion with `complete`.
use vstd::prelude::*;
use crate::config::ControllerConfig;
use crate::geometry::{height_at, height_for_depth, place, placed, Pose};
use crate::message::{DobotMessage, Object};
use crate::state::{GlobalState, DEFAULT_FACING};

verus! {

/// Maximum age, in milliseconds, of a command that may still run.
pub const STALENESS_MS: u64 = 100;

/// One step of a motion program for the device.
#[derive(Debug, Clone, Copy, PartialEq, Eq, Structural)]
pub enum Motion {
    /// Open the gripper.
    Release,
    /// Close the gripper.
    Grip,
    /// Move to a pose and wait for the move to finish.
    MoveTo(Pose),
    /// Dwell for a number of milliseconds.
    Wait(u64),
    /// Re-zero the device's reference frame.
    SetHome,
}

/// What the actuator does with a received command.
#[derive(Debug, Clone, PartialEq)]
pub enum Verdict {
    /// Older than the staleness window: dropped.
    Stale,
    /// A grab posted before the previous grab completed: dropped.
    CoolingDown,
    /// Accepted: the motions to perform, in order.
    Run(Vec<Motion>),
}

/// The actuator's own memory across commands.
#[derive(Debug, Clone, Copy, PartialEq, Eq, Structural)]
pub struct ActuatorState {
    /// Completion time of the last grab; grabs posted earlier are refused.
    pub watermark: u64,
    /// The drop bin the next grab uses.
    pub next_bin: usize,
}

/// A command posted at `enqueued` is stale at `now`.
pub open spec fn is_stale(enqueued: u64, now: u64) -> bool {
    enqueued + STALENESS_MS < now
}

/// Whether a command posted at `enqueued` and received at `now` runs.
pub open spec fn admits(a: ActuatorState, cmd: DobotMessage, enqueued: u64, now: u64) -> bool {
    &&& !is_stale(enqueued, now)
    &&& !(cmd is GrabObject && enqueued < a.watermark)
}

/// The robot-frame pose above the object at height `z`, with the object's
/// cross-axis coordinate negated when back-facing.
pub open spec fn target_pose(cfg: ControllerConfig, obj: Object, facing: bool, z: i64) -> Pose {
    let y = cfg.transform.map_y(obj.x as int, obj.y as int);
    Pose {
        x: cfg.transform.map_x(obj.x as int, obj.y as int) as i64,
        y: (if facing { y } else { -y }) as i64,
        z,
        r: (obj.angle + cfg.home.r) as i64,
    }
}

/// A move to `p` as commanded for `facing`.
pub open spec fn move_for(cfg: ControllerConfig, facing: bool, p: Pose) -> Motion {
    Motion::MoveTo(placed(facing, p, cfg.mirror_rotation))
}

/// The grab program: release, approach, descend, grip, settle, lift, pass
/// the transfer waypoint, drop into bin `bin`, release, settle, pass the
/// transfer waypoint again, return home.
pub open spec fn grab_plan(cfg: ControllerConfig, obj: Object, facing: bool, bin: int) -> Seq<Motion> {
    let z = height_at(cfg.depth_image@, cfg.depth_robot@, obj.depth as int);
    seq![
        Motion::Release,
        move_for(cfg, facing, target_pose(cfg, obj, facing, cfg.approach_height)),
        move_for(cfg, facing, target_pose(cfg, obj, facing, z)),
        Motion::Grip,
        Motion::Wait(cfg.settle_ms),
        move_for(cfg, facing, target_pose(cfg, obj, facing, cfg.lift_height)),
        move_for(cfg, facing, cfg.transfer),
        move_for(cfg, facing, cfg.drop_bins@[bin]),
        Motion::Release,
        Motion::Wait(cfg.settle_ms),
        move_for(cfg, facing, cfg.transfer),
        move_for(cfg, facing, cfg.home),
    ]
}

/// The program an accepted command runs under `facing`.
pub open spec fn plan_for(cfg: ControllerConfig, cmd: DobotMessage, facing: bool, bin: int) -> Seq<Motion> {
    match cmd {
        DobotMessage::GrabObject(obj) => grab_plan(cfg, obj, facing, bin),
        DobotMessage::Home => seq![move_for(cfg, facing, cfg.home)],
        DobotMessage::Reset => seq![Motion::SetHome, Motion::MoveTo(cfg.home)],
        DobotMessage::Switch => seq![move_for(cfg, facing, cfg.transfer), move_for(cfg, facing, cfg.home)],
        DobotMessage::Noop(ms) => seq![Motion::Wait(ms)],
    }
}

/// The shared state once a command is accepted: busy, and for a reset the
/// default facing.
pub open spec fn accepted_state(s: GlobalState, cmd: DobotMessage) -> GlobalState {
    match cmd {
        DobotMessage::Reset => GlobalState { is_dobot_busy: true, facing: DEFAULT_FACING, ..s },
        _ => GlobalState { is_dobot_busy: true, ..s },
    }
}

/// The actuator's memory after `cmd` ran to completion at `now`: a grab
/// sets the watermark and moves on to the next bin.
pub open spec fn completed(a: ActuatorState, cfg: ControllerConfig, cmd: DobotMessage, now: u64) -> ActuatorState {
    if cmd is GrabObject {
        ActuatorState { watermark: now, next_bin: ((a.next_bin + 1) % (cfg.drop_bins@.len() as int)) as usize }
    } else {
        a
    }
}

fn move_to(cfg: &ControllerConfig, facing: bool, p: Pose) -> (m: Motion)
    requires
        cfg.well_formed(),
        -i64::MAX <= p.x,
        -i64::MAX <= p.y,
        -0x1_0000_0000_0000 <= p.r <= 0x1_0000_0000_0000,
    ensures
        m == move_for(*cfg, facing, p),
{
    Motion::MoveTo(place(facing, p, cfg.mirror_rotation))
}

fn grab_motions(cfg: &ControllerConfig, obj: &Object, facing: bool, bin: usize) -> (r: Vec<Motion>)
    requires
        cfg.well_formed(),
        bin < cfg.drop_bins@.len(),
    ensures
        r@ == grab_plan(*cfg, *obj, facing, bin as int),
{
    let (x, y_front) = cfg.transform.apply(obj.x, obj.y);
    let y = if facing {
        y_front
    } else {
        -y_front
    };
    let r = obj.angle as i64 + cfg.home.r;
    let z = height_for_depth(&cfg.depth_image, &cfg.depth_robot, obj.depth);
    let above = Pose { x, y, z: cfg.approach_height, r };
    let at = Pose { x, y, z, r };
    let lifted = Pose { x, y, z: cfg.lift_height, r };
    assert(above == target_pose(*cfg, *obj, facing, cfg.approach_height));
    assert(at == target_pose(*cfg, *obj, facing, z));
    assert(lifted == target_pose(*cfg, *obj, facing, cfg.lift_height));
    assert(cfg.drop_bins@[bin as int].bounded());
    let mut v: Vec<Motion> = Vec::new();
    v.push(Motion::Release);
    v.push(move_to(cfg, facing, above));
    v.push(move_to(cfg, facing, at));
    v.push(Motion::Grip);
    v.push(Motion::Wait(cfg.settle_ms));
    v.push(move_to(cfg, facing, lifted));
    v.push(move_to(cfg, facing, cfg.transfer));
    v.push(move_to(cfg, facing, cfg.drop_bins[bin]));
    v.push(Motion::Release);
    v.push(Motion::Wait(cfg.settle_ms));
    v.push(move_to(cfg, facing, cfg.transfer));
    v.push(move_to(cfg, facing, cfg.home));
    assert(v@ =~= grab_plan(*cfg, *obj, facing, bin as int));
    v
}

impl ActuatorState {
    /// The state when the actuator starts at `now`: grabs posted before
    /// then are refused, and the first grab uses bin 0.
    pub fn new(now: u64) -> (r: Self)
        ensures
            r.watermark == now,
            r.next_bin == 0,
    {
        ActuatorState { watermark: now, next_bin: 0 }
    }

    /// Judges `cmd`, posted at `enqueued` and received at `now`.
    ///
    /// A stale command, and a grab posted before the watermark, change
    /// nothing. An accepted command marks the arm busy (a reset also
    /// restores the default facing) and yields its motion program for the
    /// facing in force.
    pub fn handle(
        &self,
        state: &mut GlobalState,
        cfg: &ControllerConfig,
        cmd: &DobotMessage,
        enqueued: u64,
        now: u64,
    ) -> (r: Verdict)
        requires
            cfg.well_formed(),
            self.next_bin < cfg.drop_bins@.len(),
        ensures
            is_stale(enqueued, now) ==> r is Stale,
            !admits(*self, *cmd, enqueued, now) ==> *final(state) == *old(state),
            !is_stale(enqueued, now) && !admits(*self, *cmd, enqueued, now) ==> r is CoolingDown,
            admits(*self, *cmd, enqueued, now) ==> {
                &&& r matches Verdict::Run(motions)
                &&& motions@ == plan_for(*cfg, *cmd, old(state).facing, self.next_bin as int)
                &&& *final(state) == accepted_state(*old(state), *cmd)
            },
    {
        if now > STALENESS_MS && enqueued < now - STALENESS_MS {
            return Verdict::Stale;
        }
        let facing = state.facing;
        let motions = match cmd {
            DobotMessage::GrabObject(obj) => {
                if enqueued < self.watermark {
                    return Verdict::CoolingDown;
                }
                grab_motions(cfg, obj, facing, self.next_bin)
            },
            DobotMessage::Home => {
                let mut v: Vec<Motion> = Vec::new();
                v.push(move_to(cfg, facing, cfg.home));
                v
            },
            DobotMessage::Reset => {
                state.facing = DEFAULT_FACING;
                let mut v: Vec<Motion> = Vec::new();
                v.push(Motion::SetHome);
                v.push(Motion::MoveTo(cfg.home));
                v
            },
            DobotMessage::Switch => {
                let mut v: Vec<Motion> = Vec::new();
                v.push(move_to(cfg, facing, cfg.transfer));
                v.push(move_to(cfg, facing, cfg.home));
                v
            },
            DobotMessage::Noop(ms) => {
                let mut v: Vec<Motion> = Vec::new();
                v.push(Motion::Wait(*ms));
                v
            },
        };
        state.is_dobot_busy = true;
        proof {
            assert(motions@ =~= plan_for(*cfg, *cmd, old(state).facing, self.next_bin as int));
        }
        Verdict::Run(motions)
    }

    /// Records that an accepted `cmd` finished at `now`: after a grab the
    /// watermark becomes `now` and the bin counter advances cyclically.
    pub fn complete(&mut self, cfg: &ControllerConfig, cmd: &DobotMessage, now: u64)
        requires
            cfg.drop_bins@.len() > 0,
            old(self).next_bin < cfg.drop_bins@.len(),
        ensures
            *final(self) == completed(*old(self), *cfg, *cmd, now),
            final(self).next_bin < cfg.drop_bins@.len(),
    {
        if let DobotMessage::GrabObject(_) = cmd {
            let bins = cfg.drop_bins.len();
            self.watermark = now;
            self.next_bin = (self.next_bin + 1) % bins;
        }
    }
}

/// A stale command never runs, so it moves nothing and leaves the watermark
/// and the bin counter as they were.
pub proof fn lemma_stale_is_inert(a: ActuatorState, cmd: DobotMessage, enqueued: u64, now: u64)
    requires
        is_stale(enqueued, now),
    ensures
        !admits(a, cmd, enqueued, now),
{
}

/// Right after a grab completes at `done`, a second grab posted before
/// `done` is refused and one posted at or after `done` runs, provided it
/// is not stale.
pub proof fn lemma_grab_cooldown(
    a: ActuatorState,
    cfg: ControllerConfig,
    first: Object,
    done: u64,
    second: Object,
    enqueued: u64,
    now: u64,
)
    requires
        !is_stale(enqueued, now),
    ensures
        admits(
            completed(a, cfg, DobotMessage::GrabObject(first), done),
            DobotMessage::GrabObject(second),
            enqueued,
            now,
        ) <==> enqueued >= done,
{
}

} // verus!
