use arm::actuator::{ActuatorState, Motion, Verdict, STALENESS_MS};
use arm::config::ControllerConfig;
use arm::geometry::{height_for_depth, place, AffineTransform, Pose};
use arm::message::{DobotMessage, Object};
use arm::state::GlobalState;

fn pose(x: i64, y: i64, z: i64, r: i64) -> Pose {
    Pose { x, y, z, r }
}

fn sample_config() -> ControllerConfig {
    ControllerConfig {
        transform: AffineTransform { a00: 1, a01: 0, a10: 0, a11: 1, b0: 0, b1: 0 },
        depth_image: vec![100_000, 150_000, 200_000],
        depth_robot: vec![5, 15, 25],
        home: pose(220_000, 0, 135_000, 9_000),
        approach_height: 65_000,
        lift_height: 25_000,
        transfer: pose(196_000, -160_000, 50_000, 9_000),
        drop_bins: vec![pose(-4_000, -250_000, -15_000, 0), pose(71_000, -250_000, -15_000, 0)],
        mirror_rotation: -90_000,
        settle_ms: 1000,
    }
}

fn object(x: i32, y: i32, angle: i32, depth: i32) -> Object {
    Object { x, y, angle, polygon: vec![(x - 1, y - 1), (x + 1, y + 1)], depth }
}

fn idle_front() -> GlobalState {
    GlobalState { is_dobot_busy: false, enable_auto_grab: false, facing: true, terminate: false }
}

#[test]
fn coordinate_transform_end_to_end() {
    // Identity map, zero translation, pixel (100, 50), depth 0.17 m, depth
    // boundaries 0.10 / 0.15 / 0.20 m with heights 5 / 15 / 25.
    let cfg = sample_config();
    assert_eq!(cfg.transform.apply(100, 50), (100, 50));
    // 0.17 exceeds the first midpoint 0.125, so the first height is chosen.
    assert_eq!(height_for_depth(&cfg.depth_image, &cfg.depth_robot, 170_000), 5);
    // The descent of the grab program reaches that robot position.
    let mut state = idle_front();
    let cmd = DobotMessage::GrabObject(object(100, 50, 0, 170_000));
    match ActuatorState::new(0).handle(&mut state, &cfg, &cmd, 0, 0) {
        Verdict::Run(motions) => assert_eq!(motions[2], Motion::MoveTo(pose(100, 50, 5, 9_000))),
        other => panic!("grab refused: {:?}", other),
    }
}

#[test]
fn depth_lookup_scans_in_order_and_defaults_to_last() {
    let cfg = sample_config();
    // Below both midpoints: no interval matches, the last height is used.
    assert_eq!(height_for_depth(&cfg.depth_image, &cfg.depth_robot, 100_000), 25);
    // Exactly on the first midpoint does not exceed it; the second is 0.175.
    assert_eq!(height_for_depth(&cfg.depth_image, &cfg.depth_robot, 125_000), 25);
    assert_eq!(height_for_depth(&cfg.depth_image, &cfg.depth_robot, 125_001), 5);
    // A single-entry table always yields its one height.
    assert_eq!(height_for_depth(&vec![7], &vec![42], -3), 42);
    // With the first interval above the depth, the second one matches.
    assert_eq!(height_for_depth(&vec![300, 100, 50], &vec![1, 2, 3], 80), 2);
}

#[test]
fn affine_transform_formula() {
    let t = AffineTransform { a00: 2, a01: -3, a10: 5, a11: 7, b0: 1_000, b1: -20 };
    assert_eq!(t.apply(10, 4), (2 * 10 - 3 * 4 + 1_000, 5 * 10 + 7 * 4 - 20));
    assert_eq!(t.apply(-6, 0), (988, -50));
}

#[test]
fn mirroring_swaps_and_negates() {
    let p = pose(10, 20, 30, 40);
    assert_eq!(place(true, p, -90_000), p);
    assert_eq!(place(false, p, -90_000), pose(-20, -10, 30, -89_960));
}

#[test]
fn grab_plan_front_facing() {
    let cfg = sample_config();
    let act = ActuatorState::new(0);
    let mut state = idle_front();
    let cmd = DobotMessage::GrabObject(object(100, 50, 1_500, 170_000));
    let verdict = act.handle(&mut state, &cfg, &cmd, 10, 20);
    let transfer = Motion::MoveTo(pose(196_000, -160_000, 50_000, 9_000));
    let expected = vec![
        Motion::Release,
        Motion::MoveTo(pose(100, 50, 65_000, 10_500)),
        Motion::MoveTo(pose(100, 50, 5, 10_500)),
        Motion::Grip,
        Motion::Wait(1000),
        Motion::MoveTo(pose(100, 50, 25_000, 10_500)),
        transfer,
        Motion::MoveTo(pose(-4_000, -250_000, -15_000, 0)),
        Motion::Release,
        Motion::Wait(1000),
        transfer,
        Motion::MoveTo(pose(220_000, 0, 135_000, 9_000)),
    ];
    assert_eq!(verdict, Verdict::Run(expected));
    assert!(state.is_dobot_busy);
    assert!(state.facing);
}

#[test]
fn grab_plan_back_facing_is_mirrored() {
    let cfg = sample_config();
    let act = ActuatorState { watermark: 0, next_bin: 1 };
    let mut state = GlobalState { facing: false, ..idle_front() };
    let cmd = DobotMessage::GrabObject(object(100, 50, 1_500, 170_000));
    let verdict = act.handle(&mut state, &cfg, &cmd, 10, 20);
    let transfer = Motion::MoveTo(pose(160_000, -196_000, 50_000, -81_000));
    let expected = vec![
        Motion::Release,
        Motion::MoveTo(pose(50, -100, 65_000, -79_500)),
        Motion::MoveTo(pose(50, -100, 5, -79_500)),
        Motion::Grip,
        Motion::Wait(1000),
        Motion::MoveTo(pose(50, -100, 25_000, -79_500)),
        transfer,
        Motion::MoveTo(pose(250_000, -71_000, -15_000, -90_000)),
        Motion::Release,
        Motion::Wait(1000),
        transfer,
        Motion::MoveTo(pose(0, -220_000, 135_000, -81_000)),
    ];
    assert_eq!(verdict, Verdict::Run(expected));
    assert!(state.is_dobot_busy);
    assert!(!state.facing);
}

#[test]
fn stale_commands_change_nothing() {
    let cfg = sample_config();
    let act = ActuatorState { watermark: 0, next_bin: 1 };
    let before = idle_front();
    let commands = vec![
        DobotMessage::GrabObject(object(1, 2, 3, 4)),
        DobotMessage::Home,
        DobotMessage::Reset,
        DobotMessage::Switch,
        DobotMessage::Noop(3000),
    ];
    for cmd in commands.iter() {
        let mut state = GlobalState { facing: false, ..before };
        let verdict = act.handle(&mut state, &cfg, cmd, 1_000, 1_000 + STALENESS_MS + 1);
        assert_eq!(verdict, Verdict::Stale);
        assert_eq!(state, GlobalState { facing: false, ..before });
    }
    assert_eq!(act, ActuatorState { watermark: 0, next_bin: 1 });
    // Exactly at the window's edge the command still runs.
    let mut state = before;
    let verdict = act.handle(&mut state, &cfg, &DobotMessage::Noop(5), 1_000, 1_000 + STALENESS_MS);
    assert_eq!(verdict, Verdict::Run(vec![Motion::Wait(5)]));
}

#[test]
fn grab_cooldown_after_completion() {
    let cfg = sample_config();
    let mut act = ActuatorState::new(0);
    let grab = DobotMessage::GrabObject(object(100, 50, 0, 170_000));
    let mut state = idle_front();
    assert!(matches!(act.handle(&mut state, &cfg, &grab, 100, 150), Verdict::Run(_)));
    act.complete(&cfg, &grab, 5_000);
    assert_eq!(act, ActuatorState { watermark: 5_000, next_bin: 1 });

    let mut state = idle_front();
    assert_eq!(act.handle(&mut state, &cfg, &grab, 4_990, 5_010), Verdict::CoolingDown);
    assert_eq!(state, idle_front());

    let mut state = idle_front();
    assert!(matches!(act.handle(&mut state, &cfg, &grab, 5_000, 5_010), Verdict::Run(_)));

    // The watermark only holds back grabs.
    let mut state = idle_front();
    let home = act.handle(&mut state, &cfg, &DobotMessage::Home, 4_990, 5_010);
    assert_eq!(home, Verdict::Run(vec![Motion::MoveTo(pose(220_000, 0, 135_000, 9_000))]));
}

#[test]
fn bin_counter_cycles_through_bins() {
    let cfg = sample_config();
    let mut act = ActuatorState::new(0);
    let grab = DobotMessage::GrabObject(object(0, 0, 0, 0));
    act.complete(&cfg, &grab, 10);
    assert_eq!(act.next_bin, 1);
    act.complete(&cfg, &grab, 20);
    assert_eq!(act.next_bin, 0);
    act.complete(&cfg, &DobotMessage::Switch, 30);
    assert_eq!(act, ActuatorState { watermark: 20, next_bin: 0 });
}

#[test]
fn reset_home_switch_and_noop_plans() {
    let cfg = sample_config();
    let act = ActuatorState::new(0);
    let home = pose(220_000, 0, 135_000, 9_000);

    let mut state = GlobalState { facing: false, ..idle_front() };
    let verdict = act.handle(&mut state, &cfg, &DobotMessage::Reset, 0, 0);
    assert_eq!(verdict, Verdict::Run(vec![Motion::SetHome, Motion::MoveTo(home)]));
    assert!(state.facing);
    assert!(state.is_dobot_busy);

    let mut state = GlobalState { facing: false, ..idle_front() };
    let verdict = act.handle(&mut state, &cfg, &DobotMessage::Home, 0, 0);
    assert_eq!(verdict, Verdict::Run(vec![Motion::MoveTo(pose(0, -220_000, 135_000, -81_000))]));
    assert!(!state.facing);

    let mut state = idle_front();
    let verdict = act.handle(&mut state, &cfg, &DobotMessage::Switch, 0, 0);
    assert_eq!(
        verdict,
        Verdict::Run(vec![Motion::MoveTo(pose(196_000, -160_000, 50_000, 9_000)), Motion::MoveTo(home)])
    );

    let mut state = idle_front();
    let verdict = act.handle(&mut state, &cfg, &DobotMessage::Noop(3000), 0, 0);
    assert_eq!(verdict, Verdict::Run(vec![Motion::Wait(3000)]));
    assert!(state.is_dobot_busy);
}
