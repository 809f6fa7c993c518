use future_of_mail::buttons::{button_visual, text_rgb_centi, visual_rgb_centi, ButtonVisual, Interaction};
use future_of_mail::camera::{OrbitRig, ORBIT_RADIUS_TENTHS, PITCH_LIMIT_MILLI, START_PITCH_MILLI, START_YAW_MILLI};
use future_of_mail::encounter::{first_within, touch_outcome, PlayerPoints, Prop, TOUCH_RADIUS_TENTHS};
use future_of_mail::geom::Vec3Fix;
use future_of_mail::movement::move_intent;
use future_of_mail::state::GameState;

#[test]
fn button_colours_follow_interaction_and_selection() {
    assert_eq!(button_visual(Interaction::Pressed, false), ButtonVisual::Pressed);
    assert_eq!(button_visual(Interaction::Pressed, true), ButtonVisual::Pressed);
    assert_eq!(button_visual(Interaction::Idle, true), ButtonVisual::Pressed);
    assert_eq!(button_visual(Interaction::Hovered, true), ButtonVisual::HoveredSelected);
    assert_eq!(button_visual(Interaction::Hovered, false), ButtonVisual::Hovered);
    assert_eq!(button_visual(Interaction::Idle, false), ButtonVisual::Normal);
}

#[test]
fn button_colours_have_their_exact_values() {
    assert_eq!(visual_rgb_centi(ButtonVisual::Normal), (15, 15, 15));
    assert_eq!(visual_rgb_centi(ButtonVisual::Hovered), (25, 25, 25));
    assert_eq!(visual_rgb_centi(ButtonVisual::HoveredSelected), (25, 65, 25));
    assert_eq!(visual_rgb_centi(ButtonVisual::Pressed), (35, 75, 35));
    assert_eq!(text_rgb_centi(), (90, 90, 90));
}

#[test]
fn opposite_movement_keys_cancel() {
    let m = move_intent(true, true, false, false);
    assert_eq!(m.dx, 0);
    assert_eq!(m.dz, 0);
    assert!(!m.moving());
    assert!(!m.turning());
}

#[test]
fn forward_and_right_point_one_step_each_way() {
    let m = move_intent(true, false, false, true);
    assert_eq!(m.dx, 1);
    assert_eq!(m.dz, 1);
    assert!(m.moving());
    assert!(m.turning());
}

#[test]
fn a_sideways_key_alone_still_turns() {
    let m = move_intent(false, false, true, false);
    assert_eq!(m.dx, 0);
    assert_eq!(m.dz, -1);
    assert!(m.moving());
    assert!(m.turning());
}

#[test]
fn holding_forward_alone_does_not_turn() {
    let m = move_intent(true, false, false, false);
    assert!(m.moving());
    assert!(!m.turning());
}

#[test]
fn the_camera_starts_behind_and_above() {
    let rig = OrbitRig::start();
    assert_eq!(rig.radius_tenths, ORBIT_RADIUS_TENTHS);
    assert_eq!(rig.yaw_milli, START_YAW_MILLI);
    assert_eq!(rig.pitch_milli, START_PITCH_MILLI);
}

#[test]
fn steering_swings_by_speed_times_time() {
    let mut rig = OrbitRig::start();
    // one second: 1500 thousandths of a radian
    rig.steer(true, false, false, false, 1_000);
    assert_eq!(rig.yaw_milli, START_YAW_MILLI + 1_500);
    rig.steer(false, true, true, false, 100);
    assert_eq!(rig.yaw_milli, START_YAW_MILLI + 1_500 - 150);
    assert_eq!(rig.pitch_milli, START_PITCH_MILLI + 150);
}

#[test]
fn the_pitch_clamps_short_of_vertical() {
    let mut rig = OrbitRig::start();
    rig.steer(false, false, true, false, 10_000);
    assert_eq!(rig.pitch_milli, PITCH_LIMIT_MILLI);
    rig.steer(false, false, false, true, 1_000_000);
    assert_eq!(rig.pitch_milli, -PITCH_LIMIT_MILLI);
}

#[test]
fn opposite_steering_keys_cancel() {
    let mut rig = OrbitRig::start();
    rig.steer(true, true, true, true, 2_000);
    assert_eq!(rig.yaw_milli, START_YAW_MILLI);
    assert_eq!(rig.pitch_milli, START_PITCH_MILLI);
}

#[test]
fn touching_a_person_pauses_and_seeds_a_checkpoint() {
    let o = touch_outcome(Prop::Person);
    assert!(o.despawn_prop);
    assert!(o.play_sound);
    assert!(o.reset_pause_timer);
    assert_eq!(o.next_game, Some(GameState::Pause));
    assert!(!o.award_point);
    assert_eq!(o.spawn_next, Some(Prop::Checkpoint));
}

#[test]
fn touching_a_checkpoint_scores_and_seeds_a_person() {
    let o = touch_outcome(Prop::Checkpoint);
    assert!(o.despawn_prop);
    assert!(o.play_sound);
    assert!(!o.reset_pause_timer);
    assert_eq!(o.next_game, None);
    assert!(o.award_point);
    assert_eq!(o.spawn_next, Some(Prop::Person));
}

#[test]
fn the_scan_reports_the_first_prop_in_reach() {
    let player = Vec3Fix::new(0, 11, 0);
    let props = vec![
        Vec3Fix::new(1_000, 11, 0),
        Vec3Fix::new(150, 11, 0),
        Vec3Fix::new(0, 11, 100),
    ];
    assert_eq!(first_within(player, &props, TOUCH_RADIUS_TENTHS), Some(1));
}

#[test]
fn the_scan_reports_nothing_out_of_reach() {
    let player = Vec3Fix::new(0, 11, 0);
    let props = vec![Vec3Fix::new(1_000, 11, 0), Vec3Fix::new(0, 11, -900)];
    assert_eq!(first_within(player, &props, TOUCH_RADIUS_TENTHS), None);
    assert_eq!(first_within(player, &Vec::new(), TOUCH_RADIUS_TENTHS), None);
}

#[test]
fn points_count_up_one_at_a_time() {
    let mut p = PlayerPoints::start();
    assert_eq!(p.count, 0);
    p.award();
    p.award();
    assert_eq!(p.count, 2);
}
