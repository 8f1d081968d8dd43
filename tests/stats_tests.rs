use rl_replay_api::boost::Boost;
use rl_replay_api::location::Location;
use rl_replay_api::movement::Movement;
use rl_replay_api::payload::{PlayerFrame, PlayerFrameData};
use rl_replay_api::pickup::BoostPadSize;
use rl_replay_api::player::{PlayerId, Team};
use rl_replay_api::rigid_body::{RigidBody, Vector3};

fn frame(key: u64, team: Team, rb: Option<RigidBody>, amount: Option<u16>, boosting: bool) -> PlayerFrame {
    PlayerFrame {
        id: PlayerId::new(key),
        team,
        rigid_body: rb,
        current_boost_amount: amount,
        boost_active: boosting,
        jump_active: false,
        double_jump_active: false,
        dodge_active: false,
    }
}

fn moving(x: i32, y: i32, z: i32, v: Option<Vector3>) -> Option<RigidBody> {
    Some(RigidBody::new(false, Vector3::new(x, y, z), v))
}

#[test]
fn parity_counters_decode_to_flags() {
    let f = PlayerFrame::new_from_processor(PlayerId::new(7), false, None, Some(100), Some(3), Some(2), None, Some(1));
    assert_eq!(f.team, Team::One);
    assert!(f.boost_active);
    assert!(!f.jump_active);
    assert!(!f.double_jump_active);
    assert!(f.dodge_active);
    assert_eq!(f.current_boost_amount, Some(100));
}

#[test]
fn boost_bands_zero_and_full() {
    let mut b = Boost::new();
    for amount in [0u16, 1, 6375, 6376, 12750, 12751, 19125, 19126, 25500] {
        b.update_boost_amount_stats(&frame(1, Team::Zero, None, Some(amount), false), None);
    }
    b.update_boost_amount_stats(&frame(1, Team::Zero, None, None, false), None);
    assert_eq!(b.frames_0_25_boost, 2);
    assert_eq!(b.frames_25_50_boost, 2);
    assert_eq!(b.frames_50_75_boost, 2);
    assert_eq!(b.frames_75_100_boost, 2);
    assert_eq!(b.frames_0_boost, 1);
    assert_eq!(b.frames_100_boost, 1);
}

#[test]
fn band_counts_add_up_to_known_amount_frames() {
    let mut b = Boost::new();
    let amounts = [Some(50u16), None, Some(25500), Some(12000), None, Some(19125), Some(7000)];
    let mut known = 0u32;
    for a in amounts {
        b.update_boost_amount_stats(&frame(1, Team::Zero, None, a, false), None);
        if a.is_some() {
            known += 1;
        }
    }
    assert_eq!(b.frames_0_25_boost + b.frames_25_50_boost + b.frames_50_75_boost + b.frames_75_100_boost, known);
}

#[test]
fn boosting_drains_per_frame() {
    let mut b = Boost::new();
    b.update_boost_amount_stats(&frame(1, Team::Zero, None, None, true), None);
    b.update_boost_amount_stats(&frame(1, Team::Zero, None, Some(10000), true), None);
    b.update_boost_amount_stats(&frame(1, Team::Zero, None, Some(10000), false), None);
    assert_eq!(b.frames_active, 2);
    assert_eq!(b.total_usage, 224);
}

#[test]
fn pickups_and_overfill() {
    let mut b = Boost::new();
    b.update_boost_amount_stats(&frame(1, Team::Zero, None, Some(25000), false), Some(BoostPadSize::Small));
    assert_eq!(b.small_boost_pickups, 1);
    assert_eq!(b.overfill_total, 2560);
    b.update_boost_amount_stats(&frame(1, Team::Zero, None, Some(100), false), Some(BoostPadSize::Large));
    assert_eq!(b.large_boost_pickups, 1);
    assert_eq!(b.overfill_total, 2660);
    b.update_boost_amount_stats(&frame(1, Team::Zero, None, Some(1000), false), Some(BoostPadSize::Small));
    assert_eq!(b.small_boost_pickups, 2);
    assert_eq!(b.overfill_total, 2660);
    b.update_boost_amount_stats(&frame(1, Team::Zero, None, None, false), Some(BoostPadSize::Large));
    assert_eq!(b.large_boost_pickups, 2);
    assert_eq!(b.overfill_total, 2660);
}

#[test]
fn boost_update_reads_the_players_own_frame() {
    let mut frames = PlayerFrameData::new();
    frames.add_frame(&PlayerId::new(1), &frame(1, Team::Zero, None, Some(0), true));
    frames.add_frame(&PlayerId::new(2), &frame(2, Team::One, None, Some(25500), false));
    let mut b = Boost::new();
    b.update(&frames, &PlayerId::new(2), None);
    assert_eq!(b.frames_100_boost, 1);
    assert_eq!(b.frames_active, 0);
    let mut c = Boost::new();
    c.update(&frames, &PlayerId::new(3), Some(BoostPadSize::Small));
    assert!(c == Boost::new());
}

#[test]
fn movement_distance_is_manhattan() {
    let mut m = Movement::new();
    m.update_frame(&frame(1, Team::Zero, moving(0, 0, 0, None), None, false));
    assert_eq!(m.distance_traveled, 0);
    m.update_frame(&frame(1, Team::Zero, moving(300, 400, 0, None), None, false));
    assert_eq!(m.distance_traveled, 700);
}

#[test]
fn speed_is_the_rounded_down_norm() {
    let m = Movement::new();
    assert_eq!(m.calculate_speed(&Vector3::new(300, 400, 0)), 500);
    assert_eq!(m.calculate_speed(&Vector3::new(-300, 0, -400)), 500);
    assert_eq!(m.calculate_speed(&Vector3::new(1, 1, 1)), 1);
    assert_eq!(m.calculate_speed(&Vector3::new(0, 0, 0)), 0);
    assert_eq!(m.calculate_speed(&Vector3::new(i32::MIN, i32::MIN, i32::MIN)), 3719550786);
}

#[test]
fn average_speed_is_mean_of_qualifying_frames() {
    let mut m = Movement::new();
    m.update_frame(&frame(1, Team::Zero, moving(0, 0, 0, Some(Vector3::new(30000, 40000, 0))), None, false));
    m.update_frame(&frame(1, Team::Zero, None, None, false));
    m.update_frame(&frame(
        1,
        Team::Zero,
        Some(RigidBody::new(true, Vector3::new(0, 0, 0), Some(Vector3::new(900000, 0, 0)))),
        None,
        false,
    ));
    m.update_frame(&frame(1, Team::Zero, moving(0, 0, 0, Some(Vector3::new(0, 0, 100001))), None, false));
    assert_eq!(m.frames_count, 2);
    assert_eq!(m.speed_total, 150001);
    assert_eq!(m.average_speed, 75000);
}

#[test]
fn speed_classes() {
    let mut m = Movement::new();
    m.update_frame(&frame(1, Team::Zero, moving(0, 0, 0, Some(Vector3::new(220000, 0, 0))), None, true));
    m.update_frame(&frame(1, Team::Zero, moving(0, 0, 0, Some(Vector3::new(0, 219999, 0))), None, true));
    m.update_frame(&frame(1, Team::Zero, moving(0, 0, 0, Some(Vector3::new(0, 0, 140000))), None, false));
    m.update_frame(&frame(1, Team::Zero, moving(0, 0, 0, Some(Vector3::new(139999, 0, 0))), None, false));
    m.update_frame(&frame(1, Team::Zero, moving(0, 0, 0, Some(Vector3::new(300000, 0, 0))), None, false));
    assert_eq!(m.frames_super_sonic, 2);
    assert_eq!(m.frames_boost_while_super_sonic, 1);
    assert_eq!(m.frames_boost_speed, 2);
    assert_eq!(m.frames_slow_speed, 1);
}

#[test]
fn height_classes() {
    let mut m = Movement::new();
    for z in [-50, 2000, 2001, 84000, 84001] {
        m.update_frame(&frame(1, Team::Zero, moving(0, 0, z, None), None, false));
    }
    assert_eq!(m.frames_on_ground, 2);
    assert_eq!(m.frames_low_air, 2);
    assert_eq!(m.frames_high_air, 1);
    assert_eq!(m.frames_count, 0);
}

#[test]
fn absent_or_sleeping_body_changes_nothing() {
    let mut m = Movement::new();
    m.update_frame(&frame(1, Team::Zero, None, Some(10), true));
    m.update_frame(&frame(
        1,
        Team::Zero,
        Some(RigidBody::new(true, Vector3::new(100, 100, 100), Some(Vector3::new(1, 1, 1)))),
        None,
        false,
    ));
    assert!(m == Movement::new());
}

#[test]
fn location_zones_are_team_relative() {
    let mut frames = PlayerFrameData::new();
    // Team zero defends negative y; team one positive y.
    frames.add_frame(&PlayerId::new(1), &frame(1, Team::Zero, moving(0, -400000, 0, None), None, false));
    frames.add_frame(&PlayerId::new(2), &frame(2, Team::One, moving(0, -400000, 0, None), None, false));
    let mut zero = Location::new();
    zero.update(&frames, &PlayerId::new(1));
    assert_eq!(zero.frames_defensive_half, 1);
    assert_eq!(zero.frames_defensive_third, 1);
    assert_eq!(zero.frames_offensive_half, 0);
    assert_eq!(zero.frames_neutral_third, 0);
    let mut one = Location::new();
    one.update(&frames, &PlayerId::new(2));
    assert_eq!(one.frames_offensive_half, 1);
    assert_eq!(one.frames_offensive_third, 1);
    assert_eq!(one.frames_defensive_half, 0);
}

#[test]
fn neutral_third_and_center_line() {
    let mut frames = PlayerFrameData::new();
    frames.add_frame(&PlayerId::new(1), &frame(1, Team::Zero, moving(0, 0, 0, None), None, false));
    let mut l = Location::new();
    l.update(&frames, &PlayerId::new(1));
    assert_eq!(l.frames_neutral_third, 1);
    assert_eq!(l.frames_offensive_half, 1);
    assert_eq!(l.frames_defensive_half, 0);
}

#[test]
fn farthest_back_and_forward_among_teammates() {
    let mut frames = PlayerFrameData::new();
    frames.add_frame(&PlayerId::new(1), &frame(1, Team::Zero, moving(0, -100000, 0, None), None, false));
    frames.add_frame(&PlayerId::new(2), &frame(2, Team::Zero, moving(0, 300000, 0, None), None, false));
    frames.add_frame(&PlayerId::new(3), &frame(3, Team::Zero, moving(0, 100000, 0, None), None, false));
    frames.add_frame(&PlayerId::new(4), &frame(4, Team::One, moving(0, 0, 0, None), None, false));
    frames.add_frame(&PlayerId::new(5), &frame(5, Team::Zero, None, None, false));
    let mut counts = Vec::new();
    for key in 1..=5u64 {
        let mut l = Location::new();
        l.update(&frames, &PlayerId::new(key));
        counts.push((l.frames_farthest_back, l.frames_farthest_forward));
    }
    // Players 1 and 3 tie on distance to the center line: the first wins.
    assert_eq!(counts, vec![(1, 0), (0, 1), (0, 0), (1, 1), (0, 0)]);
}

#[test]
fn add_frame_replaces_the_entry_of_the_same_player() {
    let mut frames = PlayerFrameData::new();
    frames.add_frame(&PlayerId::new(1), &frame(1, Team::Zero, None, Some(1), false));
    frames.add_frame(&PlayerId::new(2), &frame(2, Team::One, None, Some(2), false));
    frames.add_frame(&PlayerId::new(1), &frame(1, Team::Zero, None, Some(3), false));
    assert_eq!(frames.frames().len(), 2);
    assert_eq!(frames.get(&PlayerId::new(1)).unwrap().current_boost_amount, Some(3));
    assert_eq!(frames.frames()[0].0, PlayerId::new(1));
    assert!(frames.get(&PlayerId::new(9)).is_none());
}
