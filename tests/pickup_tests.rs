use rl_replay_api::pickup::{large_boost_pads, small_boost_pads, BoostPad, BoostPadSize, PickupHandler};
use rl_replay_api::rigid_body::{RigidBody, Vector3};

fn body_at(x: i32, y: i32, z: i32) -> RigidBody {
    RigidBody::new(false, Vector3::new(x, y, z), None)
}

#[test]
fn catalogue_sizes_and_first_entries() {
    let small = small_boost_pads();
    let large = large_boost_pads();
    assert_eq!(small.len(), 28);
    assert_eq!(large.len(), 7);
    assert!(small[0] == BoostPad::new(0, -424000));
    assert!(small[3] == BoostPad::new(-94000, -330807));
    assert!(large[0] == BoostPad::new(308200, 409800));
}

#[test]
fn every_small_pad_center_yields_small() {
    for pad in small_boost_pads() {
        let mut handler = PickupHandler::new();
        assert_eq!(handler.try_pickup(&body_at(pad.x, pad.y, 0)), Some(BoostPadSize::Small));
    }
}

#[test]
fn every_large_pad_center_yields_large() {
    for pad in large_boost_pads() {
        let mut handler = PickupHandler::new();
        assert_eq!(handler.try_pickup(&body_at(pad.x, pad.y, 0)), Some(BoostPadSize::Large));
    }
}

#[test]
fn small_pad_box_bounds_are_inclusive() {
    let mut handler = PickupHandler::new();
    // 149 units east and north of the pad at (0, -4240), at the height ceiling.
    assert_eq!(handler.try_pickup(&body_at(14900, -424000 + 14900, 16500)), Some(BoostPadSize::Small));
    let mut handler = PickupHandler::new();
    assert_eq!(handler.try_pickup(&body_at(14901, -424000, 0)), None);
    let mut handler = PickupHandler::new();
    assert_eq!(handler.try_pickup(&body_at(0, -424000, 16501)), None);
}

#[test]
fn large_pad_box_uses_its_own_radius_and_height() {
    let mut handler = PickupHandler::new();
    assert_eq!(handler.try_pickup(&body_at(358400 + 20800, 0, 16800)), Some(BoostPadSize::Large));
    let mut handler = PickupHandler::new();
    assert_eq!(handler.try_pickup(&body_at(358400 + 20801, 0, 0)), None);
    let mut handler = PickupHandler::new();
    assert_eq!(handler.try_pickup(&body_at(358400, 0, 16801)), None);
}

#[test]
fn collision_checks_report_the_first_pad_in_declared_order() {
    let handler = PickupHandler::new();
    assert_eq!(handler.check_small_pad_collision(&body_at(94000, 330800, 0)), Some(BoostPad::new(94000, 330800)));
    assert_eq!(handler.check_large_pad_collision(&body_at(94000, 330800, 0)), None);
    // Inside the boxes of two large pads: the one declared first wins.
    assert_eq!(
        handler.check_large_pad_collision(&body_at(307700, 409700, 0)),
        Some(BoostPad::new(308200, 409800))
    );
    assert_eq!(handler.check_small_pad_collision(&body_at(0, 0, 0)), None);
}

#[test]
fn pad_stays_disabled_during_cooldown() {
    let mut handler = PickupHandler::new();
    let rb = body_at(0, 102400, 0);
    handler.set_time(1000);
    assert_eq!(handler.try_pickup(&rb), Some(BoostPadSize::Small));
    assert_eq!(handler.try_pickup(&rb), None);
    handler.update(1000);
    handler.set_time(5999);
    handler.update(5999);
    assert_eq!(handler.try_pickup(&rb), None);
    handler.set_time(6000);
    handler.update(6000);
    assert_eq!(handler.try_pickup(&rb), Some(BoostPadSize::Small));
}

#[test]
fn sweep_keeps_other_pads_enabled_and_independent() {
    let mut handler = PickupHandler::new();
    let a = body_at(0, 102400, 0);
    let b = body_at(358400, 0, 0);
    assert_eq!(handler.try_pickup(&a), Some(BoostPadSize::Small));
    handler.set_time(3000);
    assert_eq!(handler.try_pickup(&b), Some(BoostPadSize::Large));
    handler.set_time(5000);
    handler.update(5000);
    assert_eq!(handler.try_pickup(&a), Some(BoostPadSize::Small));
    assert_eq!(handler.try_pickup(&b), None);
}

#[test]
fn disabled_small_pad_does_not_fall_through_to_large() {
    // No small pad overlaps a large pad's box in the catalogue, so check the
    // rule on a small pad: a second query on a disabled pad yields nothing.
    let mut handler = PickupHandler::new();
    let rb = body_at(-102400, 0, 0);
    assert_eq!(handler.try_pickup(&rb), Some(BoostPadSize::Small));
    assert_eq!(handler.try_pickup(&rb), None);
}
