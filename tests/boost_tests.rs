use rl_replay_api::pickup::{large_boost_pads, small_boost_pads, BoostPadSize, PickupHandler};
use rl_replay_api::rigid_body::{RigidBody, Vector3};

fn body_at(x: i32, y: i32, z: i32) -> RigidBody {
    RigidBody {
        sleeping: false,
        location: Vector3 { x, y, z },
        linear_velocity: None,
    }
}

#[test]
fn boost_tests_detect_small_boost_pickup() {
    let mut pickup_map = PickupHandler::new();
    let pad = small_boost_pads()[0];
    let rb = body_at(pad.x, pad.y, 0);
    let result = pickup_map.try_pickup(&rb);
    assert!(result == Some(BoostPadSize::Small));
}

#[test]
fn boost_tests_detect_large_boost_pickup() {
    let mut pickup_map = PickupHandler::new();
    let pad = large_boost_pads()[0];
    let rb = body_at(pad.x, pad.y, 0);
    let result = pickup_map.try_pickup(&rb);
    assert!(result == Some(BoostPadSize::Large));
}

#[test]
fn boost_tests_detect_no_boost_pickup() {
    let mut pickup_map = PickupHandler::new();
    let rb = body_at(0, 0, 0);
    let result = pickup_map.try_pickup(&rb);
    assert!(result == None);
}
