//! Fixed field geometry and boost rules, in the library's fixed point units.
use vstd::prelude::*;

verus! {

/// Half-width of the square within which a car collects a large pad (hundredths of a unit).
pub const LARGE_BOOST_RADIUS: i64 = 20800;

/// Half-width of the square within which a car collects a small pad (hundredths of a unit).
pub const SMALL_BOOST_RADIUS: i64 = 14900;

/// Highest car position that still collects a small pad (hundredths of a unit).
pub const SMALL_BOOST_HEIGHT: i64 = 16500;

/// Highest car position that still collects a large pad (hundredths of a unit).
pub const LARGE_BOOST_HEIGHT: i64 = 16800;

/// Nominal boost granted by a small pad (hundredths of a boost unit).
pub const SMALL_BOOST_PICKUP_AMOUNT: u64 = 3060;

/// Nominal boost granted by a large pad (hundredths of a boost unit).
pub const LARGE_BOOST_PICKUP_AMOUNT: u64 = 25500;

/// A full boost tank (hundredths of a boost unit).
pub const MAX_BOOST: u64 = 25500;

/// Boost spent in one frame of boosting (hundredths of a boost unit).
pub const BOOST_PER_FRAME: u64 = 112;

/// Time after a pickup during which a pad stays disabled (milliseconds).
pub const BOOST_COOLDOWN: u64 = 5000;

/// Highest position at which a car counts as on the ground (hundredths of a unit).
pub const CAR_HEIGHT_ON_GROUND: i64 = 2000;

/// Height of the goal; cars above it are high in the air (hundredths of a unit).
pub const GOAL_HEIGHT: i64 = 84000;

/// Speed from which a car is supersonic (hundredths of a unit per second).
pub const SUPERSONIC_SPEED: u64 = 220000;

/// Speed from which a car moves at boost speed (hundredths of a unit per second).
pub const BOOST_SPEED: u64 = 140000;

/// Length of the field along the forward axis (hundredths of a unit).
pub const MAP_Y: i64 = 1024000;

} // verus!
