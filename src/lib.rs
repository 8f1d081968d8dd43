//! Per-player gameplay statistics (boost economy, movement profile, field
//! positioning) derived from a replay that has been decoded into a sequence of
//! per-frame world states.
//!
//! All quantities are fixed point integers: distances are hundredths of an
//! unreal unit, velocities hundredths of a unit per second, boost amounts
//! hundredths of a boost unit (full tank = 25500) and replay time milliseconds.
pub mod constants;
pub mod rigid_body;
pub mod pickup;
pub mod player;
pub mod payload;
pub mod boost;
pub mod movement;
pub mod util;
pub mod location;
pub mod stats;
pub mod stat_collector;
pub mod replay;
