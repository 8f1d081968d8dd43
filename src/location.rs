//! The location statistic: time spent in each half and third of the field,
//! and as the team's player nearest to or farthest from the center line.
use crate::boost::count;
use crate::payload::{lookup, PlayerFrame, PlayerFrameData};
use crate::player::{PlayerId, Team};
use crate::rigid_body::RigidBody;
use crate::util::{
    holds_extreme, in_defensive_half, in_defensive_third, in_neutral_third, in_offensive_half,
    in_offensive_third, is_defensive_half, is_defensive_third, is_farthest_back, is_farthest_forward,
    is_neutral_third, is_offensive_half, is_offensive_third,
};
use vstd::prelude::*;

verus! {

/// Location statistics of one player, in frames.
#[derive(Clone, Copy, Debug, PartialEq, Eq, Structural)]
pub struct Location {
    pub frames_defensive_half: u32,
    pub frames_offensive_half: u32,
    pub frames_defensive_third: u32,
    pub frames_neutral_third: u32,
    pub frames_offensive_third: u32,
    pub frames_farthest_forward: u32,
    pub frames_farthest_back: u32,
}

impl Location {
    pub open spec fn initial() -> Location {
        Location {
            frames_defensive_half: 0,
            frames_offensive_half: 0,
            frames_defensive_third: 0,
            frames_neutral_third: 0,
            frames_offensive_third: 0,
            frames_farthest_forward: 0,
            frames_farthest_back: 0,
        }
    }

    /// Every frame counter is at most `n`.
    pub open spec fn bounded_by(self, n: int) -> bool {
        &&& self.frames_defensive_half <= n
        &&& self.frames_offensive_half <= n
        &&& self.frames_defensive_third <= n
        &&& self.frames_neutral_third <= n
        &&& self.frames_offensive_third <= n
        &&& self.frames_farthest_forward <= n
        &&& self.frames_farthest_back <= n
    }

    /// One sample of the zones the body lies in.
    pub open spec fn with_zones(self, team: Team, rb: RigidBody) -> Location {
        let y = rb.location.y;
        Location {
            frames_defensive_half: (self.frames_defensive_half + count(in_defensive_half(team, y))) as u32,
            frames_offensive_half: (self.frames_offensive_half + count(in_offensive_half(team, y))) as u32,
            frames_defensive_third: (self.frames_defensive_third + count(in_defensive_third(team, y))) as u32,
            frames_neutral_third: (self.frames_neutral_third + count(in_neutral_third(team, y))) as u32,
            frames_offensive_third: (self.frames_offensive_third + count(in_offensive_third(team, y))) as u32,
            ..self
        }
    }

    /// One sample of where the player stands among its teammates.
    pub open spec fn with_rank(
        self,
        team: Team,
        id: PlayerId,
        frames: Seq<(PlayerId, PlayerFrame)>,
    ) -> Location {
        Location {
            frames_farthest_back: (self.frames_farthest_back + count(holds_extreme(frames, team, id, true))) as u32,
            frames_farthest_forward: (self.frames_farthest_forward + count(
                holds_extreme(frames, team, id, false),
            )) as u32,
            ..self
        }
    }

    /// The statistics after one frame whose snapshots are `frames`. Without a
    /// snapshot of the player nothing changes; without its rigid body only the
    /// rank among teammates is counted.
    pub open spec fn step(self, frames: Seq<(PlayerId, PlayerFrame)>, id: PlayerId) -> Location {
        match lookup(frames, id) {
            None => self,
            Some(f) => {
                let ranked = self.with_rank(f.team, id, frames);
                match f.rigid_body {
                    Some(rb) => ranked.with_zones(f.team, rb),
                    None => ranked,
                }
            },
        }
    }

    pub fn new() -> (r: Location)
        ensures
            r == Location::initial(),
    {
        Location {
            frames_defensive_half: 0,
            frames_offensive_half: 0,
            frames_defensive_third: 0,
            frames_neutral_third: 0,
            frames_offensive_third: 0,
            frames_farthest_forward: 0,
            frames_farthest_back: 0,
        }
    }

    fn update_location_stats(&mut self, team: &Team, player_rb: &RigidBody)
        requires
            old(self).frames_defensive_half < u32::MAX,
            old(self).frames_offensive_half < u32::MAX,
            old(self).frames_defensive_third < u32::MAX,
            old(self).frames_neutral_third < u32::MAX,
            old(self).frames_offensive_third < u32::MAX,
        ensures
            *final(self) == old(self).with_zones(*team, *player_rb),
    {
        if is_defensive_half(team, player_rb) {
            self.frames_defensive_half = self.frames_defensive_half + 1;
        }
        if is_offensive_half(team, player_rb) {
            self.frames_offensive_half = self.frames_offensive_half + 1;
        }
        if is_defensive_third(team, player_rb) {
            self.frames_defensive_third = self.frames_defensive_third + 1;
        }
        if is_neutral_third(team, player_rb) {
            self.frames_neutral_third = self.frames_neutral_third + 1;
        }
        if is_offensive_third(team, player_rb) {
            self.frames_offensive_third = self.frames_offensive_third + 1;
        }
    }

    fn update_relative_location_stats(
        &mut self,
        team: &Team,
        target_player: &PlayerId,
        player_frames: &PlayerFrameData,
    )
        requires
            old(self).bounded_by(u32::MAX - 1),
        ensures
            *final(self) == old(self).with_rank(*team, *target_player, player_frames@),
    {
        if is_farthest_back(team, target_player, player_frames) {
            self.frames_farthest_back = self.frames_farthest_back + 1;
        }
        if is_farthest_forward(team, target_player, player_frames) {
            self.frames_farthest_forward = self.frames_farthest_forward + 1;
        }
    }

    /// Counts the frame of `player_id` in `frames`.
    pub fn update(&mut self, frames: &PlayerFrameData, player_id: &PlayerId)
        requires
            old(self).bounded_by(u32::MAX - 1),
        ensures
            *final(self) == old(self).step(frames@, *player_id),
    {
        match frames.get(player_id) {
            Some(player_frame) => {
                self.update_relative_location_stats(&player_frame.team, player_id, frames);
                match player_frame.rigid_body {
                    Some(rb) => self.update_location_stats(&player_frame.team, &rb),
                    None => {},
                }
            },
            None => {},
        }
    }
}

} // verus!
