//! Team-relative field zones, and which teammate is nearest to or farthest
//! from the center line.
use crate::constants::MAP_Y;
use crate::payload::{PlayerFrame, PlayerFrameData};
use crate::player::{PlayerId, Team};
use crate::rigid_body::RigidBody;
use vstd::prelude::*;

verus! {

/// Field layouts the statistics know.
#[derive(Clone, Copy, Debug, PartialEq, Eq, Structural)]
pub enum GameMode {
    Standard,
}

/// Position along the forward axis, counted toward the opponent's goal.
pub open spec fn forward_coordinate(team: Team, y: i32) -> int {
    match team {
        Team::Zero => y as int,
        Team::One => -y,
    }
}

/// Own half of the field; the center line belongs to the offensive half.
pub open spec fn in_defensive_half(team: Team, y: i32) -> bool {
    forward_coordinate(team, y) < 0
}

pub open spec fn in_offensive_half(team: Team, y: i32) -> bool {
    forward_coordinate(team, y) >= 0
}

/// The third of the field next to the player's own goal.
pub open spec fn in_defensive_third(team: Team, y: i32) -> bool {
    3 * forward_coordinate(team, y) < -MAP_Y
}

/// The third of the field next to the opponent's goal.
pub open spec fn in_offensive_third(team: Team, y: i32) -> bool {
    3 * forward_coordinate(team, y) > MAP_Y
}

/// The middle third, bounds included.
pub open spec fn in_neutral_third(team: Team, y: i32) -> bool {
    !in_defensive_third(team, y) && !in_offensive_third(team, y)
}

fn forward(team: &Team, y: i32) -> (r: i64)
    ensures
        r == forward_coordinate(*team, y),
{
    match team {
        Team::Zero => y as i64,
        Team::One => -(y as i64),
    }
}

pub fn is_defensive_half(team: &Team, player_rb: &RigidBody) -> (r: bool)
    ensures
        r == in_defensive_half(*team, player_rb.location.y),
{
    forward(team, player_rb.location.y) < 0
}

pub fn is_offensive_half(team: &Team, player_rb: &RigidBody) -> (r: bool)
    ensures
        r == in_offensive_half(*team, player_rb.location.y),
{
    forward(team, player_rb.location.y) >= 0
}

pub fn is_defensive_third(team: &Team, player_rb: &RigidBody) -> (r: bool)
    ensures
        r == in_defensive_third(*team, player_rb.location.y),
{
    3 * forward(team, player_rb.location.y) < -MAP_Y
}

pub fn is_offensive_third(team: &Team, player_rb: &RigidBody) -> (r: bool)
    ensures
        r == in_offensive_third(*team, player_rb.location.y),
{
    3 * forward(team, player_rb.location.y) > MAP_Y
}

pub fn is_neutral_third(team: &Team, player_rb: &RigidBody) -> (r: bool)
    ensures
        r == in_neutral_third(*team, player_rb.location.y),
{
    !is_defensive_third(team, player_rb) && !is_offensive_third(team, player_rb)
}

/// The snapshot is of a player of `team` whose rigid body was observed.
pub open spec fn is_candidate(f: PlayerFrame, team: Team) -> bool {
    f.team == team && f.rigid_body is Some
}

/// Distance from the center line along the forward axis.
pub open spec fn depth(f: PlayerFrame) -> int {
    let y = f.rigid_body.unwrap().location.y as int;
    if y >= 0 {
        y
    } else {
        -y
    }
}

/// `a` lies strictly nearer to the center line than `b` (when `nearest`), or
/// strictly farther from it (otherwise).
pub open spec fn beats(a: PlayerFrame, b: PlayerFrame, nearest: bool) -> bool {
    if nearest {
        depth(a) < depth(b)
    } else {
        depth(a) > depth(b)
    }
}

/// Position of the observed player of `team` nearest to the center line (when
/// `nearest`) or farthest from it; of several at the same distance, the first.
pub open spec fn extreme_index(frames: Seq<(PlayerId, PlayerFrame)>, team: Team, nearest: bool) -> Option<nat>
    decreases frames.len(),
{
    if frames.len() == 0 {
        None
    } else {
        let prev = extreme_index(frames.drop_last(), team, nearest);
        let f = frames.last().1;
        if !is_candidate(f, team) {
            prev
        } else {
            match prev {
                None => Some((frames.len() - 1) as nat),
                Some(k) => if beats(f, frames[k as int].1, nearest) {
                    Some((frames.len() - 1) as nat)
                } else {
                    prev
                },
            }
        }
    }
}

/// The player stored under `target` is that extreme player of `team`.
pub open spec fn holds_extreme(
    frames: Seq<(PlayerId, PlayerFrame)>,
    team: Team,
    target: PlayerId,
    nearest: bool,
) -> bool {
    extreme_index(frames, team, nearest) matches Some(k) && frames[k as int].0 == target
}

fn abs_y(f: &PlayerFrame) -> (r: i64)
    requires
        f.rigid_body is Some,
    ensures
        r == depth(*f),
{
    let y = f.rigid_body.unwrap().location.y as i64;
    if y >= 0 {
        y
    } else {
        -y
    }
}

fn find_extreme(frames: &Vec<(PlayerId, PlayerFrame)>, team: &Team, nearest: bool) -> (r: Option<usize>)
    ensures
        match r {
            Some(j) => extreme_index(frames@, *team, nearest) == Some(j as nat),
            None => extreme_index(frames@, *team, nearest) is None,
        },
        r matches Some(k) ==> k < frames@.len(),
{
    let mut best: Option<usize> = None;
    let mut i: usize = 0;
    while i < frames.len()
        invariant
            i <= frames@.len(),
            match best {
                Some(j) => extreme_index(frames@.take(i as int), *team, nearest) == Some(j as nat),
                None => extreme_index(frames@.take(i as int), *team, nearest) is None,
            },
            best matches Some(k) ==> k < i && is_candidate(frames@[k as int].1, *team),
        decreases frames@.len() - i,
    {
        let ghost prefix = frames@.take(i as int + 1);
        assert(prefix.drop_last() =~= frames@.take(i as int));
        assert(prefix.last() == frames@[i as int]);
        let f = frames[i].1;
        if f.team == *team && f.rigid_body.is_some() {
            match best {
                None => {
                    best = Some(i);
                },
                Some(k) => {
                    assert(prefix[k as int] == frames@[k as int]);
                    let dk = abs_y(&frames[k].1);
                    let di = abs_y(&f);
                    if (nearest && di < dk) || (!nearest && di > dk) {
                        best = Some(i);
                    }
                },
            }
        }
        i = i + 1;
    }
    assert(frames@.take(frames@.len() as int) =~= frames@);
    best
}

/// Among the observed players of `team` in this frame, the one nearest to the
/// center line (the first of several) is stored under `target_player`.
pub fn is_farthest_back(team: &Team, target_player: &PlayerId, player_frames: &PlayerFrameData) -> (r: bool)
    ensures
        r == holds_extreme(player_frames@, *team, *target_player, true),
{
    let frames = player_frames.frames();
    match find_extreme(frames, team, true) {
        Some(k) => frames[k].0 == *target_player,
        None => false,
    }
}

/// Among the observed players of `team` in this frame, the one farthest from
/// the center line (the first of several) is stored under `target_player`.
pub fn is_farthest_forward(team: &Team, target_player: &PlayerId, player_frames: &PlayerFrameData) -> (r: bool)
    ensures
        r == holds_extreme(player_frames@, *team, *target_player, false),
{
    let frames = player_frames.frames();
    match find_extreme(frames, team, false) {
        Some(k) => frames[k].0 == *target_player,
        None => false,
    }
}

} // verus!
