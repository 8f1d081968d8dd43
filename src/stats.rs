//! The fixed set of statistics every player carries, updated through one
//! shared operation.
use crate::boost::Boost;
use crate::location::Location;
use crate::movement::Movement;
use crate::payload::{lookup, PlayerFrame, PlayerFrameData};
use crate::pickup::BoostPadSize;
use crate::player::PlayerId;
use vstd::prelude::*;

verus! {

/// One statistic of a player.
#[derive(Clone, Copy, Debug, PartialEq, Eq, Structural)]
pub enum Stat {
    Boost(Boost),
    Location(Location),
    Movement(Movement),
}

impl Stat {
    pub open spec fn wf(self) -> bool {
        match self {
            Stat::Boost(b) => b.wf(),
            Stat::Location(_) => true,
            Stat::Movement(m) => m.wf(),
        }
    }

    /// Every frame counter is at most `n`.
    pub open spec fn bounded_by(self, n: int) -> bool {
        match self {
            Stat::Boost(b) => b.bounded_by(n),
            Stat::Location(l) => l.bounded_by(n),
            Stat::Movement(m) => m.bounded_by(n),
        }
    }

    /// The statistic after one frame with snapshots `frames`, for the player
    /// `id`, to whom the detector reported `pickup`.
    pub open spec fn step(
        self,
        frames: Seq<(PlayerId, PlayerFrame)>,
        id: PlayerId,
        pickup: Option<BoostPadSize>,
    ) -> Stat {
        match self {
            Stat::Boost(b) => Stat::Boost(
                match lookup(frames, id) {
                    Some(f) => b.step(f, pickup),
                    None => b,
                },
            ),
            Stat::Location(l) => Stat::Location(l.step(frames, id)),
            Stat::Movement(m) => Stat::Movement(
                match lookup(frames, id) {
                    Some(f) => m.step(f),
                    None => m,
                },
            ),
        }
    }

    /// Counts one frame of the player `player_id`.
    pub fn update(&mut self, frames: &PlayerFrameData, player_id: &PlayerId, pickup: Option<BoostPadSize>)
        requires
            old(self).wf(),
            old(self).bounded_by(u32::MAX - 1),
        ensures
            *final(self) == old(self).step(frames@, *player_id, pickup),
            final(self).wf(),
    {
        match self {
            Stat::Boost(b) => b.update(frames, player_id, pickup),
            Stat::Location(l) => l.update(frames, player_id),
            Stat::Movement(m) => m.update(frames, player_id),
        }
    }
}

/// A frame raises each counter of a statistic by at most one.
pub proof fn lemma_step_bounded(
    s: Stat,
    frames: Seq<(PlayerId, PlayerFrame)>,
    id: PlayerId,
    pickup: Option<BoostPadSize>,
    n: int,
)
    requires
        s.bounded_by(n),
        n < u32::MAX,
    ensures
        s.step(frames, id, pickup).bounded_by(n + 1),
{
}

} // verus!
