//! The boost statistic: boost spent, time spent in each quarter of the tank,
//! pads collected and boost wasted by collecting into a nearly full tank.
use crate::constants::{BOOST_PER_FRAME, LARGE_BOOST_PICKUP_AMOUNT, MAX_BOOST, SMALL_BOOST_PICKUP_AMOUNT};
use crate::payload::{lookup, PlayerFrame, PlayerFrameData};
use crate::pickup::BoostPadSize;
use crate::player::PlayerId;
use vstd::prelude::*;

verus! {

/// 1 when `b` holds, else 0.
pub open spec fn count(b: bool) -> int {
    if b {
        1
    } else {
        0
    }
}

/// The amount is known and lies in `(low, high]`.
pub open spec fn in_band(amount: Option<u16>, low: int, high: int) -> bool {
    amount matches Some(a) && low < a && a <= high
}

/// Boost a pickup grants nominally.
pub open spec fn nominal_amount(size: BoostPadSize) -> int {
    match size {
        BoostPadSize::Small => SMALL_BOOST_PICKUP_AMOUNT as int,
        BoostPadSize::Large => LARGE_BOOST_PICKUP_AMOUNT as int,
    }
}

/// Boost wasted by a pickup: what the nominal amount added to the amount held
/// before the pickup exceeds a full tank by, when that is positive and the
/// amount is known; zero otherwise.
pub open spec fn overfill_of(amount: Option<u16>, pickup: Option<BoostPadSize>) -> int {
    match (amount, pickup) {
        (Some(a), Some(size)) => if nominal_amount(size) + a - MAX_BOOST > 0 {
            nominal_amount(size) + a - MAX_BOOST
        } else {
            0
        },
        _ => 0,
    }
}

/// Boost statistics of one player. Amounts are hundredths of a boost unit.
#[derive(Clone, Copy, Debug, PartialEq, Eq, Structural)]
pub struct Boost {
    pub total_usage: u64,
    pub frames_active: u32,
    pub frames_0_25_boost: u32,
    pub frames_25_50_boost: u32,
    pub frames_50_75_boost: u32,
    pub frames_75_100_boost: u32,
    pub frames_0_boost: u32,
    pub frames_100_boost: u32,
    pub small_boost_pickups: u32,
    pub large_boost_pickups: u32,
    pub overfill_total: u64,
}

impl Boost {
    pub open spec fn initial() -> Boost {
        Boost {
            total_usage: 0,
            frames_active: 0,
            frames_0_25_boost: 0,
            frames_25_50_boost: 0,
            frames_50_75_boost: 0,
            frames_75_100_boost: 0,
            frames_0_boost: 0,
            frames_100_boost: 0,
            small_boost_pickups: 0,
            large_boost_pickups: 0,
            overfill_total: 0,
        }
    }

    /// Usage is the per-frame drain times the active frames, and no pickup
    /// wasted more than a tank holds.
    pub open spec fn wf(self) -> bool {
        &&& self.total_usage == self.frames_active * BOOST_PER_FRAME
        &&& self.overfill_total <= (self.small_boost_pickups + self.large_boost_pickups) * 65535
    }

    /// Every frame counter is at most `n`.
    pub open spec fn bounded_by(self, n: int) -> bool {
        &&& self.frames_active <= n
        &&& self.frames_0_25_boost <= n
        &&& self.frames_25_50_boost <= n
        &&& self.frames_50_75_boost <= n
        &&& self.frames_75_100_boost <= n
        &&& self.frames_0_boost <= n
        &&& self.frames_100_boost <= n
        &&& self.small_boost_pickups <= n
        &&& self.large_boost_pickups <= n
    }

    /// The statistics after one frame in which the player's snapshot is `f`
    /// and the detector reported `pickup` for the player.
    pub open spec fn step(self, f: PlayerFrame, pickup: Option<BoostPadSize>) -> Boost {
        let amount = f.current_boost_amount;
        Boost {
            total_usage: (self.total_usage + count(f.boost_active) * BOOST_PER_FRAME) as u64,
            frames_active: (self.frames_active + count(f.boost_active)) as u32,
            frames_0_25_boost: (self.frames_0_25_boost + count(in_band(amount, 0, 6375))) as u32,
            frames_25_50_boost: (self.frames_25_50_boost + count(in_band(amount, 6375, 12750))) as u32,
            frames_50_75_boost: (self.frames_50_75_boost + count(in_band(amount, 12750, 19125))) as u32,
            frames_75_100_boost: (self.frames_75_100_boost + count(in_band(amount, 19125, 25500))) as u32,
            frames_0_boost: (self.frames_0_boost + count(amount == Some(0u16))) as u32,
            frames_100_boost: (self.frames_100_boost + count(amount == Some(25500u16))) as u32,
            small_boost_pickups: (self.small_boost_pickups + count(pickup == Some(BoostPadSize::Small))) as u32,
            large_boost_pickups: (self.large_boost_pickups + count(pickup == Some(BoostPadSize::Large))) as u32,
            overfill_total: (self.overfill_total + overfill_of(amount, pickup)) as u64,
        }
    }

    pub fn new() -> (r: Boost)
        ensures
            r == Boost::initial(),
    {
        Boost {
            total_usage: 0,
            frames_active: 0,
            frames_0_25_boost: 0,
            frames_25_50_boost: 0,
            frames_50_75_boost: 0,
            frames_75_100_boost: 0,
            frames_0_boost: 0,
            frames_100_boost: 0,
            small_boost_pickups: 0,
            large_boost_pickups: 0,
            overfill_total: 0,
        }
    }

    /// Counts one frame of the player: drain while boosting, the tank's
    /// quarter, an empty or full tank, the pickup and its overfill.
    pub fn update_boost_amount_stats(&mut self, player_frame: &PlayerFrame, pickup: Option<BoostPadSize>)
        requires
            old(self).wf(),
            old(self).bounded_by(u32::MAX - 1),
        ensures
            *final(self) == old(self).step(*player_frame, pickup),
            final(self).wf(),
    {
        if player_frame.boost_active {
            self.total_usage = self.total_usage + BOOST_PER_FRAME;
            self.frames_active = self.frames_active + 1;
        }
        match player_frame.current_boost_amount {
            Some(amount) => {
                if 0 < amount && amount <= 6375 {
                    self.frames_0_25_boost = self.frames_0_25_boost + 1;
                } else if 6375 < amount && amount <= 12750 {
                    self.frames_25_50_boost = self.frames_25_50_boost + 1;
                } else if 12750 < amount && amount <= 19125 {
                    self.frames_50_75_boost = self.frames_50_75_boost + 1;
                } else if 19125 < amount && amount <= 25500 {
                    self.frames_75_100_boost = self.frames_75_100_boost + 1;
                }
                if amount == 0 {
                    self.frames_0_boost = self.frames_0_boost + 1;
                } else if amount == 25500 {
                    self.frames_100_boost = self.frames_100_boost + 1;
                }
            },
            None => {},
        }
        match pickup {
            Some(size) => {
                let nominal: u64 = match size {
                    BoostPadSize::Small => {
                        self.small_boost_pickups = self.small_boost_pickups + 1;
                        SMALL_BOOST_PICKUP_AMOUNT
                    },
                    BoostPadSize::Large => {
                        self.large_boost_pickups = self.large_boost_pickups + 1;
                        LARGE_BOOST_PICKUP_AMOUNT
                    },
                };
                match player_frame.current_boost_amount {
                    Some(amount) => {
                        if nominal + amount as u64 > MAX_BOOST {
                            self.overfill_total = self.overfill_total + (nominal + amount as u64 - MAX_BOOST);
                        }
                    },
                    None => {},
                }
            },
            None => {},
        }
    }

    /// Counts the frame of `player_id` in `frames`, with the pickup the
    /// detector reported for the player; nothing changes when the frame holds
    /// no snapshot of the player.
    pub fn update(&mut self, frames: &PlayerFrameData, player_id: &PlayerId, pickup: Option<BoostPadSize>)
        requires
            old(self).wf(),
            old(self).bounded_by(u32::MAX - 1),
        ensures
            *final(self) == match lookup(frames@, *player_id) {
                Some(f) => old(self).step(f, pickup),
                None => *old(self),
            },
            final(self).wf(),
    {
        match frames.get(player_id) {
            Some(player_frame) => self.update_boost_amount_stats(&player_frame, pickup),
            None => {},
        }
    }
}

/// The statistics after the frames of `frames`, each a snapshot with the
/// pickup reported for it, counted from the initial state.
pub open spec fn boost_over(frames: Seq<(PlayerFrame, Option<BoostPadSize>)>) -> Boost
    decreases frames.len(),
{
    if frames.len() == 0 {
        Boost::initial()
    } else {
        boost_over(frames.drop_last()).step(frames.last().0, frames.last().1)
    }
}

/// Number of frames of `frames` whose boost amount is known.
pub open spec fn known_amount_frames(frames: Seq<(PlayerFrame, Option<BoostPadSize>)>) -> int
    decreases frames.len(),
{
    if frames.len() == 0 {
        0
    } else {
        known_amount_frames(frames.drop_last()) + count(frames.last().0.current_boost_amount is Some)
    }
}

proof fn lemma_boost_over_bounded(frames: Seq<(PlayerFrame, Option<BoostPadSize>)>)
    requires
        frames.len() <= u32::MAX,
    ensures
        boost_over(frames).bounded_by(frames.len() as int),
    decreases frames.len(),
{
    if frames.len() > 0 {
        lemma_boost_over_bounded(frames.drop_last());
    }
}

/// A known amount lies in `(0, 25500]`.
pub open spec fn positive_if_known(amount: Option<u16>) -> bool {
    amount matches Some(a) ==> 0 < a && a <= MAX_BOOST
}

/// Over any frames whose known boost amounts lie in `(0, 25500]`, the four
/// quarter-band counters add up to the number of frames with a known amount.
/// (An amount of exactly zero falls in no band.)
pub proof fn lemma_boost_bands_count_known_frames(frames: Seq<(PlayerFrame, Option<BoostPadSize>)>)
    requires
        frames.len() <= u32::MAX,
        forall|k: int| 0 <= k < frames.len() ==> positive_if_known(#[trigger] frames[k].0.current_boost_amount),
    ensures
        ({
            let b = boost_over(frames);
            b.frames_0_25_boost + b.frames_25_50_boost + b.frames_50_75_boost + b.frames_75_100_boost
                == known_amount_frames(frames)
        }),
    decreases frames.len(),
{
    if frames.len() > 0 {
        let rest = frames.drop_last();
        assert forall|k: int| 0 <= k < rest.len() implies positive_if_known(
            #[trigger] rest[k].0.current_boost_amount,
        ) by {
            assert(rest[k] == frames[k]);
        }
        assert(positive_if_known(frames[frames.len() - 1].0.current_boost_amount));
        lemma_boost_bands_count_known_frames(rest);
        lemma_boost_over_bounded(rest);
    }
}

} // verus!
