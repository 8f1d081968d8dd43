//! Per-frame snapshots of the players and the ball, and the bundle of them
//! that one frame hands to the statistics.
use crate::player::{PlayerId, Team};
use crate::rigid_body::RigidBody;
use vstd::prelude::*;

verus! {

/// A toggle counter read from the frame source means "active" when it is odd;
/// an absent counter means inactive.
pub open spec fn toggle_active(counter: Option<u8>) -> bool {
    counter matches Some(c) && c % 2 == 1
}

fn parity_flag(counter: Option<u8>) -> (r: bool)
    ensures
        r == toggle_active(counter),
{
    match counter {
        Some(c) => c % 2 == 1,
        None => false,
    }
}

/// The state of one player in one frame.
#[derive(Clone, Copy, Debug, PartialEq, Eq, Structural)]
pub struct PlayerFrame {
    pub id: PlayerId,
    pub team: Team,
    /// Absent while the car has not been observed at this time.
    pub rigid_body: Option<RigidBody>,
    /// Boost in the tank, in hundredths of a unit (full = 25500), when known.
    pub current_boost_amount: Option<u16>,
    pub boost_active: bool,
    pub jump_active: bool,
    pub double_jump_active: bool,
    pub dodge_active: bool,
}

impl PlayerFrame {
    /// Builds a snapshot from what the frame source reports for the player at
    /// this time; each ability flag is decoded once from its toggle counter.
    pub fn new_from_processor(
        id: PlayerId,
        is_team_0: bool,
        rigid_body: Option<RigidBody>,
        current_boost_amount: Option<u16>,
        boost_counter: Option<u8>,
        jump_counter: Option<u8>,
        double_jump_counter: Option<u8>,
        dodge_counter: Option<u8>,
    ) -> (r: PlayerFrame)
        ensures
            r.id == id,
            r.team == (if is_team_0 { Team::Zero } else { Team::One }),
            r.rigid_body == rigid_body,
            r.current_boost_amount == current_boost_amount,
            r.boost_active == toggle_active(boost_counter),
            r.jump_active == toggle_active(jump_counter),
            r.double_jump_active == toggle_active(double_jump_counter),
            r.dodge_active == toggle_active(dodge_counter),
    {
        PlayerFrame {
            id,
            team: Team::from_is_team_0(is_team_0),
            rigid_body,
            current_boost_amount,
            boost_active: parity_flag(boost_counter),
            jump_active: parity_flag(jump_counter),
            double_jump_active: parity_flag(double_jump_counter),
            dodge_active: parity_flag(dodge_counter),
        }
    }
}

/// The frame stored under `id`, searching from position `i` on.
pub open spec fn lookup_from(
    frames: Seq<(PlayerId, PlayerFrame)>,
    id: PlayerId,
    i: nat,
) -> Option<PlayerFrame>
    decreases frames.len() - i,
{
    if i >= frames.len() {
        None
    } else if frames[i as int].0 == id {
        Some(frames[i as int].1)
    } else {
        lookup_from(frames, id, i + 1)
    }
}

/// The frame stored under `id`.
pub open spec fn lookup(frames: Seq<(PlayerId, PlayerFrame)>, id: PlayerId) -> Option<PlayerFrame> {
    lookup_from(frames, id, 0)
}

/// No identity is stored twice.
pub open spec fn keys_unique(frames: Seq<(PlayerId, PlayerFrame)>) -> bool {
    forall|i: int, j: int|
        0 <= i < frames.len() && 0 <= j < frames.len() && i != j ==> frames[i].0 != frames[j].0
}

/// Position of the entry stored under `id`, searching from position `i` on.
pub open spec fn position_from(frames: Seq<(PlayerId, PlayerFrame)>, id: PlayerId, i: nat) -> Option<nat>
    decreases frames.len() - i,
{
    if i >= frames.len() {
        None
    } else if frames[i as int].0 == id {
        Some(i)
    } else {
        position_from(frames, id, i + 1)
    }
}

/// The snapshots of all players in one frame, keyed by identity, in the order
/// they were added.
pub struct PlayerFrameData {
    frames: Vec<(PlayerId, PlayerFrame)>,
}

impl View for PlayerFrameData {
    type V = Seq<(PlayerId, PlayerFrame)>;

    closed spec fn view(&self) -> Seq<(PlayerId, PlayerFrame)> {
        self.frames@
    }
}

impl PlayerFrameData {
    pub open spec fn wf(&self) -> bool {
        keys_unique(self@)
    }

    pub fn new() -> (r: PlayerFrameData)
        ensures
            r.wf(),
            r@ == Seq::<(PlayerId, PlayerFrame)>::empty(),
    {
        PlayerFrameData { frames: Vec::new() }
    }

    /// Stores `frame` under `id`, replacing the frame already stored under it.
    pub fn add_frame(&mut self, id: &PlayerId, frame: &PlayerFrame)
        requires
            old(self).wf(),
        ensures
            final(self).wf(),
            final(self)@ == match position_from(old(self)@, *id, 0) {
                Some(i) => old(self)@.update(i as int, (*id, *frame)),
                None => old(self)@.push((*id, *frame)),
            },
    {
        let mut i: usize = 0;
        while i < self.frames.len()
            invariant
                i <= self@.len(),
                self@ == old(self)@,
                keys_unique(self@),
                position_from(self@, *id, 0) == position_from(self@, *id, i as nat),
                forall|k: int| 0 <= k < i ==> self@[k].0 != *id,
            decreases self@.len() - i,
        {
            if self.frames[i].0 == *id {
                self.frames.set(i, (*id, *frame));
                assert(keys_unique(self@));
                return;
            }
            i = i + 1;
        }
        self.frames.push((*id, *frame));
        assert(keys_unique(self@)) by {
            assert forall|a: int, b: int|
                0 <= a < self@.len() && 0 <= b < self@.len() && a != b implies self@[a].0
                != self@[b].0 by {
                if a < old(self)@.len() && b < old(self)@.len() {
                    assert(self@[a] == old(self)@[a]);
                    assert(self@[b] == old(self)@[b]);
                }
            }
        }
    }

    /// The entries, in the order they were added.
    pub fn frames(&self) -> (r: &Vec<(PlayerId, PlayerFrame)>)
        ensures
            r@ == self@,
    {
        &self.frames
    }

    /// The frame stored under `id`.
    pub fn get(&self, id: &PlayerId) -> (r: Option<PlayerFrame>)
        ensures
            r == lookup(self@, *id),
    {
        let mut i: usize = 0;
        while i < self.frames.len()
            invariant
                i <= self@.len(),
                lookup(self@, *id) == lookup_from(self@, *id, i as nat),
            decreases self@.len() - i,
        {
            if self.frames[i].0 == *id {
                return Some(self.frames[i].1);
            }
            i = i + 1;
        }
        None
    }
}

/// The state of the ball in one frame.
#[derive(Clone, Copy, Debug, PartialEq, Eq, Structural)]
pub struct BallFrame {
    /// Absent while the ball has not been observed at this time.
    pub rigid_body: Option<RigidBody>,
}

impl BallFrame {
    /// Builds the ball's snapshot from the rigid body the frame source reports.
    pub fn new_from_processor(rigid_body: Option<RigidBody>) -> (r: BallFrame)
        ensures
            r.rigid_body == rigid_body,
    {
        BallFrame { rigid_body }
    }
}

/// Ball snapshots in the order they were added.
pub struct BallFrameData {
    frames: Vec<BallFrame>,
}

impl View for BallFrameData {
    type V = Seq<BallFrame>;

    closed spec fn view(&self) -> Seq<BallFrame> {
        self.frames@
    }
}

impl BallFrameData {
    pub fn new() -> (r: BallFrameData)
        ensures
            r@ == Seq::<BallFrame>::empty(),
    {
        BallFrameData { frames: Vec::new() }
    }

    pub fn add_frame(&mut self, frame: &BallFrame)
        ensures
            final(self)@ == old(self)@.push(*frame),
    {
        self.frames.push(*frame);
    }
}

/// One kind of data that a frame carries.
pub enum PayloadDataType {
    Player(PlayerFrameData),
    Ball(BallFrameData),
}

/// The player snapshots of the first player entry from position `i` on, if any.
pub open spec fn first_player_data(data: Seq<PayloadDataType>, i: nat) -> Option<Seq<(PlayerId, PlayerFrame)>>
    decreases data.len() - i,
{
    if i >= data.len() {
        None
    } else {
        match data[i as int] {
            PayloadDataType::Player(d) => Some(d@),
            PayloadDataType::Ball(_) => first_player_data(data, i + 1),
        }
    }
}

/// Everything one frame hands to the statistics.
pub struct Payload {
    pub data: Vec<PayloadDataType>,
}

impl Payload {
    /// The player snapshots this frame carries: those of its first player
    /// entry, none if it has no such entry.
    pub open spec fn player_view(&self) -> Seq<(PlayerId, PlayerFrame)> {
        match first_player_data(self.data@, 0) {
            Some(s) => s,
            None => Seq::empty(),
        }
    }

    pub fn new() -> (r: Payload)
        ensures
            r.data@ == Seq::<PayloadDataType>::empty(),
    {
        Payload { data: Vec::new() }
    }

    pub fn add_data(&mut self, payload_data: PayloadDataType)
        ensures
            final(self).data@ == old(self).data@.push(payload_data),
    {
        self.data.push(payload_data);
    }

    /// The first player entry of this frame, if any.
    pub fn player_frames(&self) -> (r: Option<&PlayerFrameData>)
        ensures
            match r {
                Some(d) => first_player_data(self.data@, 0) == Some(d@),
                None => first_player_data(self.data@, 0) is None,
            },
    {
        let mut i: usize = 0;
        while i < self.data.len()
            invariant
                i <= self.data@.len(),
                first_player_data(self.data@, 0) == first_player_data(self.data@, i as nat),
            decreases self.data@.len() - i,
        {
            match &self.data[i] {
                PayloadDataType::Player(d) => {
                    return Some(d);
                },
                PayloadDataType::Ball(_) => {},
            }
            i = i + 1;
        }
        None
    }
}

} // verus!
