//! Players, their teams and the per-player statistics they own.
use crate::boost::Boost;
use crate::location::Location;
use crate::movement::Movement;
use crate::payload::{PlayerFrame, PlayerFrameData};
use crate::pickup::BoostPadSize;
use crate::stats::Stat;
use vstd::prelude::*;

verus! {

/// Stable identity of a player within one replay.
#[derive(Clone, Copy, Debug, PartialEq, Eq, Structural, Hash)]
pub struct PlayerId {
    pub key: u64,
}

impl PlayerId {
    pub fn new(key: u64) -> (r: PlayerId)
        ensures
            r == (PlayerId { key }),
    {
        PlayerId { key }
    }
}

/// One of the two teams. Team zero defends the goal on the negative side of
/// the forward axis, team one the goal on the positive side.
#[derive(Clone, Copy, Debug, PartialEq, Eq, Structural)]
pub enum Team {
    Zero,
    One,
}

impl Team {
    /// The team as the frame source reports it: whether the player is on team zero.
    pub fn from_is_team_0(is_team_0: bool) -> (r: Team)
        ensures
            r == (if is_team_0 { Team::Zero } else { Team::One }),
    {
        if is_team_0 {
            Team::Zero
        } else {
            Team::One
        }
    }
}

/// Match-level tallies of a player, all zero until the frame source fills them.
pub struct Core {
    pub is_team_zero: bool,
    pub score: u32,
    pub goals: u32,
    pub assists: u32,
    pub saves: u32,
    pub shots: u32,
    pub demos_inflicted: u32,
    pub demos_taken: u32,
}

impl Core {
    pub fn new() -> (r: Core)
        ensures
            !r.is_team_zero,
            r.score == 0,
            r.goals == 0,
            r.assists == 0,
            r.saves == 0,
            r.shots == 0,
            r.demos_inflicted == 0,
            r.demos_taken == 0,
    {
        Core {
            is_team_zero: false,
            score: 0,
            goals: 0,
            assists: 0,
            saves: 0,
            shots: 0,
            demos_inflicted: 0,
            demos_taken: 0,
        }
    }
}

/// What a player is, for contracts: identity, name, team and statistics.
pub struct PlayerView {
    pub name: Seq<char>,
    pub team: Team,
    pub id: PlayerId,
    pub stats: Seq<Stat>,
}

impl PlayerView {
    /// The player after one frame with snapshots `frames`, in which the
    /// detector reported `pickup` for it: every statistic takes the frame.
    pub open spec fn step(self, frames: Seq<(PlayerId, PlayerFrame)>, pickup: Option<BoostPadSize>) -> PlayerView {
        PlayerView {
            stats: self.stats.map_values(|s: Stat| s.step(frames, self.id, pickup)),
            ..self
        }
    }

    /// Every statistic is well formed with counters at most `n`.
    pub open spec fn stats_within(self, n: int) -> bool {
        forall|k: int| 0 <= k < self.stats.len() ==> (#[trigger] self.stats[k]).wf() && self.stats[k].bounded_by(n)
    }
}

/// The statistics a player starts with: boost, location and movement, all zero.
pub open spec fn initial_stats() -> Seq<Stat> {
    seq![
        Stat::Boost(Boost::initial()),
        Stat::Location(Location::initial()),
        Stat::Movement(Movement::initial()),
    ]
}

/// A player of the replay and the statistics it owns.
pub struct Player {
    pub name: String,
    pub team: Team,
    pub id: PlayerId,
    pub stats: Vec<Stat>,
}

impl View for Player {
    type V = PlayerView;

    open spec fn view(&self) -> PlayerView {
        PlayerView { name: self.name@, team: self.team, id: self.id, stats: self.stats@ }
    }
}

impl Player {
    /// A player as the frame source describes it, with zeroed statistics.
    pub fn new_from_processor(id: PlayerId, name: String, is_team_0: bool) -> (r: Player)
        ensures
            r@ == (PlayerView {
                name: name@,
                team: if is_team_0 { Team::Zero } else { Team::One },
                id,
                stats: initial_stats(),
            }),
    {
        let mut stats: Vec<Stat> = Vec::new();
        stats.push(Stat::Boost(Boost::new()));
        stats.push(Stat::Location(Location::new()));
        stats.push(Stat::Movement(Movement::new()));
        assert(stats@ =~= initial_stats());
        Player { name, team: Team::from_is_team_0(is_team_0), id, stats }
    }

    /// Hands one frame to every statistic of the player.
    pub fn update_stats(&mut self, frames: &PlayerFrameData, pickup: Option<BoostPadSize>)
        requires
            old(self)@.stats_within(u32::MAX - 1),
        ensures
            final(self)@ == old(self)@.step(frames@, pickup),
            forall|k: int| 0 <= k < final(self)@.stats.len() ==> (#[trigger] final(self)@.stats[k]).wf(),
    {
        let mut i: usize = 0;
        while i < self.stats.len()
            invariant
                i <= self.stats@.len(),
                self.stats@.len() == old(self).stats@.len(),
                self.name == old(self).name,
                self.team == old(self).team,
                self.id == old(self).id,
                old(self)@.stats_within(u32::MAX - 1),
                forall|k: int| 0 <= k < i ==> #[trigger] self.stats@[k] == old(self).stats@[k].step(frames@, self.id, pickup),
                forall|k: int| 0 <= k < i ==> (#[trigger] self.stats@[k]).wf(),
                forall|k: int| i <= k < self.stats@.len() ==> #[trigger] self.stats@[k] == old(self).stats@[k],
            decreases self.stats@.len() - i,
        {
            let mut s = self.stats[i];
            assert(s == old(self)@.stats[i as int]);
            s.update(frames, &self.id, pickup);
            self.stats.set(i, s);
            i = i + 1;
        }
        assert(self@.stats =~= old(self)@.step(frames@, pickup).stats);
    }
}

/// The players of a replay, in the frame source's stable order.
pub struct PlayerData {
    pub players: Vec<Player>,
}

impl View for PlayerData {
    type V = Seq<PlayerView>;

    open spec fn view(&self) -> Seq<PlayerView> {
        self.players@.map_values(|p: Player| p@)
    }
}

impl PlayerData {
    pub fn new() -> (r: PlayerData)
        ensures
            r@ == Seq::<PlayerView>::empty(),
    {
        PlayerData { players: Vec::new() }
    }

    pub fn add_player(&mut self, player: Player)
        ensures
            final(self)@ == old(self)@.push(player@),
    {
        self.players.push(player);
        assert(self@ =~= old(self)@.push(player@));
    }

    /// The players, in order.
    pub fn get_player_data(self) -> (r: Vec<Player>)
        ensures
            r@.map_values(|p: Player| p@) == self@,
    {
        self.players
    }
}

} // verus!
