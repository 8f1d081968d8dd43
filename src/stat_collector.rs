//! The orchestrator: registers the players once, then feeds every frame to
//! the pickup detector and to each player's statistics, in the players'
//! stable order, and finally returns the players with their statistics.
use crate::payload::{lookup, Payload, PlayerFrame, PlayerFrameData};
use crate::pickup::{pickup_spec, sweep_spec, BoostPadSize, PickupHandler, PickupState};
use crate::player::{initial_stats, Player, PlayerData, PlayerId, PlayerView, Team};
use crate::stats::lemma_step_bounded;
use vstd::prelude::*;

verus! {

/// What the detector reports for a player whose snapshot (if any) is `f`:
/// a player without a snapshot or without a rigid body asks for nothing.
pub open spec fn pickup_for(s: PickupState, f: Option<PlayerFrame>) -> (PickupState, Option<BoostPadSize>) {
    match f {
        Some(fr) => match fr.rigid_body {
            Some(rb) => pickup_spec(s, rb.location),
            None => (s, None),
        },
        None => (s, None),
    }
}

/// The detector queried once for each of `players`, in order, starting from
/// state `s`: the final state and the report for each player.
pub open spec fn detect_all(
    s: PickupState,
    players: Seq<PlayerView>,
    frames: Seq<(PlayerId, PlayerFrame)>,
) -> (PickupState, Seq<Option<BoostPadSize>>)
    decreases players.len(),
{
    if players.len() == 0 {
        (s, Seq::empty())
    } else {
        let (s1, reports) = detect_all(s, players.drop_last(), frames);
        let (s2, report) = pickup_for(s1, lookup(frames, players.last().id));
        (s2, reports.push(report))
    }
}

proof fn lemma_detect_all_len(s: PickupState, players: Seq<PlayerView>, frames: Seq<(PlayerId, PlayerFrame)>)
    ensures
        detect_all(s, players, frames).1.len() == players.len(),
    decreases players.len(),
{
    if players.len() > 0 {
        lemma_detect_all_len(s, players.drop_last(), frames);
    }
}

/// What the orchestrator holds, for contracts.
pub struct CollectorState {
    pub players: Seq<PlayerView>,
    pub pickups: PickupState,
}

/// One frame at replay time `time` with player snapshots `frames`: the
/// detector is queried for each player in order at that time, each player
/// takes the frame with its report, then the cooldown sweep runs.
pub open spec fn frame_step(c: CollectorState, frames: Seq<(PlayerId, PlayerFrame)>, time: u64) -> CollectorState {
    let (s, reports) = detect_all(PickupState { time, ..c.pickups }, c.players, frames);
    CollectorState {
        players: Seq::new(c.players.len(), |i: int| c.players[i].step(frames, reports[i])),
        pickups: sweep_spec(s, time),
    }
}

/// The frames of `frames`, each a replay time and its payload, in order.
pub open spec fn run(c: CollectorState, frames: Seq<(u64, Payload)>) -> CollectorState
    decreases frames.len(),
{
    if frames.len() == 0 {
        c
    } else {
        frame_step(run(c, frames.drop_last()), frames.last().1.player_view(), frames.last().0)
    }
}

/// Drives the statistics over a replay.
pub struct StatCollector {
    player_data: PlayerData,
    pickup_handler: PickupHandler,
    frames_processed: u32,
}

impl View for StatCollector {
    type V = CollectorState;

    closed spec fn view(&self) -> CollectorState {
        CollectorState { players: self.player_data@, pickups: self.pickup_handler@ }
    }
}

impl StatCollector {
    pub closed spec fn wf(&self) -> bool {
        &&& self.pickup_handler.wf()
        &&& forall|i: int|
            0 <= i < self.player_data@.len() ==> (#[trigger] self.player_data@[i]).stats_within(
                self.frames_processed as int,
            )
    }

    /// Number of frames processed so far.
    pub closed spec fn frame_count(&self) -> nat {
        self.frames_processed as nat
    }

    /// No players, no frames, every pad enabled.
    pub fn new() -> (r: StatCollector)
        ensures
            r.wf(),
            r@.players == Seq::<PlayerView>::empty(),
            r@.pickups == PickupState::initial(0),
            r.frame_count() == 0,
    {
        StatCollector {
            player_data: PlayerData::new(),
            pickup_handler: PickupHandler::new(),
            frames_processed: 0,
        }
    }

    /// Registers a player, with zeroed statistics, after those already registered.
    pub fn add_player(&mut self, id: PlayerId, name: String, is_team_0: bool)
        requires
            old(self).wf(),
        ensures
            final(self).wf(),
            final(self)@.players == old(self)@.players.push(
                PlayerView {
                    name: name@,
                    team: if is_team_0 { Team::Zero } else { Team::One },
                    id,
                    stats: initial_stats(),
                },
            ),
            final(self)@.pickups == old(self)@.pickups,
            final(self).frame_count() == old(self).frame_count(),
    {
        let player = Player::new_from_processor(id, name, is_team_0);
        self.player_data.add_player(player);
        proof {
            let n = self.frames_processed as int;
            assert forall|i: int| 0 <= i < self.player_data@.len() implies (
            #[trigger] self.player_data@[i]).stats_within(n) by {
                if i < old(self).player_data@.len() {
                    assert(self.player_data@[i] == old(self).player_data@[i]);
                } else {
                    assert(forall|k: int| 0 <= k < 3 ==> (#[trigger] initial_stats()[k]).bounded_by(n) && initial_stats()[k].wf());
                }
            }
        }
    }

    /// Processes one frame at replay time `current_time`: each player, in
    /// registration order, asks the detector for a pickup at the current
    /// time and hands its snapshot and report to its statistics; then the
    /// cooldown sweep runs.
    pub fn process_frame(&mut self, payload: &Payload, current_time: u64)
        requires
            old(self).wf(),
            old(self).frame_count() < u32::MAX,
        ensures
            final(self).wf(),
            final(self)@ == frame_step(old(self)@, payload.player_view(), current_time),
            final(self).frame_count() == old(self).frame_count() + 1,
    {
        let empty = PlayerFrameData::new();
        let frames: &PlayerFrameData = match payload.player_frames() {
            Some(d) => d,
            None => &empty,
        };
        assert(frames@ == payload.player_view());
        self.process_player_frames(frames, current_time);
    }

    fn process_player_frames(&mut self, frames: &PlayerFrameData, current_time: u64)
        requires
            old(self).wf(),
            old(self).frames_processed < u32::MAX,
        ensures
            final(self).wf(),
            final(self)@ == frame_step(old(self)@, frames@, current_time),
            final(self).frames_processed == old(self).frames_processed + 1,
    {
        let ghost c0 = self@;
        let ghost n = self.frames_processed as int;
        self.pickup_handler.set_time(current_time);
        let ghost s_init = self.pickup_handler@;
        let ghost mut reports: Seq<Option<BoostPadSize>> = Seq::empty();
        let mut i: usize = 0;
        while i < self.player_data.players.len()
            invariant
                self.pickup_handler.wf(),
                self.frames_processed == n,
                n < u32::MAX,
                s_init == (PickupState { time: current_time, ..c0.pickups }),
                i <= self.player_data@.len(),
                self.player_data@.len() == c0.players.len(),
                (self.pickup_handler@, reports) == detect_all(s_init, c0.players.take(i as int), frames@),
                reports.len() == i,
                forall|j: int| 0 <= j < c0.players.len() ==> (#[trigger] c0.players[j]).stats_within(n),
                forall|j: int|
                    0 <= j < i ==> #[trigger] self.player_data@[j] == c0.players[j].step(
                        frames@,
                        reports[j],
                    ),
                forall|j: int| 0 <= j < i ==> (#[trigger] self.player_data@[j]).stats_within(n + 1),
                forall|j: int| i <= j < c0.players.len() ==> #[trigger] self.player_data@[j] == c0.players[j],
            decreases c0.players.len() - i,
        {
            let id = self.player_data.players[i].id;
            let pickup = match frames.get(&id) {
                Some(f) => match f.rigid_body {
                    Some(rb) => self.pickup_handler.try_pickup(&rb),
                    None => None,
                },
                None => None,
            };
            proof {
                assert(c0.players.take(i as int + 1).drop_last() =~= c0.players.take(i as int));
                assert(c0.players.take(i as int + 1).last() == c0.players[i as int]);
                lemma_detect_all_len(s_init, c0.players.take(i as int), frames@);
                reports = reports.push(pickup);
            }
            let ghost before = self.player_data@[i as int];
            let ghost data_before = self.player_data@;
            assert(before.stats_within(u32::MAX - 1));
            self.player_data.players[i].update_stats(frames, pickup);
            proof {
                assert forall|j: int| 0 <= j < self.player_data@.len() && j != i implies #[trigger] self.player_data@[j]
                    == data_before[j] by {}
                let after = self.player_data@[i as int];
                assert(after == before.step(frames@, pickup));
                assert forall|k: int| 0 <= k < after.stats.len() implies (
                #[trigger] after.stats[k]).wf() && after.stats[k].bounded_by(n + 1) by {
                    lemma_step_bounded(before.stats[k], frames@, id, pickup, n);
                }
            }
            i = i + 1;
        }
        self.pickup_handler.update(current_time);
        self.frames_processed = self.frames_processed + 1;
        proof {
            assert(c0.players.take(c0.players.len() as int) =~= c0.players);
            assert(self@.players =~= frame_step(c0, frames@, current_time).players);
        }
    }

    /// Processes the frames in order, each a replay time and its payload,
    /// and returns the players with their statistics.
    pub fn analyze(self, frames: &Vec<(u64, Payload)>) -> (r: PlayerData)
        requires
            self.wf(),
            self.frame_count() + frames@.len() <= u32::MAX,
        ensures
            r@ == run(self@, frames@).players,
    {
        let ghost c0 = self@;
        let mut collector = self;
        let mut i: usize = 0;
        while i < frames.len()
            invariant
                collector.wf(),
                i <= frames@.len(),
                collector.frame_count() + frames@.len() - i <= u32::MAX,
                collector@ == run(c0, frames@.take(i as int)),
            decreases frames@.len() - i,
        {
            assert(frames@.take(i as int + 1).drop_last() =~= frames@.take(i as int));
            collector.process_frame(&frames[i].1, frames[i].0);
            i = i + 1;
        }
        assert(frames@.take(frames@.len() as int) =~= frames@);
        collector.player_data
    }
}

} // verus!
