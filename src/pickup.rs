//! The boost pad catalogue and the pickup detector: a spatial state machine
//! that turns continuous car positions into discrete pickup events and keeps
//! each picked pad disabled for the cooldown.
use crate::constants::{
    BOOST_COOLDOWN, LARGE_BOOST_HEIGHT, LARGE_BOOST_RADIUS, SMALL_BOOST_HEIGHT,
    SMALL_BOOST_RADIUS,
};
use crate::rigid_body::{RigidBody, Vector3};
use vstd::prelude::*;

verus! {

/// Center of a boost pad on the field floor (hundredths of a unit).
#[derive(Clone, Copy, Debug, PartialEq, Eq, Structural)]
pub struct BoostPad {
    pub x: i32,
    pub y: i32,
}

impl BoostPad {
    pub fn new(x: i32, y: i32) -> (r: BoostPad)
        ensures
            r == (BoostPad { x, y }),
    {
        BoostPad { x, y }
    }
}

/// Size class of a boost pad; a pickup event is tagged with it.
#[derive(Clone, Copy, Debug, PartialEq, Eq, Structural)]
pub enum BoostPadSize {
    Small,
    Large,
}

/// The small pads, in declared order.
pub open spec fn small_pad_catalogue() -> Seq<BoostPad> {
    seq![
        BoostPad { x: 0, y: -424000i32 },
        BoostPad { x: -179200i32, y: -418400i32 },
        BoostPad { x: 179200, y: -418400i32 },
        BoostPad { x: -94000i32, y: -330807i32 },
        BoostPad { x: 94000, y: -330800i32 },
        BoostPad { x: 0, y: -281600i32 },
        BoostPad { x: -358400i32, y: -248400i32 },
        BoostPad { x: 358400, y: -248400i32 },
        BoostPad { x: -178800i32, y: -230000i32 },
        BoostPad { x: 178800, y: -230000i32 },
        BoostPad { x: -204800i32, y: -103600i32 },
        BoostPad { x: 0, y: -102400i32 },
        BoostPad { x: 204800, y: -103600i32 },
        BoostPad { x: -102400i32, y: 0 },
        BoostPad { x: 102400, y: 0 },
        BoostPad { x: -204800i32, y: 103600 },
        BoostPad { x: 0, y: 102400 },
        BoostPad { x: 204800, y: 103600 },
        BoostPad { x: -178800i32, y: 230000 },
        BoostPad { x: 178800, y: 230000 },
        BoostPad { x: -358400i32, y: 248400 },
        BoostPad { x: 358400, y: 248400 },
        BoostPad { x: 0, y: 281600 },
        BoostPad { x: -94000i32, y: 331000 },
        BoostPad { x: 94000, y: 330800 },
        BoostPad { x: -179200i32, y: 418400 },
        BoostPad { x: 179200, y: 418400 },
        BoostPad { x: 0, y: 424000 },
    ]
}

/// The large pads, in declared order.
pub open spec fn large_pad_catalogue() -> Seq<BoostPad> {
    seq![
        BoostPad { x: 308200, y: 409800 },
        BoostPad { x: 307200, y: -409600i32 },
        BoostPad { x: -307200i32, y: -409600i32 },
        BoostPad { x: 358400, y: 0 },
        BoostPad { x: -358400i32, y: 0 },
        BoostPad { x: 307200, y: 409600 },
        BoostPad { x: -307200i32, y: 409600 },
    ]
}

/// The small pads, in declared order.
pub fn small_boost_pads() -> (r: Vec<BoostPad>)
    ensures
        r@ == small_pad_catalogue(),
{
    let mut v: Vec<BoostPad> = Vec::new();
    v.push(BoostPad::new(0, -424000));
    v.push(BoostPad::new(-179200, -418400));
    v.push(BoostPad::new(179200, -418400));
    v.push(BoostPad::new(-94000, -330807));
    v.push(BoostPad::new(94000, -330800));
    v.push(BoostPad::new(0, -281600));
    v.push(BoostPad::new(-358400, -248400));
    v.push(BoostPad::new(358400, -248400));
    v.push(BoostPad::new(-178800, -230000));
    v.push(BoostPad::new(178800, -230000));
    v.push(BoostPad::new(-204800, -103600));
    v.push(BoostPad::new(0, -102400));
    v.push(BoostPad::new(204800, -103600));
    v.push(BoostPad::new(-102400, 0));
    v.push(BoostPad::new(102400, 0));
    v.push(BoostPad::new(-204800, 103600));
    v.push(BoostPad::new(0, 102400));
    v.push(BoostPad::new(204800, 103600));
    v.push(BoostPad::new(-178800, 230000));
    v.push(BoostPad::new(178800, 230000));
    v.push(BoostPad::new(-358400, 248400));
    v.push(BoostPad::new(358400, 248400));
    v.push(BoostPad::new(0, 281600));
    v.push(BoostPad::new(-94000, 331000));
    v.push(BoostPad::new(94000, 330800));
    v.push(BoostPad::new(-179200, 418400));
    v.push(BoostPad::new(179200, 418400));
    v.push(BoostPad::new(0, 424000));
    assert(v@ =~= small_pad_catalogue());
    v
}

/// The large pads, in declared order.
pub fn large_boost_pads() -> (r: Vec<BoostPad>)
    ensures
        r@ == large_pad_catalogue(),
{
    let mut v: Vec<BoostPad> = Vec::new();
    v.push(BoostPad::new(308200, 409800));
    v.push(BoostPad::new(307200, -409600));
    v.push(BoostPad::new(-307200, -409600));
    v.push(BoostPad::new(358400, 0));
    v.push(BoostPad::new(-358400, 0));
    v.push(BoostPad::new(307200, 409600));
    v.push(BoostPad::new(-307200, 409600));
    assert(v@ =~= large_pad_catalogue());
    v
}

/// The position lies in the pad's collision box: x and y each within
/// `radius` of the center (bounds included) and z at most `height`.
pub open spec fn pad_covers(pad: BoostPad, radius: int, height: int, p: Vector3) -> bool {
    &&& pad.x - radius <= p.x <= pad.x + radius
    &&& pad.y - radius <= p.y <= pad.y + radius
    &&& p.z <= height
}

/// Index of the first pad at or after `i`, in declared order, whose box holds `p`.
pub open spec fn first_cover_from(
    pads: Seq<BoostPad>,
    radius: int,
    height: int,
    p: Vector3,
    i: nat,
) -> Option<nat>
    decreases pads.len() - i,
{
    if i >= pads.len() {
        None
    } else if pad_covers(pads[i as int], radius, height, p) {
        Some(i)
    } else {
        first_cover_from(pads, radius, height, p, i + 1)
    }
}

/// A pad found by `first_cover_from` lies between the start and the end.
pub proof fn lemma_first_cover_in_range(
    pads: Seq<BoostPad>,
    radius: int,
    height: int,
    p: Vector3,
    i: nat,
)
    ensures
        first_cover_from(pads, radius, height, p, i) matches Some(k) ==> i <= k < pads.len(),
    decreases pads.len() - i,
{
    if i < pads.len() && !pad_covers(pads[i as int], radius, height, p) {
        lemma_first_cover_in_range(pads, radius, height, p, i + 1);
    }
}

/// When the pad at `i` holds `p`, the search from `start` finds a pad no later than `i`.
pub proof fn lemma_first_cover_found(
    pads: Seq<BoostPad>,
    radius: int,
    height: int,
    p: Vector3,
    start: nat,
    i: nat,
)
    requires
        start <= i < pads.len(),
        pad_covers(pads[i as int], radius, height, p),
    ensures
        first_cover_from(pads, radius, height, p, start) matches Some(k) && k <= i,
    decreases i - start,
{
    if !pad_covers(pads[start as int], radius, height, p) {
        lemma_first_cover_found(pads, radius, height, p, start + 1, i);
    }
}

/// The small pad that a car at `p` touches first, in declared order.
pub open spec fn small_pad_hit(p: Vector3) -> Option<nat> {
    first_cover_from(small_pad_catalogue(), SMALL_BOOST_RADIUS as int, SMALL_BOOST_HEIGHT as int, p, 0)
}

/// The large pad that a car at `p` touches first, in declared order.
pub open spec fn large_pad_hit(p: Vector3) -> Option<nat> {
    first_cover_from(large_pad_catalogue(), LARGE_BOOST_RADIUS as int, LARGE_BOOST_HEIGHT as int, p, 0)
}

/// The detector's state: for each pad, the replay time it was picked up at
/// while it is disabled (absent while enabled), and the current replay time.
pub struct PickupState {
    pub small: Seq<Option<u64>>,
    pub large: Seq<Option<u64>>,
    pub time: u64,
}

impl PickupState {
    /// One entry per catalogued pad.
    pub open spec fn well_sized(self) -> bool {
        &&& self.small.len() == small_pad_catalogue().len()
        &&& self.large.len() == large_pad_catalogue().len()
    }

    /// All pads enabled at replay time `time`.
    pub open spec fn initial(time: u64) -> PickupState {
        PickupState {
            small: Seq::new(small_pad_catalogue().len(), |i: int| None),
            large: Seq::new(large_pad_catalogue().len(), |i: int| None),
            time,
        }
    }
}

/// A car at `p` asks for a pickup: the first small pad whose box holds it,
/// else the first such large pad, is taken if enabled (and disabled at the
/// current time); if that pad is disabled, or no pad holds `p`, nothing happens.
pub open spec fn pickup_spec(s: PickupState, p: Vector3) -> (PickupState, Option<BoostPadSize>) {
    match small_pad_hit(p) {
        Some(i) => if s.small[i as int] is None {
            (PickupState { small: s.small.update(i as int, Some(s.time)), ..s }, Some(BoostPadSize::Small))
        } else {
            (s, None)
        },
        None => match large_pad_hit(p) {
            Some(j) => if s.large[j as int] is None {
                (PickupState { large: s.large.update(j as int, Some(s.time)), ..s }, Some(BoostPadSize::Large))
            } else {
                (s, None)
            },
            None => (s, None),
        },
    }
}

/// A disabled pad is enabled again once `now` is at least the cooldown past its pickup.
pub open spec fn reenable(since: Option<u64>, now: u64) -> Option<u64> {
    match since {
        Some(t) => if now - t >= BOOST_COOLDOWN { None } else { since },
        None => None,
    }
}

/// The cooldown sweep at replay time `now`.
pub open spec fn sweep_spec(s: PickupState, now: u64) -> PickupState {
    PickupState {
        small: s.small.map_values(|o: Option<u64>| reenable(o, now)),
        large: s.large.map_values(|o: Option<u64>| reenable(o, now)),
        time: s.time,
    }
}

/// The pickup detector. It owns the only state shared between players within a frame.
pub struct PickupHandler {
    small_boost_pads: Vec<BoostPad>,
    large_boost_pads: Vec<BoostPad>,
    small_disabled_since: Vec<Option<u64>>,
    large_disabled_since: Vec<Option<u64>>,
    current_time: u64,
}

impl View for PickupHandler {
    type V = PickupState;

    closed spec fn view(&self) -> PickupState {
        PickupState {
            small: self.small_disabled_since@,
            large: self.large_disabled_since@,
            time: self.current_time,
        }
    }
}

/// Index of the first pad of `pads`, in order, whose box holds `p`.
fn find_cover(pads: &Vec<BoostPad>, radius: i64, height: i64, p: &Vector3) -> (r: Option<usize>)
    requires
        0 <= radius <= i32::MAX,
    ensures
        match first_cover_from(pads@, radius as int, height as int, *p, 0) {
            Some(i) => r == Some(i as usize),
            None => r is None,
        },
        r matches Some(i) ==> i < pads@.len(),
{
    let mut i: usize = 0;
    while i < pads.len()
        invariant
            i <= pads@.len(),
            0 <= radius <= i32::MAX,
            first_cover_from(pads@, radius as int, height as int, *p, 0)
                == first_cover_from(pads@, radius as int, height as int, *p, i as nat),
        decreases pads@.len() - i,
    {
        let pad = pads[i];
        let x = p.x as i64;
        let y = p.y as i64;
        let z = p.z as i64;
        if pad.x as i64 - radius <= x && x <= pad.x as i64 + radius && pad.y as i64 - radius <= y
            && y <= pad.y as i64 + radius && z <= height {
            return Some(i);
        }
        i = i + 1;
    }
    None
}

impl PickupHandler {
    pub closed spec fn wf(&self) -> bool {
        &&& self.small_boost_pads@ == small_pad_catalogue()
        &&& self.large_boost_pads@ == large_pad_catalogue()
        &&& self@.well_sized()
    }

    /// A detector with every pad enabled, at replay time zero.
    pub fn new() -> (r: PickupHandler)
        ensures
            r.wf(),
            r@ == PickupState::initial(0),
    {
        let small_boost_pads = small_boost_pads();
        let large_boost_pads = large_boost_pads();
        let mut small_disabled_since: Vec<Option<u64>> = Vec::new();
        let mut large_disabled_since: Vec<Option<u64>> = Vec::new();
        let mut i: usize = 0;
        while i < small_boost_pads.len()
            invariant
                i <= small_boost_pads@.len(),
                small_disabled_since@ == Seq::new(i as nat, |k: int| None::<u64>),
            decreases small_boost_pads@.len() - i,
        {
            small_disabled_since.push(None);
            assert(small_disabled_since@ =~= Seq::new((i + 1) as nat, |k: int| None::<u64>));
            i = i + 1;
        }
        let mut j: usize = 0;
        while j < large_boost_pads.len()
            invariant
                j <= large_boost_pads@.len(),
                large_disabled_since@ == Seq::new(j as nat, |k: int| None::<u64>),
            decreases large_boost_pads@.len() - j,
        {
            large_disabled_since.push(None);
            assert(large_disabled_since@ =~= Seq::new((j + 1) as nat, |k: int| None::<u64>));
            j = j + 1;
        }
        let r = PickupHandler {
            small_boost_pads,
            large_boost_pads,
            small_disabled_since,
            large_disabled_since,
            current_time: 0,
        };
        assert(r@.small =~= PickupState::initial(0).small);
        assert(r@.large =~= PickupState::initial(0).large);
        r
    }

    /// Sets the replay time at which the following pickups happen.
    pub fn set_time(&mut self, time: u64)
        requires
            old(self).wf(),
        ensures
            final(self).wf(),
            final(self)@ == (PickupState { time, ..old(self)@ }),
    {
        self.current_time = time;
    }

    /// The first small pad, in declared order, whose box holds the body's location.
    pub fn check_small_pad_collision(&self, rb: &RigidBody) -> (r: Option<BoostPad>)
        requires
            self.wf(),
        ensures
            match small_pad_hit(rb.location) {
                Some(i) => r == Some(small_pad_catalogue()[i as int]),
                None => r is None,
            },
    {
        proof {
            lemma_first_cover_in_range(small_pad_catalogue(), SMALL_BOOST_RADIUS as int, SMALL_BOOST_HEIGHT as int, rb.location, 0);
        }
        match find_cover(&self.small_boost_pads, SMALL_BOOST_RADIUS, SMALL_BOOST_HEIGHT, &rb.location) {
            Some(i) => Some(self.small_boost_pads[i]),
            None => None,
        }
    }

    /// The first large pad, in declared order, whose box holds the body's location.
    pub fn check_large_pad_collision(&self, rb: &RigidBody) -> (r: Option<BoostPad>)
        requires
            self.wf(),
        ensures
            match large_pad_hit(rb.location) {
                Some(i) => r == Some(large_pad_catalogue()[i as int]),
                None => r is None,
            },
    {
        proof {
            lemma_first_cover_in_range(large_pad_catalogue(), LARGE_BOOST_RADIUS as int, LARGE_BOOST_HEIGHT as int, rb.location, 0);
        }
        match find_cover(&self.large_boost_pads, LARGE_BOOST_RADIUS, LARGE_BOOST_HEIGHT, &rb.location) {
            Some(i) => Some(self.large_boost_pads[i]),
            None => None,
        }
    }

    /// Asks for a pickup for a car with this rigid body at the current replay time.
    /// Small pads are tested before large ones, each kind in declared order.
    pub fn try_pickup(&mut self, rb: &RigidBody) -> (r: Option<BoostPadSize>)
        requires
            old(self).wf(),
        ensures
            final(self).wf(),
            (final(self)@, r) == pickup_spec(old(self)@, rb.location),
    {
        proof {
            lemma_first_cover_in_range(small_pad_catalogue(), SMALL_BOOST_RADIUS as int, SMALL_BOOST_HEIGHT as int, rb.location, 0);
            lemma_first_cover_in_range(large_pad_catalogue(), LARGE_BOOST_RADIUS as int, LARGE_BOOST_HEIGHT as int, rb.location, 0);
        }
        match find_cover(&self.small_boost_pads, SMALL_BOOST_RADIUS, SMALL_BOOST_HEIGHT, &rb.location) {
            Some(i) => {
                if self.small_disabled_since[i].is_none() {
                    self.small_disabled_since.set(i, Some(self.current_time));
                    assert(self@.small =~= old(self)@.small.update(i as int, Some(old(self)@.time)));
                    Some(BoostPadSize::Small)
                } else {
                    None
                }
            },
            None => {
                match find_cover(&self.large_boost_pads, LARGE_BOOST_RADIUS, LARGE_BOOST_HEIGHT, &rb.location) {
                    Some(j) => {
                        if self.large_disabled_since[j].is_none() {
                            self.large_disabled_since.set(j, Some(self.current_time));
                            assert(self@.large =~= old(self)@.large.update(j as int, Some(old(self)@.time)));
                            Some(BoostPadSize::Large)
                        } else {
                            None
                        }
                    },
                    None => None,
                }
            },
        }
    }

    /// The cooldown sweep: enables again every pad picked up at least the
    /// cooldown before `current_time`.
    pub fn update(&mut self, current_time: u64)
        requires
            old(self).wf(),
        ensures
            final(self).wf(),
            final(self)@ == sweep_spec(old(self)@, current_time),
    {
        let ghost s0 = self@;
        let mut i: usize = 0;
        while i < self.small_disabled_since.len()
            invariant
                self.wf(),
                i <= self@.small.len(),
                self@.large == s0.large,
                self@.time == s0.time,
                self@.small.len() == s0.small.len(),
                forall|k: int| 0 <= k < i ==> self@.small[k] == reenable(s0.small[k], current_time),
                forall|k: int| i <= k < self@.small.len() ==> self@.small[k] == s0.small[k],
            decreases self@.small.len() - i,
        {
            let since = self.small_disabled_since[i];
            self.small_disabled_since.set(i, sweep_entry(since, current_time));
            i = i + 1;
        }
        let mut j: usize = 0;
        while j < self.large_disabled_since.len()
            invariant
                self.wf(),
                j <= self@.large.len(),
                self@.small == sweep_spec(s0, current_time).small,
                self@.time == s0.time,
                self@.large.len() == s0.large.len(),
                forall|k: int| 0 <= k < j ==> self@.large[k] == reenable(s0.large[k], current_time),
                forall|k: int| j <= k < self@.large.len() ==> self@.large[k] == s0.large[k],
            decreases self@.large.len() - j,
        {
            let since = self.large_disabled_since[j];
            self.large_disabled_since.set(j, sweep_entry(since, current_time));
            j = j + 1;
        }
        assert(self@.small =~= sweep_spec(s0, current_time).small);
        assert(self@.large =~= sweep_spec(s0, current_time).large);
    }
}

fn sweep_entry(since: Option<u64>, now: u64) -> (r: Option<u64>)
    ensures
        r == reenable(since, now),
{
    match since {
        Some(t) => if now >= t && now - t >= BOOST_COOLDOWN { None } else { since },
        None => None,
    }
}

/// A car resting on a small pad's center collects a small pickup whenever
/// every small pad is enabled, even where that spot also lies in a large
/// pad's box: small pads are tested first.
pub proof fn lemma_small_pad_center_picks_small(s: PickupState, i: int)
    requires
        s.well_sized(),
        0 <= i < small_pad_catalogue().len(),
        forall|k: int| 0 <= k < s.small.len() ==> s.small[k] is None,
    ensures
        pickup_spec(
            s,
            Vector3 { x: small_pad_catalogue()[i].x, y: small_pad_catalogue()[i].y, z: 0 },
        ).1 == Some(BoostPadSize::Small),
{
    let p = Vector3 { x: small_pad_catalogue()[i].x, y: small_pad_catalogue()[i].y, z: 0 };
    lemma_first_cover_found(
        small_pad_catalogue(),
        SMALL_BOOST_RADIUS as int,
        SMALL_BOOST_HEIGHT as int,
        p,
        0,
        i as nat,
    );
}

/// No pad's box holds the field's center point, so a car there collects
/// nothing and the detector's state stays as it was.
pub proof fn lemma_origin_picks_nothing(s: PickupState)
    ensures
        pickup_spec(s, Vector3 { x: 0, y: 0, z: 0 }) == (s, None::<BoostPadSize>),
{
    reveal_with_fuel(first_cover_from, 30);
}

/// A pad picked up at time `t` stays disabled through a sweep at any time
/// less than the cooldown after `t`, and the same position then collects
/// nothing; after a sweep at least the cooldown after `t`, the same position
/// collects the same pad again.
pub proof fn lemma_pickup_cooldown(s: PickupState, p: Vector3, later: u64)
    requires
        s.well_sized(),
        pickup_spec(s, p).1 is Some,
    ensures
        ({
            let again = PickupState { time: later, ..sweep_spec(pickup_spec(s, p).0, later) };
            &&& later - s.time < BOOST_COOLDOWN ==> pickup_spec(again, p).1 is None
            &&& later - s.time >= BOOST_COOLDOWN ==> pickup_spec(again, p).1 == pickup_spec(s, p).1
        }),
{
    lemma_first_cover_in_range(small_pad_catalogue(), SMALL_BOOST_RADIUS as int, SMALL_BOOST_HEIGHT as int, p, 0);
    lemma_first_cover_in_range(large_pad_catalogue(), LARGE_BOOST_RADIUS as int, LARGE_BOOST_HEIGHT as int, p, 0);
}

} // verus!
