//! Moving platforms: a platform shuttles back and forth along the points of its path.

use vstd::prelude::*;

verus! {

/// The way a platform travels along its path.
#[derive(Clone, Copy, Debug, PartialEq, Eq, Structural)]
pub enum PlatformDirection {
    Forward,
    Backward,
}

impl Default for PlatformDirection {
    fn default() -> (d: Self)
        ensures
            d == PlatformDirection::Forward,
    {
        PlatformDirection::Forward
    }
}

/// Where a platform is on its path: the point it heads for, the way it
/// travels, and whether it moves at all.
#[derive(Clone, Copy, Debug, PartialEq, Eq, Structural)]
pub struct PlatformPathState {
    pub active: bool,
    pub index: usize,
    pub direction: PlatformDirection,
}

impl Default for PlatformPathState {
    /// A resting platform at the first point of its path, facing forward.
    fn default() -> (s: Self)
        ensures
            s == PlatformPathState::start(false),
    {
        PlatformPathState { active: false, index: 0, direction: PlatformDirection::Forward }
    }
}

impl PlatformPathState {
    /// The state at the first point of a path, facing forward.
    pub open spec fn start(active: bool) -> PlatformPathState {
        PlatformPathState { active, index: 0, direction: PlatformDirection::Forward }
    }

    /// A step from this state cannot overflow the index.
    pub open spec fn can_step(self) -> bool {
        self.direction == PlatformDirection::Forward ==> self.index < usize::MAX
    }

    /// The platform heads back down its path next: it is past the first
    /// point, and it either already travels backward or has reached the last
    /// of `len` points.
    pub open spec fn heads_back(self, len: int) -> bool {
        self.index != 0 && (self.direction == PlatformDirection::Backward || self.index + 1 >= len)
    }

    /// The state after one step along a path of `len` points: the platform
    /// moves one point back if it heads back, else one point forward.
    pub open spec fn next(self, len: int) -> PlatformPathState {
        if self.heads_back(len) {
            PlatformPathState {
                active: self.active,
                index: (self.index - 1) as usize,
                direction: PlatformDirection::Backward,
            }
        } else {
            PlatformPathState {
                active: self.active,
                index: (self.index + 1) as usize,
                direction: PlatformDirection::Forward,
            }
        }
    }

    /// Moves on to the next point of a path of `max` points, turning round
    /// at either end.
    pub fn go_to_next(&mut self, max: usize)
        requires
            old(self).can_step(),
        ensures
            *final(self) == old(self).next(max as int),
            final(self).active == old(self).active,
            old(self).index == 0 ==> final(self).index == 1 && final(self).direction
                == PlatformDirection::Forward,
            old(self).direction == PlatformDirection::Forward && old(self).index + 1 < max
                ==> final(self).index == old(self).index + 1 && final(self).direction
                == PlatformDirection::Forward,
            old(self).index > 0 && old(self).index + 1 >= max ==> final(self).index == old(
                self,
            ).index - 1 && final(self).direction == PlatformDirection::Backward,
            old(self).direction == PlatformDirection::Backward && old(self).index > 0
                ==> final(self).index == old(self).index - 1 && final(self).direction
                == PlatformDirection::Backward,
    {
        if self.direction == PlatformDirection::Forward && (self.index + 1) >= max {
            self.direction = PlatformDirection::Backward;
        }
        if self.direction == PlatformDirection::Backward && self.index == 0 {
            self.direction = PlatformDirection::Forward;
        }
        if self.direction == PlatformDirection::Forward {
            self.index += 1;
        } else {
            self.index -= 1;
        }
    }
}

/// What a platform does on a physics step, before it knows whether it has
/// reached its point.
#[derive(Clone, Copy, Debug, PartialEq, Eq, Structural)]
pub enum PlatformTarget {
    /// The platform is not active and does not move.
    Idle,
    /// The platform's index lies past the end of its path: it reports this
    /// and does not move.
    Missing,
    /// The platform heads for the point with this index.
    Point(usize),
}

/// Whether a platform waits for its bell to be struck before it moves.
#[derive(Clone, Copy, Debug, PartialEq, Eq, Structural)]
pub struct BellActivate(pub bool);

impl Default for BellActivate {
    fn default() -> (b: Self)
        ensures
            b == BellActivate(false),
    {
        BellActivate(false)
    }
}

impl PlatformPathState {
    /// What the platform heads for this step, on a path of `path_len` points.
    pub open spec fn target_spec(self, path_len: int) -> PlatformTarget {
        if !self.active {
            PlatformTarget::Idle
        } else if self.index < path_len {
            PlatformTarget::Point(self.index)
        } else {
            PlatformTarget::Missing
        }
    }

    /// The point this platform heads for on a path of `path_len` points.
    pub fn current_target(&self, path_len: usize) -> (t: PlatformTarget)
        ensures
            t == self.target_spec(path_len as int),
            !self.active ==> t == PlatformTarget::Idle,
            self.active && self.index < path_len ==> t == PlatformTarget::Point(self.index),
            self.active && self.index >= path_len ==> t == PlatformTarget::Missing,
            t is Missing ==> self.index >= path_len,
    {
        if !self.active {
            PlatformTarget::Idle
        } else if self.index < path_len {
            PlatformTarget::Point(self.index)
        } else {
            PlatformTarget::Missing
        }
    }

    /// The state after an update in which nothing struck the bell: a platform
    /// that does not wait for its bell starts moving.
    pub open spec fn after_update(self, bell: BellActivate) -> PlatformPathState {
        PlatformPathState { active: self.active || !bell.0, ..self }
    }

    /// The state after the platform's bell was struck: a platform that waits
    /// for its bell starts moving.
    pub open spec fn after_bell_hit(self, bell: BellActivate) -> PlatformPathState {
        PlatformPathState { active: self.active || bell.0, ..self }
    }

    /// Starts a platform that does not wait for its bell; leaves any other
    /// as it is.
    pub fn activate_path(&mut self, bell: BellActivate)
        ensures
            *final(self) == old(self).after_update(bell),
            final(self).active == (old(self).active || !bell.0),
            final(self).index == old(self).index,
            final(self).direction == old(self).direction,
    {
        if !self.active && !bell.0 {
            self.active = true;
        }
    }

    /// Reacts to a strike on the platform's bell: a platform that waits for
    /// its bell starts moving.
    pub fn respond_to_bell(&mut self, bell: BellActivate)
        ensures
            *final(self) == old(self).after_bell_hit(bell),
            final(self).active == (old(self).active || bell.0),
            final(self).index == old(self).index,
            final(self).direction == old(self).direction,
    {
        if bell.0 {
            self.active = true;
        }
    }
}

/// A platform is never stopped by activation, and activation does not move
/// it. One that waits for its bell stays put through updates until the bell
/// is struck; any other starts on the first update. After an update and a
/// bell strike, in either order, every platform moves.
pub proof fn lemma_activation(s: PlatformPathState, bell: BellActivate)
    ensures
        s.active ==> s.after_update(bell).active && s.after_bell_hit(bell).active,
        s.after_update(bell).index == s.index && s.after_update(bell).direction == s.direction,
        s.after_bell_hit(bell).index == s.index && s.after_bell_hit(bell).direction
            == s.direction,
        bell.0 ==> s.after_update(bell) == s,
        !bell.0 ==> s.after_update(bell).active && s.after_bell_hit(bell) == s,
        s.after_update(bell).after_bell_hit(bell).active,
        s.after_bell_hit(bell).after_update(bell).active,
{
}

/// What a platform heads for: an inactive platform never moves; an active
/// one heads for the point at its index whenever that index lies on its
/// path, whatever the path's length (a path of one point included), and
/// finds no point only when its index lies past the path's end.
pub proof fn lemma_target(s: PlatformPathState, path_len: int)
    requires
        path_len >= 0,
    ensures
        !s.active ==> s.target_spec(path_len) == PlatformTarget::Idle,
        s.active && s.index < path_len ==> s.target_spec(path_len) == PlatformTarget::Point(
            s.index,
        ),
        s.active && s.index >= path_len ==> s.target_spec(path_len) == PlatformTarget::Missing,
        s.target_spec(path_len) is Missing <==> (s.active && s.index >= path_len),
        s.target_spec(path_len) is Point ==> s.target_spec(path_len) == PlatformTarget::Point(
            s.index,
        ),
{
}

/// A path offset is the cell's place relative to the platform, with y
/// counted upward: the x offset is the cell's column minus the platform's,
/// and the y offset is the platform's row minus the cell's, in every column
/// (a cell above the platform in the level lies above it in the world).
/// Adding the x offset to the platform's column, and taking the y offset
/// from its row, gives the cell back.
pub proof fn lemma_cell_offset(platform: GridVec, cell: GridVec)
    ensures
        cell_offset(platform, cell).0 == cell.x - platform.x,
        cell_offset(platform, cell).1 == platform.y - cell.y,
        cell_offset(platform, cell).1 == -(cell.y - platform.y),
        platform.x + cell_offset(platform, cell).0 == cell.x,
        platform.y - cell_offset(platform, cell).1 == cell.y,
        cell.y < platform.y ==> cell_offset(platform, cell).1 > 0,
        cell.y > platform.y ==> cell_offset(platform, cell).1 < 0,
        cell == platform ==> cell_offset(platform, cell) == (0int, 0int),
{
}

/// A vector on the level's grid of cells.
#[derive(Clone, Copy, Debug, PartialEq, Eq, Structural)]
pub struct GridVec {
    pub x: i32,
    pub y: i32,
}

/// The offset, in cells, of `cell` from `platform`, with y turned to grow
/// upward: level cells count y downward, the world counts it upward.
pub open spec fn cell_offset(platform: GridVec, cell: GridVec) -> (int, int) {
    (cell.x - platform.x, -(cell.y - platform.y))
}

/// The offset of `cell` from `platform` can be computed in `i32` arithmetic.
pub open spec fn offset_fits(platform: GridVec, cell: GridVec) -> bool {
    &&& i32::MIN <= cell.x - platform.x <= i32::MAX
    &&& i32::MIN < cell.y - platform.y <= i32::MAX
}

/// The offsets of a platform's path, in cells, from the path's cells as
/// given in the level (`None` where the level gives the platform no path):
/// no offsets without a path, else the platform's own place first, followed
/// by the offset of each path cell in order.
pub fn path_offsets(platform: GridVec, points: Option<Vec<GridVec>>) -> (offsets: Vec<GridVec>)
    requires
        points matches Some(cells) ==> forall|i: int|
            0 <= i < cells.len() ==> offset_fits(platform, #[trigger] cells[i]),
    ensures
        points is None ==> offsets.len() == 0,
        points matches Some(cells) ==> {
            &&& offsets.len() == cells.len() + 1
            &&& offsets[0] == GridVec { x: 0, y: 0 }
            &&& forall|i: int|
                0 <= i < cells.len() ==> {
                    &&& offsets[i + 1].x == cells[i].x - platform.x
                    &&& offsets[i + 1].y == platform.y - cells[i].y
                }
            &&& forall|i: int|
                0 <= i < cells.len() ==> cell_offset(platform, #[trigger] cells[i]) == (
                offsets[i + 1].x as int,
                offsets[i + 1].y as int,
            )
        },
{
    match points {
        None => Vec::new(),
        Some(cells) => {
            let mut offsets: Vec<GridVec> = Vec::new();
            offsets.push(GridVec { x: 0, y: 0 });
            let mut i: usize = 0;
            while i < cells.len()
                invariant
                    i <= cells.len(),
                    offsets.len() == i + 1,
                    offsets[0] == (GridVec { x: 0, y: 0 }),
                    forall|j: int| 0 <= j < cells.len() ==> offset_fits(platform, #[trigger] cells[j]),
                    forall|j: int|
                        0 <= j < i ==> cell_offset(platform, #[trigger] cells[j]) == (
                        offsets[j + 1].x as int,
                        offsets[j + 1].y as int,
                    ),
                decreases cells.len() - i,
            {
                let cell = cells[i];
                assert(offset_fits(platform, cells[i as int]));
                let dx: i32 = cell.x - platform.x;
                let dy: i32 = cell.y - platform.y;
                offsets.push(GridVec { x: dx, y: -dy });
                i += 1;
            }
            offsets
        },
    }
}

/// The state after `k` steps along a path of `len` points.
pub open spec fn after_steps(s: PlatformPathState, len: int, k: nat) -> PlatformPathState
    decreases k,
{
    if k == 0 {
        s
    } else {
        after_steps(s, len, (k - 1) as nat).next(len)
    }
}

/// One full round trip along a path of `len` points takes this many steps.
pub open spec fn round_trip(len: int) -> int {
    2 * (len - 1)
}

/// The point reached after `k` steps from the first point of a path of `len`
/// points: up the path for `len - 1` steps, then back down, over and over.
pub open spec fn ping_pong_index(len: int, k: nat) -> int {
    let r = k as int % round_trip(len);
    if r < len {
        r
    } else {
        round_trip(len) - r
    }
}

/// The full state `k >= 1` steps after leaving the first point: where the
/// platform stands in its round trip, and the way it travels there.
spec fn ping_pong_state(active: bool, len: int, k: nat) -> PlatformPathState {
    let r = k as int % round_trip(len);
    if 1 <= r < len {
        PlatformPathState { active, index: r as usize, direction: PlatformDirection::Forward }
    } else if r == 0 {
        PlatformPathState { active, index: 0, direction: PlatformDirection::Backward }
    } else {
        PlatformPathState {
            active,
            index: (round_trip(len) - r) as usize,
            direction: PlatformDirection::Backward,
        }
    }
}

/// Where `k + 1` falls in the round trip, given where `k` falls.
proof fn lemma_round_trip_succ(len: int, k: nat)
    requires
        len >= 2,
    ensures
        k as int % round_trip(len) + 1 < round_trip(len) ==> (k + 1) as int % round_trip(len)
            == k as int % round_trip(len) + 1,
        k as int % round_trip(len) + 1 == round_trip(len) ==> (k + 1) as int % round_trip(len)
            == 0,
        0 <= k as int % round_trip(len) < round_trip(len),
{
    let p = round_trip(len);
    let q = k as int / p;
    let r = k as int % p;
    vstd::arithmetic::div_mod::lemma_fundamental_div_mod(k as int, p);
    vstd::arithmetic::div_mod::lemma_mod_bound(k as int, p);
    if r + 1 < p {
        vstd::arithmetic::div_mod::lemma_fundamental_div_mod_converse((k + 1) as int, p, q, r + 1);
    } else {
        assert((k + 1) as int == (q + 1) * p + 0) by (nonlinear_arith)
            requires
                k as int == p * q + r,
                r + 1 == p,
        ;
        vstd::arithmetic::div_mod::lemma_fundamental_div_mod_converse(
            (k + 1) as int,
            p,
            q + 1,
            0,
        );
    }
}

/// The state `k >= 1` steps after leaving the first point.
proof fn lemma_after_steps_from_start(s: PlatformPathState, len: usize, k: nat)
    requires
        len >= 2,
        s.index == 0,
        k >= 1,
    ensures
        after_steps(s, len as int, k) == ping_pong_state(s.active, len as int, k),
    decreases k,
{
    let l = len as int;
    let p = round_trip(l);
    if k == 1 {
        vstd::arithmetic::div_mod::lemma_small_mod(1, p as nat);
        assert(after_steps(s, l, 0) == s);
    } else {
        let k1 = (k - 1) as nat;
        lemma_after_steps_from_start(s, len, k1);
        lemma_round_trip_succ(l, k1);
        let prev = after_steps(s, l, k1);
        let r = k1 as int % p;
        assert(after_steps(s, l, k) == prev.next(l));
        if r == 0 {
            assert(k as int % p == 1);
        } else if r < l - 1 {
            assert(k as int % p == r + 1);
        } else if r == l - 1 {
            if l == 2 {
                assert(k as int % p == 0);
            } else {
                assert(k as int % p == r + 1);
            }
        } else if r + 1 < p {
            assert(k as int % p == r + 1);
        } else {
            assert(k as int % p == 0);
        }
    }
}

/// Starting from the first point of a path of at least two points, a
/// platform shuttles to the last point and back again, forever: after `k`
/// steps it stands at `ping_pong_index(len, k)`, whichever way it faced at
/// the start.
pub proof fn lemma_ping_pong(s: PlatformPathState, len: usize, k: nat)
    requires
        len >= 2,
        s.index == 0,
    ensures
        after_steps(s, len as int, k).index == ping_pong_index(len as int, k),
{
    if k == 0 {
        vstd::arithmetic::div_mod::lemma_small_mod(0, round_trip(len as int) as nat);
    } else {
        lemma_after_steps_from_start(s, len, k);
        lemma_round_trip_succ(len as int, k);
    }
}

/// On a path of at least two points, a platform that stands on a point of
/// the path still stands on one after a step, and it has moved by exactly
/// one point.
pub proof fn lemma_step_stays_on_path(s: PlatformPathState, len: usize)
    requires
        len >= 2,
        s.index < len,
    ensures
        s.can_step(),
        s.next(len as int).index < len,
        s.next(len as int).index == s.index + 1 || s.next(len as int).index == s.index - 1,
        s.next(len as int).active == s.active,
{
}

/// Steps never start or stop a platform.
proof fn lemma_steps_keep_active(s: PlatformPathState, len: int, k: nat)
    ensures
        after_steps(s, len, k).active == s.active,
    decreases k,
{
    if k > 0 {
        lemma_steps_keep_active(s, len, (k - 1) as nat);
    }
}

/// An active platform that starts at the first point of a path of at least
/// two points always finds a point to head for: after any number of steps
/// its target is the point `ping_pong_index(len, k)` of its path.
pub proof fn lemma_active_platform_stays_on_path(s: PlatformPathState, len: usize, k: nat)
    requires
        len >= 2,
        s.index == 0,
        s.active,
    ensures
        0 <= ping_pong_index(len as int, k) < len,
        after_steps(s, len as int, k).target_spec(len as int) == PlatformTarget::Point(
            ping_pong_index(len as int, k) as usize,
        ),
{
    lemma_ping_pong(s, len, k);
    lemma_steps_keep_active(s, len as int, k);
    vstd::arithmetic::div_mod::lemma_mod_bound(k as int, round_trip(len as int));
}

} // verus!
