use vstd::prelude::*;

use crate::world::{count_kind, Entity, GameState, Kind, Position, World, WorldView};

verus! {

/// Camera speed per frame along one axis, in millionths of a world unit.
pub const SPEED: i64 = 6000000;

/// Each component of a diagonal step: the largest `d` with `2 * d * d <= SPEED * SPEED`,
/// so the step keeps the length `SPEED` up to the fixed-point scale.
pub const DIAGONAL_STEP: i64 = 4242640;

/// Which of the four pan keys (W, S, A, D) are held this frame.
#[derive(Clone, Copy, Debug, PartialEq, Eq, Structural)]
pub struct PanKeys {
    pub up: bool,
    pub down: bool,
    pub left: bool,
    pub right: bool,
}

/// Sum of the unit contributions of two opposite keys: -1, 0 or 1.
pub open spec fn axis(negative: bool, positive: bool) -> int {
    (if positive { 1int } else { 0int }) - (if negative { 1int } else { 0int })
}

/// The length of one axis of the frame's step: the full speed alone, the diagonal share when
/// both axes move.
pub open spec fn step_scale(keys: PanKeys) -> int {
    if axis(keys.left, keys.right) != 0 && axis(keys.down, keys.up) != 0 {
        DIAGONAL_STEP as int
    } else {
        SPEED as int
    }
}

/// `scale` with the sign of `direction`, or zero.
pub open spec fn signed(direction: int, scale: int) -> int {
    if direction > 0 {
        scale
    } else if direction < 0 {
        -scale
    } else {
        0
    }
}

pub open spec fn step_x(keys: PanKeys) -> int {
    signed(axis(keys.left, keys.right), step_scale(keys))
}

pub open spec fn step_y(keys: PanKeys) -> int {
    signed(axis(keys.down, keys.up), step_scale(keys))
}

/// `v` held to the range of `i64`.
pub open spec fn clamp_i64(v: int) -> i64 {
    if v > i64::MAX {
        i64::MAX
    } else if v < i64::MIN {
        i64::MIN
    } else {
        v as i64
    }
}

/// Where one frame of panning takes the camera.
pub open spec fn advance(p: Position, keys: PanKeys) -> Position {
    Position { x: clamp_i64(p.x + step_x(keys)), y: clamp_i64(p.y + step_y(keys)), z: p.z }
}

/// Where `n` frames of holding the same keys take the camera.
pub open spec fn pan_frames(p: Position, keys: PanKeys, n: nat) -> Position
    decreases n,
{
    if n == 0 {
        p
    } else {
        advance(pan_frames(p, keys, (n - 1) as nat), keys)
    }
}

/// An entity after one frame of panning, where the world holds exactly one camera.
pub open spec fn panned(e: Entity, keys: PanKeys) -> Entity {
    match e {
        Entity::Camera(p) => Entity::Camera(advance(p, keys)),
        _ => e,
    }
}

/// The world after one frame: in InGame with exactly one camera, that camera is panned;
/// otherwise nothing changes.
pub open spec fn after_pan(w: WorldView, keys: PanKeys) -> WorldView {
    if w.state == GameState::InGame && count_kind(w.entities, Kind::Camera) == 1 {
        WorldView { entities: w.entities.map_values(|e: Entity| panned(e, keys)), ..w }
    } else {
        w
    }
}

/// `a + b`, held to the range of `i64`.
pub fn saturating_add_i64(a: i64, b: i64) -> (r: i64)
    ensures
        r == clamp_i64(a + b),
{
    if b > 0 && a > i64::MAX - b {
        i64::MAX
    } else if b < 0 && a < i64::MIN - b {
        i64::MIN
    } else {
        a + b
    }
}

/// The unit contribution of two opposite keys.
fn axis_of(negative: bool, positive: bool) -> (r: i64)
    ensures
        r == axis(negative, positive),
{
    let mut v: i64 = 0;
    if positive {
        v += 1;
    }
    if negative {
        v -= 1;
    }
    v
}

/// The frame's step, `(x, y)`: the held direction scaled to length `SPEED`, or zero.
pub fn pan_step(keys: PanKeys) -> (r: (i64, i64))
    ensures
        r.0 == step_x(keys),
        r.1 == step_y(keys),
{
    let dx = axis_of(keys.left, keys.right);
    let dy = axis_of(keys.down, keys.up);
    let scale = if dx != 0 && dy != 0 {
        DIAGONAL_STEP
    } else {
        SPEED
    };
    (dx * scale, dy * scale)
}

impl World {
    /// How many cameras the world holds, counted up to two.
    fn camera_count_up_to_two(&self) -> (r: usize)
        ensures
            r == if count_kind(self@.entities, Kind::Camera) < 2 {
                count_kind(self@.entities, Kind::Camera)
            } else {
                2
            },
    {
        let mut found: usize = 0;
        let mut i: usize = 0;
        while i < self.entities.len()
            invariant
                i <= self.entities.len(),
                found == if count_kind(self@.entities.take(i as int), Kind::Camera) < 2 {
                    count_kind(self@.entities.take(i as int), Kind::Camera)
                } else {
                    2
                },
            decreases self.entities.len() - i,
        {
            assert(self@.entities.take(i + 1).drop_last() =~= self@.entities.take(i as int));
            if let Entity::Camera(_) = self.entities[i] {
                if found < 2 {
                    found += 1;
                }
            }
            i += 1;
        }
        assert(self@.entities.take(i as int) =~= self@.entities);
        found
    }

    /// One frame of panning: in InGame, the single camera moves by the step of the held keys.
    pub fn wasd_movement(&mut self, keys: PanKeys)
        ensures
            final(self)@ == after_pan(old(self)@, keys),
    {
        if self.state != GameState::InGame || self.camera_count_up_to_two() != 1 {
            return;
        }
        let (sx, sy) = pan_step(keys);
        let mut i: usize = 0;
        while i < self.entities.len()
            invariant
                i <= self.entities.len(),
                self.entities.len() == old(self).entities.len(),
                self.state == old(self).state,
                self.atlas_layout == old(self).atlas_layout,
                self.sprite_sheet == old(self).sprite_sheet,
                sx == step_x(keys),
                sy == step_y(keys),
                forall|j: int|
                    0 <= j < i ==> self@.entities[j] == panned(old(self)@.entities[j], keys),
                forall|j: int|
                    i <= j < self.entities.len() ==> self@.entities[j] == old(self)@.entities[j],
            decreases self.entities.len() - i,
        {
            if let Entity::Camera(p) = self.entities[i] {
                let moved = Position {
                    x: saturating_add_i64(p.x, sx),
                    y: saturating_add_i64(p.y, sy),
                    z: p.z,
                };
                assert(Entity::Camera(moved) == panned(old(self)@.entities[i as int], keys));
                self.entities.set(i, Entity::Camera(moved));
            }
            i += 1;
        }
        assert(self@.entities =~= old(self)@.entities.map_values(|e: Entity| panned(e, keys)));
    }
}

} // verus!
