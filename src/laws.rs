use vstd::prelude::*;

use crate::movement::{axis, pan_frames, step_x, step_y, PanKeys, DIAGONAL_STEP, SPEED};
use crate::pointer::{after_drag_end, is_item_at};
use crate::world::{
    after_loading_enter, count_kind, game_load_entered, lemma_count_concat, lemma_count_push,
    lemma_count_uniform, table_background, Entity, Kind, Position, WorldView, ITEM_AMOUNT,
};

verus! {

/// Entering the Loading phase on a world without a camera leaves exactly one camera, and both
/// the atlas layout and the sprite sheet set.
pub proof fn loading_enter_spawns_one_camera(before: WorldView)
    requires
        count_kind(before.entities, Kind::Camera) == 0,
    ensures
        count_kind(after_loading_enter(before).entities, Kind::Camera) == 1,
        after_loading_enter(before).atlas_layout is Some,
        after_loading_enter(before).sprite_sheet is Some,
{
    lemma_count_push(before.entities, Entity::Camera(Position { x: 0, y: 0, z: 0 }), Kind::Camera);
}

/// Entering the GameLoad phase on a world without background or items leaves exactly one
/// background and exactly `ITEM_AMOUNT + 1` items.
pub proof fn game_load_enter_spawns_table(before: WorldView, after: WorldView)
    requires
        count_kind(before.entities, Kind::Background) == 0,
        count_kind(before.entities, Kind::Item) == 0,
        game_load_entered(before, after),
    ensures
        count_kind(after.entities, Kind::Background) == 1,
        count_kind(after.entities, Kind::Item) == ITEM_AMOUNT + 1,
{
    let n = before.entities.len() + 1int;
    let head = after.entities.take(n as int);
    let tail = after.entities.skip(n as int);
    assert(after.entities =~= head + tail);
    let bg = Entity::Background(table_background());
    lemma_count_push(before.entities, bg, Kind::Background);
    lemma_count_push(before.entities, bg, Kind::Item);
    assert forall|i: int| 0 <= i < tail.len() implies (#[trigger] tail[i]).kind() == Kind::Item by {
        assert(tail[i] is Item);
    }
    lemma_count_uniform(tail, Kind::Item, Kind::Background);
    lemma_count_concat(head, tail, Kind::Background);
    lemma_count_concat(head, tail, Kind::Item);
}

/// Holding one pan key for `n` frames moves the camera by `n * SPEED` along that key's axis
/// and leaves the other axis alone, as long as the moving axis stays within the range of `i64`.
pub proof fn pan_single_key(p: Position, keys: PanKeys, n: nat)
    requires
        (keys.up as int) + (keys.down as int) + (keys.left as int) + (keys.right as int) == 1,
        keys.left || keys.right ==> i64::MIN <= p.x - n * SPEED && p.x + n * SPEED <= i64::MAX,
        keys.down || keys.up ==> i64::MIN <= p.y - n * SPEED && p.y + n * SPEED <= i64::MAX,
    ensures
        pan_frames(p, keys, n) == (Position {
            x: (p.x + n * SPEED * axis(keys.left, keys.right)) as i64,
            y: (p.y + n * SPEED * axis(keys.down, keys.up)) as i64,
            z: p.z,
        }),
    decreases n,
{
    let ax = axis(keys.left, keys.right);
    let ay = axis(keys.down, keys.up);
    assert(step_x(keys) == SPEED * ax && step_y(keys) == SPEED * ay);
    assert(ax == 0 ==> n * SPEED * ax == 0) by (nonlinear_arith);
    assert(ay == 0 ==> n * SPEED * ay == 0) by (nonlinear_arith);
    if n > 0 {
        let m = (n - 1) as nat;
        assert(m * SPEED <= n * SPEED) by (nonlinear_arith)
            requires
                m + 1 == n,
        ;
        pan_single_key(p, keys, m);
        assert(m * SPEED * ax + SPEED * ax == n * SPEED * ax) by (nonlinear_arith)
            requires
                m + 1 == n,
        ;
        assert(m * SPEED * ay + SPEED * ay == n * SPEED * ay) by (nonlinear_arith)
            requires
                m + 1 == n,
        ;
        assert(-(n * SPEED) <= n * SPEED * ax <= n * SPEED) by (nonlinear_arith)
            requires
                -1 <= ax <= 1,
                0 <= n,
        ;
        assert(-(n * SPEED) <= n * SPEED * ay <= n * SPEED) by (nonlinear_arith)
            requires
                -1 <= ay <= 1,
                0 <= n,
        ;
    }
}

/// A frame with both axes held steps by a vector whose length is `SPEED` to within a
/// millionth of a world unit (the fixed-point scale), not `SPEED` times the square root of two;
/// its components are the largest that do not exceed `SPEED`.
pub proof fn pan_diagonal_length(keys: PanKeys)
    requires
        axis(keys.left, keys.right) != 0,
        axis(keys.down, keys.up) != 0,
    ensures
        (SPEED - 1) * (SPEED - 1) < step_x(keys) * step_x(keys) + step_y(keys) * step_y(keys)
            <= SPEED * SPEED,
        SPEED * SPEED < 2 * (DIAGONAL_STEP + 1) * (DIAGONAL_STEP + 1),
{
    assert(step_x(keys) == DIAGONAL_STEP || step_x(keys) == -DIAGONAL_STEP);
    assert(step_y(keys) == DIAGONAL_STEP || step_y(keys) == -DIAGONAL_STEP);
}

/// Ending a drag puts the item back at depth zero, whatever depth it had before, and keeps
/// where it was on the table.
pub proof fn drag_end_resets_depth(w: WorldView, target: int)
    requires
        is_item_at(w.entities, target),
    ensures
        is_item_at(after_drag_end(w, target).entities, target),
        after_drag_end(w, target).entities[target]->Item_0.position.z == 0,
        after_drag_end(w, target).entities[target]->Item_0.position.x
            == w.entities[target]->Item_0.position.x,
        after_drag_end(w, target).entities[target]->Item_0.position.y
            == w.entities[target]->Item_0.position.y,
{
}

} // verus!
