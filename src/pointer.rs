use vstd::prelude::*;

use crate::world::{Entity, Position, TableItem, Tint, World, WorldView, DRAG_DEPTH};

verus! {

/// Whether entity `target` of `s` is a table item.
pub open spec fn is_item_at(s: Seq<Entity>, target: int) -> bool {
    0 <= target < s.len() && s[target] is Item
}

/// The world with entity `target` replaced by the item `t`.
pub open spec fn with_item(w: WorldView, target: int, t: TableItem) -> WorldView {
    WorldView { entities: w.entities.update(target, Entity::Item(t)), ..w }
}

pub open spec fn after_hover(w: WorldView, target: int, tint: Tint) -> WorldView {
    if is_item_at(w.entities, target) {
        with_item(w, target, TableItem { tint, ..w.entities[target]->Item_0 })
    } else {
        w
    }
}

/// The world after a drag frame: where the cursor maps to a world point `(x, y)`, the item
/// moves there and is raised to the drag depth; where it maps to none, nothing changes.
pub open spec fn after_drag(w: WorldView, target: int, cursor: Option<(i64, i64)>) -> WorldView {
    if is_item_at(w.entities, target) && cursor is Some {
        with_item(
            w,
            target,
            TableItem {
                position: Position { x: (cursor->0).0, y: (cursor->0).1, z: DRAG_DEPTH },
                ..w.entities[target]->Item_0
            },
        )
    } else {
        w
    }
}

/// The world after a drag ends: the item goes back to depth zero where it was.
pub open spec fn after_drag_end(w: WorldView, target: int) -> WorldView {
    if is_item_at(w.entities, target) {
        let t = w.entities[target]->Item_0;
        with_item(w, target, TableItem { position: Position { z: 0, ..t.position }, ..t })
    } else {
        w
    }
}

impl World {
    /// The item at `target`, if that entity is an item.
    fn item_at(&self, target: usize) -> (r: Option<TableItem>)
        ensures
            r is Some <==> is_item_at(self@.entities, target as int),
            r is Some ==> r->0 == self@.entities[target as int]->Item_0,
    {
        if target < self.entities.len() {
            if let Entity::Item(t) = self.entities[target] {
                return Some(t);
            }
        }
        None
    }

    fn set_tint(&mut self, target: usize, tint: Tint)
        ensures
            final(self)@ == after_hover(old(self)@, target as int, tint),
    {
        if let Some(t) = self.item_at(target) {
            self.entities.set(target, Entity::Item(TableItem { tint, ..t }));
        }
    }

    /// The pointer enters the item at `target`: it is highlighted.
    pub fn hover_over(&mut self, target: usize)
        ensures
            final(self)@ == after_hover(old(self)@, target as int, Tint::Highlight),
    {
        self.set_tint(target, Tint::Highlight);
    }

    /// The pointer leaves the item at `target`: its plain colour comes back.
    pub fn hover_out(&mut self, target: usize)
        ensures
            final(self)@ == after_hover(old(self)@, target as int, Tint::Plain),
    {
        self.set_tint(target, Tint::Plain);
    }

    /// A drag frame on the item at `target`; `cursor` is the pointer in world coordinates
    /// (millionths of a world unit), or `None` where it could not be mapped there.
    pub fn move_table_item_on_drag(&mut self, target: usize, cursor: Option<(i64, i64)>)
        ensures
            final(self)@ == after_drag(old(self)@, target as int, cursor),
    {
        if let Some(t) = self.item_at(target) {
            if let Some((x, y)) = cursor {
                let position = Position { x, y, z: DRAG_DEPTH };
                self.entities.set(target, Entity::Item(TableItem { position, ..t }));
            }
        }
    }

    /// The drag on the item at `target` ends: it goes back to depth zero.
    pub fn end_drag(&mut self, target: usize)
        ensures
            final(self)@ == after_drag_end(old(self)@, target as int),
            is_item_at(old(self)@.entities, target as int)
                ==> final(self)@.entities[target as int]->Item_0.position.z == 0,
    {
        if let Some(t) = self.item_at(target) {
            let position = Position { z: 0, ..t.position };
            self.entities.set(target, Entity::Item(TableItem { position, ..t }));
        }
    }
}

} // verus!
