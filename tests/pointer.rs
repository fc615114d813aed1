use choreonius::world::{Entity, Position, TableItem, Tint, World, DRAG_DEPTH};

fn in_game_world() -> World {
    let mut world = World::new();
    world.enter_loading();
    world.enter_game_load();
    world
}

fn item(world: &World, index: usize) -> TableItem {
    match world.entities[index] {
        Entity::Item(t) => t,
        other => panic!("expected an item, got {:?}", other),
    }
}

#[test]
fn drag_moves_item_to_cursor_and_raises_it() {
    let mut world = in_game_world();
    let before = item(&world, 5);
    world.move_table_item_on_drag(5, Some((1234, -5678)));
    let after = item(&world, 5);
    assert_eq!(after.position, Position { x: 1234, y: -5678, z: 10_000_000 });
    assert_eq!(DRAG_DEPTH, 10_000_000);
    assert_eq!(after.score, before.score);
    assert_eq!(after.size, before.size);
}

#[test]
fn drag_without_world_point_is_skipped() {
    let mut world = in_game_world();
    let before = world.entities.clone();
    world.move_table_item_on_drag(5, None);
    assert_eq!(world.entities, before);
}

#[test]
fn drag_on_non_item_changes_nothing() {
    let mut world = in_game_world();
    let before = world.entities.clone();
    world.move_table_item_on_drag(0, Some((1, 2)));
    world.move_table_item_on_drag(1, Some((1, 2)));
    world.move_table_item_on_drag(1000, Some((1, 2)));
    world.end_drag(0);
    world.hover_over(1);
    assert_eq!(world.entities, before);
}

#[test]
fn drag_end_resets_depth_to_zero() {
    let mut world = in_game_world();
    world.move_table_item_on_drag(7, Some((300, 400)));
    assert_eq!(item(&world, 7).position.z, 10_000_000);
    world.end_drag(7);
    assert_eq!(item(&world, 7).position, Position { x: 300, y: 400, z: 0 });
}

#[test]
fn drag_end_without_drag_keeps_depth_zero() {
    let mut world = in_game_world();
    let before = item(&world, 9);
    world.end_drag(9);
    assert_eq!(item(&world, 9), before);
    assert_eq!(item(&world, 9).position.z, 0);
}

#[test]
fn hover_highlights_and_restores() {
    let mut world = in_game_world();
    world.hover_over(4);
    assert_eq!(item(&world, 4).tint, Tint::Highlight);
    assert_eq!(item(&world, 3).tint, Tint::Plain);
    world.hover_out(4);
    assert_eq!(item(&world, 4).tint, Tint::Plain);
}
