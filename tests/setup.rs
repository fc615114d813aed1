use choreonius::world::{
    AtlasLayout, Entity, GameState, Position, Tint, World, ITEM_AMOUNT, SPRITE_SHEET_PATH,
};

fn count(world: &World, pred: fn(&Entity) -> bool) -> usize {
    world.entities.iter().filter(|e| pred(e)).count()
}

fn is_camera(e: &Entity) -> bool {
    matches!(e, Entity::Camera(_))
}

fn is_background(e: &Entity) -> bool {
    matches!(e, Entity::Background(_))
}

fn is_item(e: &Entity) -> bool {
    matches!(e, Entity::Item(_))
}

fn loaded_world() -> World {
    let mut world = World::new();
    world.enter_loading();
    world.enter_game_load();
    world
}

#[test]
fn new_world_is_empty_and_loading() {
    let world = World::new();
    assert_eq!(world.state, GameState::Loading);
    assert!(world.entities.is_empty());
    assert!(world.atlas_layout.is_none());
    assert!(world.sprite_sheet.is_none());
}

#[test]
fn loading_enter_spawns_one_camera_and_sets_resources() {
    let mut world = World::new();
    world.enter_loading();
    assert_eq!(count(&world, is_camera), 1);
    assert_eq!(world.entities.len(), 1);
    assert_eq!(world.entities[0], Entity::Camera(Position { x: 0, y: 0, z: 0 }));
    assert_eq!(
        world.atlas_layout,
        Some(AtlasLayout { tile_width: 32, tile_height: 32, columns: 6, rows: 1 })
    );
    assert_eq!(world.sprite_sheet.map(|s| s.path), Some("tilesheet.png"));
    assert_eq!(SPRITE_SHEET_PATH, "tilesheet.png");
    assert_eq!(world.state, GameState::GameLoad);
}

#[test]
fn game_load_enter_spawns_background_and_items() {
    let world = loaded_world();
    assert_eq!(count(&world, is_camera), 1);
    assert_eq!(count(&world, is_background), 1);
    assert_eq!(count(&world, is_item), 21);
    assert_eq!(ITEM_AMOUNT + 1, 21);
    assert_eq!(world.entities.len(), 23);
    assert_eq!(world.state, GameState::InGame);
    match world.entities[1] {
        Entity::Background(b) => {
            assert_eq!((b.width, b.height), (1500, 1500));
            assert_eq!(b.atlas_index, 0);
            assert!(b.tile_x && b.tile_y);
            assert_eq!(b.stretch, 10);
        }
        other => panic!("expected the background, got {:?}", other),
    }
}

#[test]
fn spawned_items_lie_on_table_with_size_and_cell_in_range() {
    for _ in 0..20 {
        let world = loaded_world();
        for (k, e) in world.entities[2..].iter().enumerate() {
            match e {
                Entity::Item(t) => {
                    assert_eq!(t.score as usize, k);
                    assert!(-750_000_000 <= t.position.x && t.position.x < 750_000_000);
                    assert!(-750_000_000 <= t.position.y && t.position.y < 750_000_000);
                    assert_eq!(t.position.z, 0);
                    assert!((50..300).contains(&t.size));
                    assert!((1..=5).contains(&t.atlas_index));
                    assert_eq!(t.tint, Tint::Plain);
                    assert!(t.hoverable);
                }
                other => panic!("expected an item, got {:?}", other),
            }
        }
    }
}

#[test]
fn spawned_items_are_drawn_not_fixed() {
    let world = loaded_world();
    let xs: Vec<i64> = world
        .entities
        .iter()
        .filter_map(|e| match e {
            Entity::Item(t) => Some(t.position.x),
            _ => None,
        })
        .collect();
    assert!(xs.iter().any(|&x| x != -750_000_000));
    assert!(xs.iter().any(|&x| x != xs[0]));
}

#[test]
fn item_from_draws_keeps_the_drawn_values() {
    let t = choreonius::world::TableItem::from_draws(3, 120, 4, -5, 7);
    assert_eq!(t.score, 3);
    assert_eq!(t.size, 120);
    assert_eq!(t.atlas_index, 4);
    assert_eq!(t.position, Position { x: -5, y: 7, z: 0 });
    assert_eq!(t.tint, Tint::Plain);
    assert!(t.hoverable);
}

#[test]
fn spawn_random_gives_fresh_item() {
    for score in 0..50u32 {
        let t = choreonius::world::TableItem::spawn_random(score);
        assert_eq!(t.score, score);
        assert!((50..300).contains(&t.size));
        assert!((1..=5).contains(&t.atlas_index));
        assert!((-750_000_000..750_000_000).contains(&t.position.x));
        assert!((-750_000_000..750_000_000).contains(&t.position.y));
    }
}
