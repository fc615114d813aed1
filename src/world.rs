use vstd::prelude::*;

use crate::random::random_in;

verus! {

/// Millionths of a world unit per world unit: positions are held in this fixed-point scale.
pub const UNIT: i64 = 1000000;

/// Side lengths of the table, in world units.
pub const TABLE_WIDTH: i64 = 1500;
pub const TABLE_HEIGHT: i64 = 1500;

/// Highest index of the spawn loop, which runs over `0..=ITEM_AMOUNT`.
pub const ITEM_AMOUNT: u32 = 20;

/// Item sizes are drawn from `MIN_ITEM_SIZE..MAX_ITEM_SIZE`, in world units.
pub const MIN_ITEM_SIZE: i64 = 50;
pub const MAX_ITEM_SIZE: i64 = 300;

/// Item atlas cells are drawn from `FIRST_ITEM_CELL..=LAST_ITEM_CELL`.
pub const FIRST_ITEM_CELL: i64 = 1;
pub const LAST_ITEM_CELL: i64 = 5;

/// Depth of an item while it is dragged, in millionths of a world unit.
pub const DRAG_DEPTH: i64 = 10000000;

/// Cell size and grid of the sprite sheet's atlas.
pub const TILE_SIZE: u32 = 32;
pub const ATLAS_COLUMNS: u32 = 6;
pub const ATLAS_ROWS: u32 = 1;

/// Background tiling: how far each tile is stretched.
pub const TILE_STRETCH: u32 = 10;

/// Where the host finds the sprite sheet.
pub const SPRITE_SHEET_PATH: &'static str = "tilesheet.png";

/// The phases of the game, entered strictly in this order.
#[derive(Clone, Copy, Debug, PartialEq, Eq, Structural)]
pub enum GameState {
    Loading,
    GameLoad,
    InGame,
}

/// A point in millionths of a world unit; `z` orders sprites in depth.
#[derive(Clone, Copy, Debug, PartialEq, Eq, Structural)]
pub struct Position {
    pub x: i64,
    pub y: i64,
    pub z: i64,
}

impl Position {
    pub fn origin() -> (r: Position)
        ensures
            r == (Position { x: 0, y: 0, z: 0 }),
    {
        Position { x: 0, y: 0, z: 0 }
    }
}

/// Colour multiplied into an item's sprite.
#[derive(Clone, Copy, Debug, PartialEq, Eq, Structural)]
pub enum Tint {
    Plain,
    Highlight,
}

/// A fixed grid dividing the sprite sheet into cells of `tile_width` by `tile_height`.
#[derive(Clone, Copy, Debug, PartialEq, Eq, Structural)]
pub struct AtlasLayout {
    pub tile_width: u32,
    pub tile_height: u32,
    pub columns: u32,
    pub rows: u32,
}

impl AtlasLayout {
    pub fn from_grid(tile_width: u32, tile_height: u32, columns: u32, rows: u32) -> (r:
        AtlasLayout)
        ensures
            r == (AtlasLayout { tile_width, tile_height, columns, rows }),
    {
        AtlasLayout { tile_width, tile_height, columns, rows }
    }
}

/// The sprite sheet, named by the path the host loads it from.
#[derive(Clone, Copy, Debug, PartialEq, Eq)]
pub struct SpriteSheet {
    pub path: &'static str,
}

/// The tiled sprite that covers the table.
#[derive(Clone, Copy, Debug, PartialEq, Eq, Structural)]
pub struct Background {
    pub width: u32,
    pub height: u32,
    pub atlas_index: u32,
    pub tile_x: bool,
    pub tile_y: bool,
    pub stretch: u32,
}

/// A draggable object on the table; its size is in world units.
#[derive(Clone, Copy, Debug, PartialEq, Eq, Structural)]
pub struct TableItem {
    pub score: u32,
    pub size: u32,
    pub atlas_index: u32,
    pub position: Position,
    pub tint: Tint,
    pub hoverable: bool,
}

/// What an entity of the world is, with its components.
#[derive(Clone, Copy, Debug, PartialEq, Eq, Structural)]
pub enum Entity {
    Camera(Position),
    Background(Background),
    Item(TableItem),
}

/// The kinds of entity, as counted over the world.
#[derive(Clone, Copy, Debug, PartialEq, Eq, Structural)]
pub enum Kind {
    Camera,
    Background,
    Item,
}

impl Entity {
    pub open spec fn kind(self) -> Kind {
        match self {
            Entity::Camera(_) => Kind::Camera,
            Entity::Background(_) => Kind::Background,
            Entity::Item(_) => Kind::Item,
        }
    }
}

/// How many entities of `s` are of kind `k`.
pub open spec fn count_kind(s: Seq<Entity>, k: Kind) -> nat
    decreases s.len(),
{
    if s.len() == 0 {
        0
    } else {
        count_kind(s.drop_last(), k) + if s.last().kind() == k {
            1nat
        } else {
            0nat
        }
    }
}

pub proof fn lemma_count_push(s: Seq<Entity>, e: Entity, k: Kind)
    ensures
        count_kind(s.push(e), k) == count_kind(s, k) + if e.kind() == k {
            1nat
        } else {
            0nat
        },
{
    assert(s.push(e).drop_last() =~= s);
}

pub proof fn lemma_count_concat(a: Seq<Entity>, b: Seq<Entity>, k: Kind)
    ensures
        count_kind(a + b, k) == count_kind(a, k) + count_kind(b, k),
    decreases b.len(),
{
    if b.len() > 0 {
        lemma_count_concat(a, b.drop_last(), k);
        assert((a + b).drop_last() =~= a + b.drop_last());
    } else {
        assert(a + b =~= a);
    }
}

/// Counts of a sequence whose entities all have kind `k`.
pub proof fn lemma_count_uniform(s: Seq<Entity>, k: Kind, other: Kind)
    requires
        forall|i: int| 0 <= i < s.len() ==> (#[trigger] s[i]).kind() == k,
        other != k,
    ensures
        count_kind(s, k) == s.len(),
        count_kind(s, other) == 0,
    decreases s.len(),
{
    if s.len() > 0 {
        let t = s.drop_last();
        assert forall|i: int| 0 <= i < t.len() implies (#[trigger] t[i]).kind() == k by {
            assert(t[i] == s[i]);
        }
        lemma_count_uniform(t, k, other);
    }
}

/// The game world: its phase, the shared resources and an arena of entities, each named by
/// its index.
pub struct World {
    pub state: GameState,
    pub atlas_layout: Option<AtlasLayout>,
    pub sprite_sheet: Option<SpriteSheet>,
    pub entities: Vec<Entity>,
}

pub struct WorldView {
    pub state: GameState,
    pub atlas_layout: Option<AtlasLayout>,
    pub sprite_sheet: Option<SpriteSheet>,
    pub entities: Seq<Entity>,
}

impl View for World {
    type V = WorldView;

    open spec fn view(&self) -> WorldView {
        WorldView {
            state: self.state,
            atlas_layout: self.atlas_layout,
            sprite_sheet: self.sprite_sheet,
            entities: self.entities@,
        }
    }
}

pub open spec fn sheet_layout() -> AtlasLayout {
    AtlasLayout { tile_width: TILE_SIZE, tile_height: TILE_SIZE, columns: ATLAS_COLUMNS, rows: ATLAS_ROWS }
}

pub open spec fn table_background() -> Background {
    Background {
        width: TABLE_WIDTH as u32,
        height: TABLE_HEIGHT as u32,
        atlas_index: 0,
        tile_x: true,
        tile_y: true,
        stretch: TILE_STRETCH,
    }
}

/// The world as the Loading phase leaves it: a camera added at the origin, both resources
/// set, and the game moved on to GameLoad.
pub open spec fn after_loading_enter(w: WorldView) -> WorldView {
    WorldView {
        state: GameState::GameLoad,
        atlas_layout: Some(sheet_layout()),
        sprite_sheet: Some(SpriteSheet { path: SPRITE_SHEET_PATH }),
        entities: w.entities.push(Entity::Camera(Position { x: 0, y: 0, z: 0 })),
    }
}

/// Half-open bounds of the table, in millionths of a world unit.
pub open spec fn on_table(p: Position) -> bool {
    &&& -(TABLE_WIDTH * UNIT / 2) <= p.x < TABLE_WIDTH * UNIT / 2
    &&& -(TABLE_HEIGHT * UNIT / 2) <= p.y < TABLE_HEIGHT * UNIT / 2
}

/// An item as spawned with spawn-order `score`.
pub open spec fn fresh_item(t: TableItem, score: int) -> bool {
    &&& t.score == score
    &&& MIN_ITEM_SIZE <= t.size < MAX_ITEM_SIZE
    &&& FIRST_ITEM_CELL <= t.atlas_index <= LAST_ITEM_CELL
    &&& on_table(t.position)
    &&& t.position.z == 0
    &&& t.tint == Tint::Plain
    &&& t.hoverable
}

/// The batch that the GameLoad phase spawns: one fresh item for each index of `0..=ITEM_AMOUNT`.
pub open spec fn spawned_batch(s: Seq<Entity>) -> bool {
    &&& s.len() == ITEM_AMOUNT + 1
    &&& forall|i: int|
        0 <= i < s.len() ==> (#[trigger] s[i]) is Item && fresh_item(s[i]->Item_0, i)
}

/// `after` is `before` with the table's background and then a spawned batch appended, and
/// the game moved on to InGame.
pub open spec fn game_load_entered(before: WorldView, after: WorldView) -> bool {
    let n = before.entities.len() as int;
    &&& after.state == GameState::InGame
    &&& after.atlas_layout == before.atlas_layout
    &&& after.sprite_sheet == before.sprite_sheet
    &&& n + 1 <= after.entities.len()
    &&& after.entities.take(n + 1) == before.entities.push(Entity::Background(table_background()))
    &&& spawned_batch(after.entities.skip(n + 1))
}

impl TableItem {
    /// The item with spawn order `score` built from drawn values; `x` and `y` are in
    /// millionths of a world unit.
    pub fn from_draws(score: u32, size: u32, atlas_index: u32, x: i64, y: i64) -> (r: TableItem)
        ensures
            r == (TableItem {
                score,
                size,
                atlas_index,
                position: Position { x, y, z: 0 },
                tint: Tint::Plain,
                hoverable: true,
            }),
    {
        TableItem {
            score,
            size,
            atlas_index,
            position: Position { x, y, z: 0 },
            tint: Tint::Plain,
            hoverable: true,
        }
    }

    /// Draws size, atlas cell and position uniformly for the item with spawn order `score`.
    pub fn spawn_random(score: u32) -> (r: TableItem)
        ensures
            fresh_item(r, score as int),
    {
        let size = random_in(MIN_ITEM_SIZE, MAX_ITEM_SIZE) as u32;
        let atlas_index = random_in(FIRST_ITEM_CELL, LAST_ITEM_CELL + 1) as u32;
        let half_width = TABLE_WIDTH * UNIT / 2;
        let half_height = TABLE_HEIGHT * UNIT / 2;
        let x = random_in(-half_width, half_width);
        let y = random_in(-half_height, half_height);
        TableItem::from_draws(score, size, atlas_index, x, y)
    }
}

impl World {
    /// A world in the Loading phase with no entities and no resources.
    pub fn new() -> (r: World)
        ensures
            r@ == (WorldView {
                state: GameState::Loading,
                atlas_layout: None,
                sprite_sheet: None,
                entities: Seq::empty(),
            }),
    {
        World { state: GameState::Loading, atlas_layout: None, sprite_sheet: None, entities: Vec::new() }
    }

    /// Adds the player's camera at the origin.
    pub fn spawn_camera(&mut self)
        ensures
            final(self)@ == (WorldView {
                entities: old(self)@.entities.push(Entity::Camera(Position { x: 0, y: 0, z: 0 })),
                ..old(self)@
            }),
            count_kind(final(self)@.entities, Kind::Camera) == count_kind(
                old(self)@.entities,
                Kind::Camera,
            ) + 1,
    {
        self.entities.push(Entity::Camera(Position::origin()));
        proof {
            lemma_count_push(old(self)@.entities, Entity::Camera(Position { x: 0, y: 0, z: 0 }), Kind::Camera);
        }
    }

    /// Sets the atlas layout and the sprite sheet, and moves on to GameLoad.
    pub fn load_assets(&mut self)
        requires
            old(self).state == GameState::Loading,
        ensures
            final(self)@ == (WorldView {
                state: GameState::GameLoad,
                atlas_layout: Some(sheet_layout()),
                sprite_sheet: Some(SpriteSheet { path: SPRITE_SHEET_PATH }),
                ..old(self)@
            }),
    {
        let layout = AtlasLayout::from_grid(TILE_SIZE, TILE_SIZE, ATLAS_COLUMNS, ATLAS_ROWS);
        self.atlas_layout = Some(layout);
        self.sprite_sheet = Some(SpriteSheet { path: SPRITE_SHEET_PATH });
        self.state = GameState::GameLoad;
    }

    /// Everything done on entering the Loading phase.
    pub fn enter_loading(&mut self)
        requires
            old(self).state == GameState::Loading,
        ensures
            final(self)@ == after_loading_enter(old(self)@),
    {
        self.spawn_camera();
        self.load_assets();
    }

    /// Adds the tiled background covering the table.
    pub fn spawn_table_grid(&mut self)
        requires
            old(self).atlas_layout is Some,
            old(self).sprite_sheet is Some,
        ensures
            final(self)@ == (WorldView {
                entities: old(self)@.entities.push(Entity::Background(table_background())),
                ..old(self)@
            }),
    {
        let background = Background {
            width: TABLE_WIDTH as u32,
            height: TABLE_HEIGHT as u32,
            atlas_index: 0,
            tile_x: true,
            tile_y: true,
            stretch: TILE_STRETCH,
        };
        self.entities.push(Entity::Background(background));
    }

    /// Appends a batch of randomly drawn items, one for each index of `0..=ITEM_AMOUNT`.
    pub fn spawn_table_items(&mut self)
        requires
            old(self).atlas_layout is Some,
            old(self).sprite_sheet is Some,
        ensures
            final(self).state == old(self).state,
            final(self).atlas_layout == old(self).atlas_layout,
            final(self).sprite_sheet == old(self).sprite_sheet,
            final(self)@.entities.len() == old(self)@.entities.len() + ITEM_AMOUNT + 1,
            final(self)@.entities.take(old(self)@.entities.len() as int) == old(self)@.entities,
            spawned_batch(final(self)@.entities.skip(old(self)@.entities.len() as int)),
    {
        let ghost start = self.entities@;
        let mut i: u32 = 0;
        while i <= ITEM_AMOUNT
            invariant
                i <= ITEM_AMOUNT + 1,
                self.state == old(self).state,
                self.atlas_layout == old(self).atlas_layout,
                self.sprite_sheet == old(self).sprite_sheet,
                start == old(self)@.entities,
                self.entities@.len() == start.len() + i,
                forall|j: int| 0 <= j < start.len() ==> self.entities@[j] == start[j],
                forall|j: int|
                    0 <= j < i ==> (#[trigger] self.entities@[start.len() + j]) is Item
                        && fresh_item(self.entities@[start.len() + j]->Item_0, j),
            decreases ITEM_AMOUNT + 1 - i,
        {
            let item = TableItem::spawn_random(i);
            self.entities.push(Entity::Item(item));
            i += 1;
        }
        let ghost fin = self.entities@;
        assert(fin.take(start.len() as int) =~= start);
        assert forall|j: int| 0 <= j < fin.skip(start.len() as int).len() implies (#[trigger] fin.skip(
            start.len() as int,
        )[j]) is Item && fresh_item(fin.skip(start.len() as int)[j]->Item_0, j) by {
            assert(fin.skip(start.len() as int)[j] == fin[start.len() + j]);
        }
    }

    /// Moves on to InGame.
    pub fn enter_game(&mut self)
        requires
            old(self).state == GameState::GameLoad,
        ensures
            final(self)@ == (WorldView { state: GameState::InGame, ..old(self)@ }),
    {
        self.state = GameState::InGame;
    }

    /// Everything done on entering the GameLoad phase: the background, then the items, then
    /// the move to InGame.
    pub fn enter_game_load(&mut self)
        requires
            old(self).state == GameState::GameLoad,
            old(self).atlas_layout is Some,
            old(self).sprite_sheet is Some,
        ensures
            game_load_entered(old(self)@, final(self)@),
    {
        self.spawn_table_grid();
        let ghost mid = self.entities@;
        self.spawn_table_items();
        self.enter_game();
        let ghost n = old(self)@.entities.len() as int;
        assert(self.entities@.take(n + 1) =~= mid.take(n + 1));
        assert(self.entities@.skip(n + 1) =~= self.entities@.skip(mid.len() as int));
    }
}

} // verus!
