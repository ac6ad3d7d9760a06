use vstd::prelude::*;
use crate::components::{Birb, Camera, Components, SpriteHandle, TiledScroller, Transform};
use crate::sprites::{sheet_index, SpriteName, SpriteTable};
use crate::world::{EntityId, World};

verus! {

/// Display scale of every sprite.
pub const SPRITE_SCALE: u32 = 3;

/// Largest screen side accepted, in micro-units.
pub const MAX_SCREEN_SIDE: i64 = 0x1000_0000_0000_0000;

/// Size of the visible area, in micro-units.
#[derive(Clone, Copy, Debug, PartialEq, Eq, Structural)]
pub struct ScreenDimensions {
    pub width: i64,
    pub height: i64,
}

impl ScreenDimensions {
    pub open spec fn wf(&self) -> bool {
        0 <= self.width <= MAX_SCREEN_SIDE && 0 <= self.height <= MAX_SCREEN_SIDE
    }
}

/// The store with `cs` appended as new live entities.
pub open spec fn with_spawned(w: Seq<Option<Components>>, cs: Seq<Components>) -> Seq<
    Option<Components>,
> {
    w + cs.map_values(|c: Components| Some(c))
}

/// The identifiers `start`, `start + 1`, ..., `start + n - 1`.
pub open spec fn id_range(start: int, n: int) -> Seq<EntityId> {
    Seq::new(n as nat, |k: int| EntityId { index: (start + k) as usize })
}

/// A sprite entity drawn at `(x, y)` on layer `z`, at the sprite scale.
pub open spec fn sprite_at(name: SpriteName, x: int, y: int, z: int) -> Components {
    Components {
        transform: Some(Transform { x: x as i64, y: y as i64, z: z as i64, scale: SPRITE_SCALE }),
        scroller: None,
        birb: None,
        sprite: Some(SpriteHandle { sprite_number: sheet_index(name) }),
        camera: None,
    }
}

/// A scrolling tile of the given image.
pub open spec fn scrolling_tile(
    name: SpriteName,
    x: int,
    y: int,
    z: int,
    speed: int,
    width: int,
    height: int,
    lane: int,
) -> Components {
    Components {
        scroller: Some(
            TiledScroller {
                speed: speed as i64,
                width: width as i64,
                height: height as i64,
                position: lane as i64,
            },
        ),
        ..sprite_at(name, x, y, z)
    }
}

/// The camera, centred on the screen and covering all of it.
pub open spec fn camera_entity(d: ScreenDimensions) -> Components {
    Components {
        transform: Some(Transform { x: (d.width / 2) as i64, y: (d.height / 2) as i64, z: 1_000_000, scale: 1 }),
        scroller: None,
        birb: None,
        sprite: None,
        camera: Some(Camera { width: d.width, height: d.height }),
    }
}

/// The scenery that outlives the splash screen: two background tiles and two
/// ground tiles, side by side.
pub open spec fn splash_scenery() -> Seq<Components> {
    seq![
        scrolling_tile(SpriteName::DayBackground, 214_500_000, 384_000_000, 0, -75_000, 429_000_000, 768_000_000, 1),
        scrolling_tile(SpriteName::DayBackground, 643_500_000, 384_000_000, 0, -75_000, 429_000_000, 768_000_000, 2),
        scrolling_tile(SpriteName::Ground, 252_000_000, 84_000_000, 100_000, -100_000, 501_000_000, 168_000_000, 2),
        scrolling_tile(SpriteName::Ground, 756_000_000, 84_000_000, 100_000, -100_000, 501_000_000, 168_000_000, 2),
    ]
}

/// Every scenery tile scrolls leftwards and has a positive width, so the
/// wrap-around of the scroll system applies to each of them.
pub proof fn lemma_scenery_scrolls_left()
    ensures
        forall|i: int|
            0 <= i < splash_scenery().len() ==> (#[trigger] splash_scenery()[i]).scroller is Some
                && splash_scenery()[i].scroller->Some_0.wf(),
{
}

/// The title and the menu buttons of the splash screen.
pub open spec fn splash_title(d: ScreenDimensions) -> Seq<Components> {
    seq![
        sprite_at(SpriteName::FlappyBirdText, d.width / 2, d.height * 4 / 5, 200_000),
        sprite_at(SpriteName::PlayButton, d.width / 4, d.height * 2 / 5, 200_000),
        sprite_at(SpriteName::LeaderboardButton, d.width * 3 / 4, d.height * 2 / 5, 200_000),
    ]
}

/// The "get ready" prompt.
pub open spec fn ready_prompt(d: ScreenDimensions) -> Seq<Components> {
    seq![
        sprite_at(SpriteName::GetReadyText, d.width / 2, d.height * 4 / 5, 200_000),
        sprite_at(SpriteName::TapTapDialogue, d.width / 2, d.height / 2, 200_000),
    ]
}

/// The player, at rest in the middle of the screen.
pub open spec fn player(d: ScreenDimensions) -> Components {
    Components {
        birb: Some(Birb { vertical_speed: 0, starting_height: 0, position: 0 }),
        ..sprite_at(SpriteName::Floppy, d.width / 2, d.height / 2, 200_000)
    }
}

/// The indicator drawn over the paused game.
pub open spec fn pause_overlay(d: ScreenDimensions) -> Components {
    sprite_at(SpriteName::TapTapDialogue, d.width / 2, d.height / 2, 300_000)
}

/// Adds a sprite entity at `(x, y, z)`.
pub fn spawn_sprite(
    world: &mut World,
    table: &SpriteTable,
    name: SpriteName,
    x: i64,
    y: i64,
    z: i64,
) -> (id: EntityId)
    requires
        old(world)@.len() < usize::MAX,
        table.complete(),
    ensures
        id.index == old(world)@.len(),
        final(world)@ == old(world)@.push(Some(sprite_at(name, x as int, y as int, z as int))),
{
    let mut c = Components::empty();
    c.transform = Some(Transform { x, y, z, scale: SPRITE_SCALE });
    c.sprite = table.get(name);
    world.create_entity(c)
}

/// Adds a scrolling tile entity.
pub fn spawn_tile(
    world: &mut World,
    table: &SpriteTable,
    name: SpriteName,
    x: i64,
    y: i64,
    z: i64,
    scroller: TiledScroller,
) -> (id: EntityId)
    requires
        old(world)@.len() < usize::MAX,
        table.complete(),
    ensures
        id.index == old(world)@.len(),
        final(world)@ == old(world)@.push(
            Some(
                scrolling_tile(
                    name,
                    x as int,
                    y as int,
                    z as int,
                    scroller.speed as int,
                    scroller.width as int,
                    scroller.height as int,
                    scroller.position as int,
                ),
            ),
        ),
{
    let mut c = Components::empty();
    c.transform = Some(Transform { x, y, z, scale: SPRITE_SCALE });
    c.sprite = table.get(name);
    c.scroller = Some(scroller);
    world.create_entity(c)
}

} // verus!
