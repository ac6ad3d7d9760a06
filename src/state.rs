use vstd::prelude::*;
use crate::components::TiledScroller;
use crate::scenes::{
    camera_entity, id_range, pause_overlay, player, ready_prompt, spawn_sprite, spawn_tile,
    splash_scenery, splash_title, with_spawned, ScreenDimensions,
};
use crate::scheduler::{run_systems, tick_ok, ticked, SystemSet};
use crate::sprites::{SpriteName, SpriteTable};
use crate::components::{Camera, Components, Transform};
use crate::world::{destroyed_all, EntityId, World};

verus! {

/// The screens of the game.
#[derive(Clone, Copy, Debug, PartialEq, Eq, Structural)]
pub enum GameState {
    Splash,
    Ready,
    Play,
    Paused,
}

/// Input events, by their meaning rather than by key.
#[derive(Clone, Copy, Debug, PartialEq, Eq, Structural)]
pub enum Event {
    Confirm,
    Pause,
    Resume,
    Quit,
    CloseRequested,
}

/// What the state machine does after an event.
#[derive(Clone, Copy, Debug, PartialEq, Eq, Structural)]
pub enum Trans {
    Stay,
    Push(GameState),
    Pop,
    Quit,
}

/// The transition taken by state `s` on event `e`. Quitting and closing the
/// window end the game from every state.
pub open spec fn transition(s: GameState, e: Event) -> Trans {
    match e {
        Event::Quit | Event::CloseRequested => Trans::Quit,
        Event::Confirm => match s {
            GameState::Splash => Trans::Push(GameState::Ready),
            GameState::Ready => Trans::Push(GameState::Play),
            GameState::Play => Trans::Pop,
            GameState::Paused => Trans::Stay,
        },
        Event::Pause => if s == GameState::Play {
            Trans::Push(GameState::Paused)
        } else {
            Trans::Stay
        },
        Event::Resume => if s == GameState::Paused {
            Trans::Pop
        } else {
            Trans::Stay
        },
    }
}

/// Does state `s` destroy the entities it created when it takes event `e`?
/// It does when it is left, or covered by another screen; pausing covers the
/// game without destroying it.
pub open spec fn tears_down(s: GameState, e: Event) -> bool {
    match transition(s, e) {
        Trans::Push(t) => t != GameState::Paused,
        Trans::Pop => true,
        _ => false,
    }
}

/// The systems that run while `s` is the current state: the game runs both,
/// the menus only scroll the scenery, and nothing moves while paused.
pub open spec fn active_systems(s: GameState) -> SystemSet {
    match s {
        GameState::Splash | GameState::Ready => SystemSet { scroll: true, gravity: false },
        GameState::Play => SystemSet { scroll: true, gravity: true },
        GameState::Paused => SystemSet { scroll: false, gravity: false },
    }
}

pub fn transition_of(s: GameState, e: Event) -> (r: Trans)
    ensures
        r == transition(s, e),
{
    match e {
        Event::Quit | Event::CloseRequested => Trans::Quit,
        Event::Confirm => match s {
            GameState::Splash => Trans::Push(GameState::Ready),
            GameState::Ready => Trans::Push(GameState::Play),
            GameState::Play => Trans::Pop,
            GameState::Paused => Trans::Stay,
        },
        Event::Pause => match s {
            GameState::Play => Trans::Push(GameState::Paused),
            _ => Trans::Stay,
        },
        Event::Resume => match s {
            GameState::Paused => Trans::Pop,
            _ => Trans::Stay,
        },
    }
}

pub fn active_systems_of(s: GameState) -> (r: SystemSet)
    ensures
        r == active_systems(s),
{
    match s {
        GameState::Splash | GameState::Ready => SystemSet { scroll: true, gravity: false },
        GameState::Play => SystemSet { scroll: true, gravity: true },
        GameState::Paused => SystemSet { scroll: false, gravity: false },
    }
}

/// Destroys `sprites` when `s` tears down on `e`, and says what `s` does.
fn leave_on(s: GameState, e: Event, world: &mut World, sprites: &mut Vec<EntityId>) -> (r: Trans)
    ensures
        r == transition(s, e),
        tears_down(s, e) ==> final(world)@ == destroyed_all(old(world)@, old(sprites)@)
            && final(sprites)@ == Seq::<EntityId>::empty(),
        !tears_down(s, e) ==> final(world)@ == old(world)@ && final(sprites)@ == old(sprites)@,
{
    let r = transition_of(s, e);
    let leave = match r {
        Trans::Push(t) => t != GameState::Paused,
        Trans::Pop => true,
        _ => false,
    };
    if leave {
        world.destroy_entities(sprites);
        sprites.clear();
    }
    r
}

/// The title screen. It creates the scenery, which stays for the whole game,
/// and the title and menu, which go when the game is started.
pub struct SplashState {
    sprites: Vec<EntityId>,
    persistent_sprites: Vec<EntityId>,
}

impl SplashState {
    /// The entities that this state destroys when it is left.
    pub closed spec fn owned(&self) -> Seq<EntityId> {
        self.sprites@
    }

    /// The entities that this state created to outlive it.
    pub closed spec fn persistent(&self) -> Seq<EntityId> {
        self.persistent_sprites@
    }

    pub fn new() -> (r: SplashState)
        ensures
            r.owned() == Seq::<EntityId>::empty(),
            r.persistent() == Seq::<EntityId>::empty(),
    {
        SplashState { sprites: Vec::new(), persistent_sprites: Vec::new() }
    }

    /// Creates the scenery tiles, then the title and the menu buttons.
    pub fn init_sprites(&mut self, world: &mut World, table: &SpriteTable, dims: ScreenDimensions)
        requires
            old(world)@.len() + 7 < usize::MAX,
            table.complete(),
            dims.wf(),
        ensures
            final(world)@ == with_spawned(with_spawned(old(world)@, splash_scenery()), splash_title(dims)),
            final(self).persistent() == old(self).persistent() + id_range(old(world)@.len() as int, 4),
            final(self).owned() == old(self).owned() + id_range(old(world)@.len() + 4 as int, 3),
    {
        let ghost w0 = world@;
        let ghost p0 = self.persistent_sprites@;
        let ghost s0 = self.sprites@;
        let background = TiledScroller {
            speed: -75_000,
            width: 429_000_000,
            height: 768_000_000,
            position: 1,
        };
        let id = spawn_tile(world, table, SpriteName::DayBackground, 214_500_000, 384_000_000, 0, background);
        self.persistent_sprites.push(id);
        let background = TiledScroller { position: 2, ..background };
        let id = spawn_tile(world, table, SpriteName::DayBackground, 643_500_000, 384_000_000, 0, background);
        self.persistent_sprites.push(id);
        let ground = TiledScroller {
            speed: -100_000,
            width: 501_000_000,
            height: 168_000_000,
            position: 2,
        };
        let id = spawn_tile(world, table, SpriteName::Ground, 252_000_000, 84_000_000, 100_000, ground);
        self.persistent_sprites.push(id);
        let id = spawn_tile(world, table, SpriteName::Ground, 756_000_000, 84_000_000, 100_000, ground);
        self.persistent_sprites.push(id);

        let id = spawn_sprite(
            world,
            table,
            SpriteName::FlappyBirdText,
            dims.width / 2,
            dims.height * 4 / 5,
            200_000,
        );
        self.sprites.push(id);
        let id = spawn_sprite(
            world,
            table,
            SpriteName::PlayButton,
            dims.width / 4,
            dims.height * 2 / 5,
            200_000,
        );
        self.sprites.push(id);
        let id = spawn_sprite(
            world,
            table,
            SpriteName::LeaderboardButton,
            dims.width * 3 / 4,
            dims.height * 2 / 5,
            200_000,
        );
        self.sprites.push(id);
        proof {
            assert(world@ =~= with_spawned(with_spawned(w0, splash_scenery()), splash_title(dims)));
            assert(self.persistent_sprites@ =~= p0 + id_range(w0.len() as int, 4));
            assert(self.sprites@ =~= s0 + id_range(w0.len() + 4 as int, 3));
        }
    }

    /// Creates the camera, centred on the screen.
    pub fn init_camera(world: &mut World, dims: ScreenDimensions) -> (id: EntityId)
        requires
            old(world)@.len() < usize::MAX,
            dims.wf(),
        ensures
            id.index == old(world)@.len(),
            final(world)@ == old(world)@.push(Some(camera_entity(dims))),
    {
        let mut c = Components::empty();
        c.transform = Some(Transform { x: dims.width / 2, y: dims.height / 2, z: 1_000_000, scale: 1 });
        c.camera = Some(Camera { width: dims.width, height: dims.height });
        world.create_entity(c)
    }

    /// Resolves the sprite table, then creates the camera and the sprites.
    pub fn on_start(&mut self, world: &mut World, dims: ScreenDimensions) -> (table: SpriteTable)
        requires
            old(world)@.len() + 8 < usize::MAX,
            dims.wf(),
        ensures
            table.complete(),
            final(world)@ == with_spawned(
                with_spawned(old(world)@.push(Some(camera_entity(dims))), splash_scenery()),
                splash_title(dims),
            ),
            final(self).persistent() == old(self).persistent() + id_range(old(world)@.len() + 1 as int, 4),
            final(self).owned() == old(self).owned() + id_range(old(world)@.len() + 5 as int, 3),
    {
        let table = SpriteTable::load_sprites();
        SplashState::init_camera(world, dims);
        self.init_sprites(world, &table, dims);
        table
    }

    /// Starting the game destroys the title and the menu (not the scenery).
    pub fn handle_event(&mut self, world: &mut World, e: Event) -> (r: Trans)
        ensures
            r == transition(GameState::Splash, e),
            final(self).persistent() == old(self).persistent(),
            tears_down(GameState::Splash, e) ==> final(world)@ == destroyed_all(old(world)@, old(self).owned())
                && final(self).owned() == Seq::<EntityId>::empty(),
            !tears_down(GameState::Splash, e) ==> final(world)@ == old(world)@ && final(self).owned()
                == old(self).owned(),
    {
        leave_on(GameState::Splash, e, world, &mut self.sprites)
    }

    pub fn update(&self) -> (r: Trans)
        ensures
            r == Trans::Stay,
    {
        Trans::Stay
    }
}

/// The screen that waits for the player to start.
pub struct ReadyState {
    sprites: Vec<EntityId>,
}

impl ReadyState {
    pub closed spec fn owned(&self) -> Seq<EntityId> {
        self.sprites@
    }

    pub fn new() -> (r: ReadyState)
        ensures
            r.owned() == Seq::<EntityId>::empty(),
    {
        ReadyState { sprites: Vec::new() }
    }

    /// Creates the "get ready" prompt.
    pub fn init_sprites(&mut self, world: &mut World, table: &SpriteTable, dims: ScreenDimensions)
        requires
            old(world)@.len() + 2 < usize::MAX,
            table.complete(),
            dims.wf(),
        ensures
            final(world)@ == with_spawned(old(world)@, ready_prompt(dims)),
            final(self).owned() == old(self).owned() + id_range(old(world)@.len() as int, 2),
    {
        let ghost w0 = world@;
        let ghost s0 = self.sprites@;
        let id = spawn_sprite(
            world,
            table,
            SpriteName::GetReadyText,
            dims.width / 2,
            dims.height * 4 / 5,
            200_000,
        );
        self.sprites.push(id);
        let id = spawn_sprite(
            world,
            table,
            SpriteName::TapTapDialogue,
            dims.width / 2,
            dims.height / 2,
            200_000,
        );
        self.sprites.push(id);
        proof {
            assert(world@ =~= with_spawned(w0, ready_prompt(dims)));
            assert(self.sprites@ =~= s0 + id_range(w0.len() as int, 2));
        }
    }

    pub fn on_start(&mut self, world: &mut World, table: &SpriteTable, dims: ScreenDimensions)
        requires
            old(world)@.len() + 2 < usize::MAX,
            table.complete(),
            dims.wf(),
        ensures
            final(world)@ == with_spawned(old(world)@, ready_prompt(dims)),
            final(self).owned() == old(self).owned() + id_range(old(world)@.len() as int, 2),
    {
        self.init_sprites(world, table, dims);
    }

    /// Coming back from a finished game: the prompt is gone and stays gone.
    pub fn on_resume(&mut self)
        ensures
            final(self).owned() == old(self).owned(),
    {
    }

    /// Starting the game destroys the prompt.
    pub fn handle_event(&mut self, world: &mut World, e: Event) -> (r: Trans)
        ensures
            r == transition(GameState::Ready, e),
            tears_down(GameState::Ready, e) ==> final(world)@ == destroyed_all(old(world)@, old(self).owned())
                && final(self).owned() == Seq::<EntityId>::empty(),
            !tears_down(GameState::Ready, e) ==> final(world)@ == old(world)@ && final(self).owned()
                == old(self).owned(),
    {
        leave_on(GameState::Ready, e, world, &mut self.sprites)
    }

    pub fn update(&self) -> (r: Trans)
        ensures
            r == Trans::Stay,
    {
        Trans::Stay
    }
}

/// The game itself: the player flaps over the scrolling scenery.
pub struct PlayState {
    sprites: Vec<EntityId>,
}

impl PlayState {
    pub closed spec fn owned(&self) -> Seq<EntityId> {
        self.sprites@
    }

    pub fn new() -> (r: PlayState)
        ensures
            r.owned() == Seq::<EntityId>::empty(),
    {
        PlayState { sprites: Vec::new() }
    }

    /// Creates the player.
    pub fn init_sprites(&mut self, world: &mut World, table: &SpriteTable, dims: ScreenDimensions)
        requires
            old(world)@.len() + 1 < usize::MAX,
            table.complete(),
            dims.wf(),
        ensures
            final(world)@ == old(world)@.push(Some(player(dims))),
            final(self).owned() == old(self).owned().push(EntityId { index: old(world)@.len() as usize }),
    {
        let mut c = Components::empty();
        c.transform = Some(
            Transform { x: dims.width / 2, y: dims.height / 2, z: 200_000, scale: crate::scenes::SPRITE_SCALE },
        );
        c.sprite = table.get(SpriteName::Floppy);
        c.birb = Some(crate::components::Birb { vertical_speed: 0, starting_height: 0, position: 0 });
        let id = world.create_entity(c);
        self.sprites.push(id);
    }

    pub fn on_start(&mut self, world: &mut World, table: &SpriteTable, dims: ScreenDimensions)
        requires
            old(world)@.len() + 1 < usize::MAX,
            table.complete(),
            dims.wf(),
        ensures
            final(world)@ == old(world)@.push(Some(player(dims))),
            final(self).owned() == old(self).owned().push(EntityId { index: old(world)@.len() as usize }),
    {
        self.init_sprites(world, table, dims);
    }

    /// Leaving the game destroys the player; pausing keeps it.
    pub fn handle_event(&mut self, world: &mut World, e: Event) -> (r: Trans)
        ensures
            r == transition(GameState::Play, e),
            tears_down(GameState::Play, e) ==> final(world)@ == destroyed_all(old(world)@, old(self).owned())
                && final(self).owned() == Seq::<EntityId>::empty(),
            !tears_down(GameState::Play, e) ==> final(world)@ == old(world)@ && final(self).owned()
                == old(self).owned(),
    {
        leave_on(GameState::Play, e, world, &mut self.sprites)
    }

    /// Runs the game's systems for one tick of `dt_ms` milliseconds; returns
    /// whether the tick was taken (see `run_systems`).
    pub fn update(&self, world: &mut World, flap: bool, dt_ms: u32) -> (r: bool)
        ensures
            r == tick_ok(old(world)@, active_systems(GameState::Play), flap, dt_ms as int),
            r ==> final(world)@ == ticked(old(world)@, active_systems(GameState::Play), flap, dt_ms as int),
            !r ==> final(world)@ == old(world)@,
    {
        run_systems(world, active_systems_of(GameState::Play), flap, dt_ms)
    }
}

/// The pause screen, drawn over the suspended game.
pub struct PausedState {
    sprites: Vec<EntityId>,
}

impl PausedState {
    pub closed spec fn owned(&self) -> Seq<EntityId> {
        self.sprites@
    }

    pub fn new() -> (r: PausedState)
        ensures
            r.owned() == Seq::<EntityId>::empty(),
    {
        PausedState { sprites: Vec::new() }
    }

    /// Creates the pause indicator.
    pub fn on_start(&mut self, world: &mut World, table: &SpriteTable, dims: ScreenDimensions)
        requires
            old(world)@.len() + 1 < usize::MAX,
            table.complete(),
            dims.wf(),
        ensures
            final(world)@ == old(world)@.push(Some(pause_overlay(dims))),
            final(self).owned() == old(self).owned().push(EntityId { index: old(world)@.len() as usize }),
    {
        let id = spawn_sprite(world, table, SpriteName::TapTapDialogue, dims.width / 2, dims.height / 2, 300_000);
        self.sprites.push(id);
    }

    /// Resuming destroys the indicator.
    pub fn handle_event(&mut self, world: &mut World, e: Event) -> (r: Trans)
        ensures
            r == transition(GameState::Paused, e),
            tears_down(GameState::Paused, e) ==> final(world)@ == destroyed_all(old(world)@, old(self).owned())
                && final(self).owned() == Seq::<EntityId>::empty(),
            !tears_down(GameState::Paused, e) ==> final(world)@ == old(world)@ && final(self).owned()
                == old(self).owned(),
    {
        leave_on(GameState::Paused, e, world, &mut self.sprites)
    }
}

} // verus!
