use vstd::prelude::*;
use crate::components::Components;
use crate::scenes::{
    camera_entity, id_range, pause_overlay, player, ready_prompt, splash_scenery, splash_title,
    with_spawned, ScreenDimensions,
};
use crate::scheduler::{clamp_dt, run_systems, spec_clamp_dt, tick_ok, ticked};
use crate::sprites::SpriteTable;
use crate::state::{
    active_systems, active_systems_of, tears_down, transition, Event, GameState, PausedState,
    PlayState, ReadyState, SplashState, Trans,
};
use crate::world::{destroyed_all, lemma_destroyed_all_len, EntityId, World};

verus! {

/// One state on the stack, with the entities it owns.
pub enum StateFrame {
    Splash(SplashState),
    Ready(ReadyState),
    Play(PlayState),
    Paused(PausedState),
}

impl StateFrame {
    pub open spec fn kind(&self) -> GameState {
        match self {
            StateFrame::Splash(_) => GameState::Splash,
            StateFrame::Ready(_) => GameState::Ready,
            StateFrame::Play(_) => GameState::Play,
            StateFrame::Paused(_) => GameState::Paused,
        }
    }

    pub open spec fn owned(&self) -> Seq<EntityId> {
        match self {
            StateFrame::Splash(s) => s.owned(),
            StateFrame::Ready(s) => s.owned(),
            StateFrame::Play(s) => s.owned(),
            StateFrame::Paused(s) => s.owned(),
        }
    }

    pub fn state(&self) -> (r: GameState)
        ensures
            r == self.kind(),
    {
        match self {
            StateFrame::Splash(_) => GameState::Splash,
            StateFrame::Ready(_) => GameState::Ready,
            StateFrame::Play(_) => GameState::Play,
            StateFrame::Paused(_) => GameState::Paused,
        }
    }
}

/// The state at depth `i` of the stack on the one path through the game:
/// splash, ready, play, paused.
pub open spec fn flow_order(i: int) -> GameState {
    if i == 0 {
        GameState::Splash
    } else if i == 1 {
        GameState::Ready
    } else if i == 2 {
        GameState::Play
    } else {
        GameState::Paused
    }
}

/// A stack of states that the game can reach from the splash screen.
pub open spec fn valid_stack(f: Seq<(GameState, Seq<EntityId>)>) -> bool {
    1 <= f.len() <= 4 && forall|i: int| 0 <= i < f.len() ==> #[trigger] f[i].0 == flow_order(i)
}

/// The entities that state `t` creates when it is entered.
pub open spec fn entered(t: GameState, d: ScreenDimensions) -> Seq<Components> {
    match t {
        GameState::Splash => Seq::empty(),
        GameState::Ready => ready_prompt(d),
        GameState::Play => seq![player(d)],
        GameState::Paused => seq![pause_overlay(d)],
    }
}

/// The store after the current state `s`, owning `owned`, takes event `e`:
/// the state's entities go if it tears down, and a pushed state's entities
/// are created.
pub open spec fn world_after(
    w: Seq<Option<Components>>,
    s: GameState,
    owned: Seq<EntityId>,
    e: Event,
    d: ScreenDimensions,
) -> Seq<Option<Components>> {
    let left = if tears_down(s, e) {
        destroyed_all(w, owned)
    } else {
        w
    };
    match transition(s, e) {
        Trans::Push(t) => with_spawned(left, entered(t, d)),
        _ => left,
    }
}

/// The stack after its top takes event `e`, on a store of `n` slots.
pub open spec fn frames_after(
    f: Seq<(GameState, Seq<EntityId>)>,
    n: int,
    e: Event,
    d: ScreenDimensions,
) -> Seq<(GameState, Seq<EntityId>)> {
    let top = f.last();
    let kept = if tears_down(top.0, e) {
        Seq::empty()
    } else {
        top.1
    };
    match transition(top.0, e) {
        Trans::Push(t) => f.update(f.len() - 1, (top.0, kept)).push(
            (t, id_range(n, entered(t, d).len() as int)),
        ),
        Trans::Pop => f.drop_last(),
        _ => f,
    }
}

/// The game can be walked from the splash screen to the game, paused and
/// resumed: each of these events moves the state machine one step along
/// splash, ready, play, paused and back to play. Quitting or closing the
/// window ends the game from every state.
pub proof fn lemma_flow_path()
    ensures
        transition(GameState::Splash, Event::Confirm) == Trans::Push(GameState::Ready),
        transition(GameState::Ready, Event::Confirm) == Trans::Push(GameState::Play),
        transition(GameState::Play, Event::Pause) == Trans::Push(GameState::Paused),
        transition(GameState::Paused, Event::Resume) == Trans::Pop,
        forall|s: GameState|
            transition(s, Event::Quit) == Trans::Quit && transition(s, Event::CloseRequested)
                == Trans::Quit,
{
}

/// Pausing the game and resuming it gives back the same stack of states and
/// every entity exactly as it was when the game was paused (the pause
/// indicator's slot is left empty), and no system moves anything while the
/// game is paused.
pub proof fn lemma_pause_resume_restores(
    w: Seq<Option<Components>>,
    f: Seq<(GameState, Seq<EntityId>)>,
    d: ScreenDimensions,
    flap: bool,
    dt: int,
)
    requires
        f.len() >= 1,
        f.last().0 == GameState::Play,
        w.len() < usize::MAX,
    ensures
        ({
            let w1 = world_after(w, GameState::Play, f.last().1, Event::Pause, d);
            let f1 = frames_after(f, w.len() as int, Event::Pause, d);
            &&& f1.last().0 == GameState::Paused
            &&& ticked(w1, active_systems(GameState::Paused), flap, dt) == w1
            &&& world_after(w1, GameState::Paused, f1.last().1, Event::Resume, d) == w.push(None)
            &&& frames_after(f1, w1.len() as int, Event::Resume, d) == f
        }),
{
    let w1 = world_after(w, GameState::Play, f.last().1, Event::Pause, d);
    let f1 = frames_after(f, w.len() as int, Event::Pause, d);
    assert(w1 =~= w.push(Some(pause_overlay(d))));
    assert(f1.last().1 =~= seq![EntityId { index: w.len() as usize }]);
    let ids = f1.last().1;
    assert(ids.drop_last() =~= Seq::<EntityId>::empty());
    assert(destroyed_all(w1, ids.drop_last()) == w1);
    assert(destroyed_all(w1, ids) =~= w.push(None));
    assert(f1.drop_last() =~= f);
}

/// The whole game: the entity store, the sprite table, the screen size and
/// the stack of states.
pub struct Game {
    world: World,
    table: SpriteTable,
    dims: ScreenDimensions,
    stack: Vec<StateFrame>,
    running: bool,
}

impl Game {
    pub closed spec fn world_view(&self) -> Seq<Option<Components>> {
        self.world@
    }

    /// Each state on the stack, bottom first, with the entities it owns.
    pub closed spec fn frames(&self) -> Seq<(GameState, Seq<EntityId>)> {
        self.stack@.map_values(|f: StateFrame| (f.kind(), f.owned()))
    }

    pub closed spec fn screen(&self) -> ScreenDimensions {
        self.dims
    }

    pub closed spec fn spec_running(&self) -> bool {
        self.running
    }

    pub closed spec fn wf(&self) -> bool {
        &&& self.table.complete()
        &&& self.dims.wf()
        &&& valid_stack(self.frames())
    }

    /// Starts on the splash screen.
    pub fn new(dims: ScreenDimensions) -> (r: Game)
        requires
            dims.wf(),
        ensures
            r.wf(),
            r.spec_running(),
            r.screen() == dims,
            r.frames() == seq![(GameState::Splash, id_range(5, 3))],
            r.world_view() == with_spawned(
                with_spawned(seq![Some(camera_entity(dims))], splash_scenery()),
                splash_title(dims),
            ),
    {
        let mut world = World::new();
        let mut splash = SplashState::new();
        let table = splash.on_start(&mut world, dims);
        let mut stack: Vec<StateFrame> = Vec::new();
        stack.push(StateFrame::Splash(splash));
        let g = Game { world, table, dims, stack, running: true };
        proof {
            assert(Seq::<Option<Components>>::empty().push(Some(camera_entity(dims))) =~= seq![Some(camera_entity(dims))]);
            assert(g.frames() =~= seq![(GameState::Splash, id_range(5, 3))]);
        }
        g
    }

    pub fn world(&self) -> (r: &World)
        ensures
            r@ == self.world_view(),
    {
        &self.world
    }

    pub fn is_running(&self) -> (r: bool)
        ensures
            r == self.spec_running(),
    {
        self.running
    }

    /// The current state.
    pub fn current_state(&self) -> (r: GameState)
        requires
            self.wf(),
        ensures
            r == self.frames().last().0,
    {
        self.stack[self.stack.len() - 1].state()
    }

    /// Number of entity slots used so far.
    pub fn entity_count(&self) -> (r: usize)
        ensures
            r == self.world_view().len(),
    {
        self.world.slot_count()
    }

    /// Creates the frame of state `t` and runs its start hook.
    fn enter(&mut self, t: GameState) -> (r: StateFrame)
        requires
            old(self).world@.len() + 2 < usize::MAX,
            old(self).table.complete(),
            old(self).dims.wf(),
        ensures
            r.kind() == t,
            r.owned() == id_range(old(self).world@.len() as int, entered(t, old(self).dims).len() as int),
            final(self).world@ == with_spawned(old(self).world@, entered(t, old(self).dims)),
            final(self).table == old(self).table,
            final(self).dims == old(self).dims,
            final(self).stack == old(self).stack,
            final(self).running == old(self).running,
    {
        let ghost w0 = self.world@;
        match t {
            GameState::Splash => {
                let s = SplashState::new();
                assert(self.world@ =~= with_spawned(w0, entered(t, self.dims)));
                assert(s.owned() =~= id_range(w0.len() as int, 0));
                StateFrame::Splash(s)
            },
            GameState::Ready => {
                let mut s = ReadyState::new();
                s.on_start(&mut self.world, &self.table, self.dims);
                assert(s.owned() =~= id_range(w0.len() as int, 2));
                StateFrame::Ready(s)
            },
            GameState::Play => {
                let mut s = PlayState::new();
                s.on_start(&mut self.world, &self.table, self.dims);
                assert(self.world@ =~= with_spawned(w0, entered(t, self.dims)));
                assert(s.owned() =~= id_range(w0.len() as int, 1));
                StateFrame::Play(s)
            },
            GameState::Paused => {
                let mut s = PausedState::new();
                s.on_start(&mut self.world, &self.table, self.dims);
                assert(self.world@ =~= with_spawned(w0, entered(t, self.dims)));
                assert(s.owned() =~= id_range(w0.len() as int, 1));
                StateFrame::Paused(s)
            },
        }
    }

    /// Hands event `e` to the current state and carries out the transition it
    /// asks for. A game that has quit ignores events.
    pub fn handle_event(&mut self, e: Event) -> (r: Trans)
        requires
            old(self).wf(),
            old(self).world_view().len() + 2 < usize::MAX,
        ensures
            final(self).wf(),
            final(self).screen() == old(self).screen(),
            old(self).world_view().len() <= final(self).world_view().len()
                <= old(self).world_view().len() + 2,
            !old(self).spec_running() ==> r == Trans::Stay && final(self).world_view()
                == old(self).world_view() && final(self).frames() == old(self).frames()
                && !final(self).spec_running(),
            old(self).spec_running() ==> {
                let top = old(self).frames().last();
                &&& r == transition(top.0, e)
                &&& final(self).world_view() == world_after(
                    old(self).world_view(),
                    top.0,
                    top.1,
                    e,
                    old(self).screen(),
                )
                &&& final(self).frames() == frames_after(
                    old(self).frames(),
                    old(self).world_view().len() as int,
                    e,
                    old(self).screen(),
                )
                &&& final(self).spec_running() == (r != Trans::Quit)
            },
    {
        if !self.running {
            return Trans::Stay;
        }
        let ghost f0 = self.frames();
        let ghost w0 = self.world@;
        let ghost top = f0.last();
        let ghost d = self.dims;
        let last = self.stack.len() - 1;
        let frame = match self.stack.pop() {
            Some(f) => f,
            None => {
                return Trans::Stay;
            },
        };
        proof {
            assert(frame.kind() == top.0 && frame.owned() == top.1);
            assert(self.frames() =~= f0.drop_last());
        }
        let (r, frame) = match frame {
            StateFrame::Splash(mut s) => {
                let r = s.handle_event(&mut self.world, e);
                (r, StateFrame::Splash(s))
            },
            StateFrame::Ready(mut s) => {
                let r = s.handle_event(&mut self.world, e);
                (r, StateFrame::Ready(s))
            },
            StateFrame::Play(mut s) => {
                let r = s.handle_event(&mut self.world, e);
                (r, StateFrame::Play(s))
            },
            StateFrame::Paused(mut s) => {
                let r = s.handle_event(&mut self.world, e);
                (r, StateFrame::Paused(s))
            },
        };
        let ghost kept = if tears_down(top.0, e) {
            Seq::<EntityId>::empty()
        } else {
            top.1
        };
        proof {
            lemma_destroyed_all_len(w0, top.1);
            assert(frame.kind() == top.0 && frame.owned() == kept);
            assert(self.world@.len() == w0.len());
        }
        match r {
            Trans::Push(t) => {
                self.stack.push(frame);
                proof {
                    assert(self.frames() =~= f0.update(f0.len() - 1, (top.0, kept)));
                }
                let next = self.enter(t);
                self.stack.push(next);
                proof {
                    assert(self.frames() =~= frames_after(f0, w0.len() as int, e, d));
                }
            },
            Trans::Pop => {
                proof {
                    assert(self.frames() =~= frames_after(f0, w0.len() as int, e, d));
                }
            },
            Trans::Quit => {
                self.stack.push(frame);
                self.running = false;
                proof {
                    assert(self.frames() =~= f0);
                }
            },
            Trans::Stay => {
                self.stack.push(frame);
                proof {
                    assert(self.frames() =~= f0);
                }
            },
        }
        r
    }

    /// One tick: runs the systems of the current state for the time elapsed
    /// since the last tick, cut down to `MAX_TICK_MS`. Returns whether the
    /// tick was taken; a game that has quit, or a tick that would leave the
    /// integer ranges, leaves the store as it is.
    pub fn update(&mut self, elapsed_ms: u64, flap: bool) -> (r: bool)
        requires
            old(self).wf(),
        ensures
            final(self).wf(),
            final(self).screen() == old(self).screen(),
            final(self).frames() == old(self).frames(),
            final(self).spec_running() == old(self).spec_running(),
            !old(self).spec_running() ==> !r,
            old(self).spec_running() ==> r == tick_ok(
                old(self).world_view(),
                active_systems(old(self).frames().last().0),
                flap,
                spec_clamp_dt(elapsed_ms) as int,
            ),
            r ==> final(self).world_view() == ticked(
                old(self).world_view(),
                active_systems(old(self).frames().last().0),
                flap,
                spec_clamp_dt(elapsed_ms) as int,
            ),
            !r ==> final(self).world_view() == old(self).world_view(),
    {
        if !self.running {
            return false;
        }
        let s = self.current_state();
        let dt = clamp_dt(elapsed_ms);
        run_systems(&mut self.world, active_systems_of(s), flap, dt)
    }
}

} // verus!
