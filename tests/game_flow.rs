use flappy::components::ComponentSet;
use flappy::game::Game;
use flappy::input::{key_event, missing_action, Action, Key};
use flappy::scenes::ScreenDimensions;
use flappy::sprites::{SpriteName, SpriteTable};
use flappy::state::{transition_of, Event, GameState, Trans};
use flappy::world::World;

fn dims() -> ScreenDimensions {
    ScreenDimensions { width: 432_000_000, height: 768_000_000 }
}

fn snapshot(w: &World) -> Vec<Option<flappy::components::Components>> {
    (0..w.slot_count()).map(|i| w.get(flappy::world::EntityId { index: i })).collect()
}

const BIRBS: ComponentSet = ComponentSet { transform: true, scroller: false, birb: true, sprite: false, camera: false };
const SCROLLERS: ComponentSet = ComponentSet { transform: true, scroller: true, birb: false, sprite: false, camera: false };
const SPRITES: ComponentSet = ComponentSet { transform: true, scroller: false, birb: false, sprite: true, camera: false };

#[test]
fn splash_creates_scenery_title_and_camera() {
    let g = Game::new(dims());
    assert!(g.is_running());
    assert_eq!(g.current_state(), GameState::Splash);
    assert_eq!(g.entity_count(), 8);
    assert_eq!(g.world().query(SCROLLERS).len(), 4);
    assert_eq!(g.world().query(SPRITES).len(), 7);
    let title = g.world().get(flappy::world::EntityId { index: 5 }).unwrap();
    assert_eq!(title.sprite.unwrap().sprite_number, 10);
    assert_eq!(title.transform.unwrap().x, 216_000_000);
    assert_eq!(title.transform.unwrap().y, 614_400_000);
}

#[test]
fn walk_from_splash_to_play_and_pause() {
    let mut g = Game::new(dims());
    assert_eq!(g.handle_event(Event::Confirm), Trans::Push(GameState::Ready));
    assert_eq!(g.current_state(), GameState::Ready);
    // The title and menu are gone, the scenery stays.
    assert_eq!(g.world().query(SCROLLERS).len(), 4);
    assert_eq!(g.world().query(SPRITES).len(), 4 + 2);
    assert_eq!(g.handle_event(Event::Confirm), Trans::Push(GameState::Play));
    assert_eq!(g.current_state(), GameState::Play);
    assert_eq!(g.world().query(BIRBS).len(), 1);
    assert_eq!(g.world().query(SPRITES).len(), 4 + 1);
    assert!(g.update(16, false));
    assert!(g.update(16, true));
    let before = snapshot(g.world());
    assert_eq!(g.handle_event(Event::Pause), Trans::Push(GameState::Paused));
    assert_eq!(g.current_state(), GameState::Paused);
    assert!(g.update(16, true));
    assert!(g.update(5000, false));
    assert_eq!(g.handle_event(Event::Resume), Trans::Pop);
    assert_eq!(g.current_state(), GameState::Play);
    let after = snapshot(g.world());
    assert_eq!(after.len(), before.len() + 1);
    assert_eq!(after[..before.len()], before[..]);
    assert_eq!(after[before.len()], None);
}

#[test]
fn play_moves_the_player_and_the_scenery() {
    let mut g = Game::new(dims());
    g.handle_event(Event::Confirm);
    g.handle_event(Event::Confirm);
    let birb = g.world().query(BIRBS)[0];
    let y0 = g.world().get(birb).unwrap().transform.unwrap().y;
    assert!(g.update(20, true));
    let c = g.world().get(birb).unwrap();
    assert_eq!(c.birb.unwrap().vertical_speed, 600_000 - 1500 * 20);
    assert_eq!(c.transform.unwrap().y, y0 + (600_000 - 1500 * 20) * 20);
    let tile = g.world().get(flappy::world::EntityId { index: 1 }).unwrap();
    assert_eq!(tile.transform.unwrap().x, 214_500_000 - 75_000 * 20);
}

#[test]
fn menus_scroll_scenery_only() {
    let mut g = Game::new(dims());
    assert!(g.update(100, true));
    let tile = g.world().get(flappy::world::EntityId { index: 3 }).unwrap();
    assert_eq!(tile.transform.unwrap().x, 252_000_000 - 100_000 * 100);
}

#[test]
fn leaving_play_destroys_the_player() {
    let mut g = Game::new(dims());
    g.handle_event(Event::Confirm);
    g.handle_event(Event::Confirm);
    assert_eq!(g.handle_event(Event::Confirm), Trans::Pop);
    assert_eq!(g.current_state(), GameState::Ready);
    assert!(g.world().query(BIRBS).is_empty());
    assert_eq!(g.world().query(SPRITES).len(), 4);
}

#[test]
fn quit_ends_the_game_from_any_state() {
    let mut g = Game::new(dims());
    assert_eq!(g.handle_event(Event::CloseRequested), Trans::Quit);
    assert!(!g.is_running());
    assert_eq!(g.handle_event(Event::Confirm), Trans::Stay);
    assert!(!g.update(16, false));
    for s in [GameState::Splash, GameState::Ready, GameState::Play, GameState::Paused] {
        assert_eq!(transition_of(s, Event::Quit), Trans::Quit);
        assert_eq!(transition_of(s, Event::CloseRequested), Trans::Quit);
    }
}

#[test]
fn unrelated_events_are_ignored() {
    assert_eq!(transition_of(GameState::Splash, Event::Pause), Trans::Stay);
    assert_eq!(transition_of(GameState::Ready, Event::Resume), Trans::Stay);
    assert_eq!(transition_of(GameState::Play, Event::Resume), Trans::Stay);
    assert_eq!(transition_of(GameState::Paused, Event::Confirm), Trans::Stay);
    let mut g = Game::new(dims());
    let before = snapshot(g.world());
    assert_eq!(g.handle_event(Event::Resume), Trans::Stay);
    assert_eq!(snapshot(g.world()), before);
}

#[test]
fn sprite_table_resolves_every_name() {
    let t = SpriteTable::load_sprites();
    assert_eq!(t.get(SpriteName::DayBackground).unwrap().sprite_number, 0);
    assert_eq!(t.get(SpriteName::Floppy).unwrap().sprite_number, 5);
    assert_eq!(t.get(SpriteName::FlappyBirdText).unwrap().sprite_number, 10);
}

#[test]
fn keys_map_to_events_by_state() {
    assert_eq!(key_event(Key::Space, GameState::Splash), Some(Event::Confirm));
    assert_eq!(key_event(Key::Space, GameState::Play), None);
    assert_eq!(key_event(Key::Return, GameState::Play), Some(Event::Confirm));
    assert_eq!(key_event(Key::P, GameState::Play), Some(Event::Pause));
    assert_eq!(key_event(Key::P, GameState::Paused), Some(Event::Resume));
    assert_eq!(key_event(Key::Escape, GameState::Ready), Some(Event::Quit));
    assert_eq!(key_event(Key::Other, GameState::Ready), None);
}

#[test]
fn missing_action_binding_is_named() {
    let all = vec![Action::Quit, Action::Resume, Action::Pause, Action::Confirm, Action::Flap];
    assert_eq!(missing_action(&all), None);
    let no_flap = vec![Action::Quit, Action::Resume, Action::Pause, Action::Confirm];
    assert_eq!(missing_action(&no_flap), Some(Action::Flap));
    assert_eq!(missing_action(&vec![Action::Flap, Action::Confirm]), Some(Action::Pause));
    assert_eq!(missing_action(&vec![]), Some(Action::Flap));
}
