use flappy::components::{Birb, ComponentSet, Components, TiledScroller, Transform};
use flappy::scheduler::{clamp_dt, run_systems, SystemSet, MAX_TICK_MS};
use flappy::systems::{fall, scroll_x, BirbGravity, ScrollScrollables, FLAP_SPEED, GRAVITY};
use flappy::world::{EntityId, World};

const UNIT: i64 = 1_000_000;

fn at(x: i64, y: i64) -> Transform {
    Transform { x, y, z: 0, scale: 3 }
}

fn scroller_entity(x: i64, speed: i64, width: i64) -> Components {
    let mut c = Components::empty();
    c.transform = Some(at(x, 0));
    c.scroller = Some(TiledScroller { speed, width, height: 0, position: 1 });
    c
}

fn birb_entity(y: i64, vertical_speed: i64) -> Components {
    let mut c = Components::empty();
    c.transform = Some(at(0, y));
    c.birb = Some(Birb { vertical_speed, starting_height: 0, position: 0 });
    c
}

fn x_of(w: &World, id: EntityId) -> i64 {
    w.get(id).unwrap().transform.unwrap().x
}

#[test]
fn scroller_resets_after_crossing_left_edge() {
    let mut w = World::new();
    let id = w.create_entity(scroller_entity(216 * UNIT, -75_000, 144 * 3 * UNIT));
    let mut sys = ScrollScrollables;
    let expected = [141, 66, -9, -84, -159];
    for e in expected {
        sys.run(&mut w, 1000);
        assert_eq!(x_of(&w, id), e * UNIT);
    }
    sys.run(&mut w, 1000);
    assert_eq!(x_of(&w, id), 648 * UNIT);
    sys.run(&mut w, 1000);
    assert_eq!(x_of(&w, id), 573 * UNIT);
}

#[test]
fn scroller_decreases_between_wraps() {
    let width = 100 * UNIT;
    let mut x = 30 * UNIT;
    let mut wraps = 0;
    for _ in 0..120 {
        let next = scroll_x(x, -20_000, width, 250).unwrap();
        if next == 3 * width / 2 {
            wraps += 1;
            assert!(next >= width / 2 && next <= 3 * width / 2);
        } else {
            assert!(next < x);
            assert!(2 * next + width >= 0);
        }
        x = next;
    }
    assert!(wraps >= 2);
}

#[test]
fn scroll_exact_edge_does_not_wrap() {
    // x + width / 2 == 0 exactly: not yet past the edge.
    assert_eq!(scroll_x(10, -1, 20, 20), Some(-10));
    assert_eq!(scroll_x(10, -1, 20, 21), Some(30));
    assert_eq!(scroll_x(10, -1000, 20, 20), Some(30));
}

#[test]
fn scroll_overflow_is_refused() {
    assert_eq!(scroll_x(i64::MAX, 1, 10, 1), None);
    assert_eq!(scroll_x(i64::MIN, i64::MIN, i64::MAX, 10), None);
}

#[test]
fn flap_while_falling_sets_speed() {
    let mut w = World::new();
    let id = w.create_entity(birb_entity(300 * UNIT, -200_000));
    let mut g = BirbGravity::new();
    g.run(&mut w, true, 16);
    let c = w.get(id).unwrap();
    assert_eq!(c.birb.unwrap().vertical_speed, 600_000 - 1500 * 16);
    assert_eq!(c.transform.unwrap().y, 300 * UNIT + (600_000 - 1500 * 16) * 16);
}

#[test]
fn flap_does_not_stack_while_rising() {
    assert_eq!(fall(0, 900_000, true, 10), Some((585_000, 5_850_000)));
    assert_eq!(fall(0, -5_000_000, true, 10), Some((585_000, 5_850_000)));
    assert_eq!(FLAP_SPEED, 600_000);
    assert_eq!(GRAVITY, 1500);
}

#[test]
fn fall_without_flap_follows_euler_steps() {
    let (mut y, mut v) = (0i64, 0i64);
    for _ in 0..3 {
        let (nv, ny) = fall(y, v, false, 10).unwrap();
        v = nv;
        y = ny;
    }
    assert_eq!(v, -45_000);
    assert_eq!(y, -900_000);
    let n: i64 = 3;
    assert_eq!(y, 10 * (n * 0 - 1500 * 10 * (n * (n + 1) / 2)));
}

#[test]
fn fall_overflow_is_refused() {
    assert_eq!(fall(i64::MIN, 0, false, 10), None);
    assert_eq!(fall(0, i64::MIN, false, 10), None);
}

#[test]
fn systems_touch_only_their_entities() {
    let mut w = World::new();
    let s = w.create_entity(scroller_entity(50 * UNIT, -100_000, 10 * UNIT));
    let b = w.create_entity(birb_entity(10 * UNIT, 0));
    let plain = w.create_entity(Components { transform: Some(at(7, 7)), ..Components::empty() });
    let set = SystemSet { scroll: true, gravity: true };
    assert!(run_systems(&mut w, set, false, 100));
    assert_eq!(x_of(&w, s), 40 * UNIT);
    let bc = w.get(b).unwrap();
    assert_eq!(bc.transform.unwrap().x, 0);
    assert_eq!(bc.birb.unwrap().vertical_speed, -150_000);
    assert_eq!(bc.transform.unwrap().y, 10 * UNIT - 15_000_000);
    assert_eq!(w.get(plain).unwrap().transform.unwrap(), at(7, 7));
}

#[test]
fn tick_that_would_overflow_changes_nothing() {
    let mut w = World::new();
    let s = w.create_entity(scroller_entity(50 * UNIT, -100_000, 10 * UNIT));
    let b = w.create_entity(birb_entity(i64::MIN + 5, 0));
    let set = SystemSet { scroll: true, gravity: true };
    assert!(!run_systems(&mut w, set, false, 100));
    assert_eq!(x_of(&w, s), 50 * UNIT);
    assert_eq!(w.get(b).unwrap().transform.unwrap().y, i64::MIN + 5);
    let only_scroll = SystemSet { scroll: true, gravity: false };
    assert!(run_systems(&mut w, only_scroll, false, 100));
    assert_eq!(x_of(&w, s), 40 * UNIT);
}

#[test]
fn long_gaps_are_clamped() {
    assert_eq!(clamp_dt(16), 16);
    assert_eq!(clamp_dt(0), 0);
    assert_eq!(clamp_dt(10_000), MAX_TICK_MS);
    assert_eq!(MAX_TICK_MS, 250);
}

#[test]
fn query_yields_each_matching_entity_once() {
    let mut w = World::new();
    let a = w.create_entity(scroller_entity(0, -1, 2));
    let b = w.create_entity(birb_entity(0, 0));
    let c = w.create_entity(scroller_entity(5, -1, 2));
    let q = ComponentSet { transform: true, scroller: true, birb: false, sprite: false, camera: false };
    assert_eq!(w.query(q), vec![a, c]);
    let all = ComponentSet { transform: false, scroller: false, birb: false, sprite: false, camera: false };
    assert_eq!(w.query(all), vec![a, b, c]);
}

#[test]
fn destroyed_entities_leave_no_components() {
    let mut w = World::new();
    let a = w.create_entity(scroller_entity(0, -1, 2));
    let b = w.create_entity(birb_entity(0, 0));
    let keep = w.create_entity(scroller_entity(5, -1, 2));
    w.destroy_entities(&vec![a, b]);
    assert!(!w.is_alive(a));
    assert!(!w.is_alive(b));
    assert!(w.is_alive(keep));
    let birbs = ComponentSet { transform: true, scroller: false, birb: true, sprite: false, camera: false };
    assert!(w.query(birbs).is_empty());
    let scrollers = ComponentSet { transform: true, scroller: true, birb: false, sprite: false, camera: false };
    assert_eq!(w.query(scrollers), vec![keep]);
}

#[test]
fn destroy_is_idempotent() {
    let mut w = World::new();
    let a = w.create_entity(birb_entity(0, 0));
    w.destroy_entity(a);
    w.destroy_entity(a);
    w.destroy_entity(EntityId { index: 99 });
    assert_eq!(w.slot_count(), 1);
    assert_eq!(w.get(a), None);
    let next = w.create_entity(birb_entity(0, 0));
    assert_eq!(next.index, 1);
}

#[test]
fn set_ignores_dead_entities() {
    let mut w = World::new();
    let a = w.create_entity(birb_entity(0, 0));
    w.destroy_entity(a);
    w.set(a, birb_entity(1, 1));
    assert_eq!(w.get(a), None);
}
