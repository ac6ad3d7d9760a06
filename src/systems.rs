use vstd::prelude::*;
use crate::components::{Birb, Components, TiledScroller, Transform};
use crate::world::{EntityId, World};

verus! {

/// Downward acceleration, in milli-units per second gained each millisecond
/// (1500 units per second squared).
pub const GRAVITY: i64 = 1500;

/// Vertical speed set by a flap, in milli-units per second (600 units per second).
pub const FLAP_SPEED: i64 = 600_000;

pub open spec fn fits_i64(v: int) -> bool {
    i64::MIN <= v <= i64::MAX
}

/// Horizontal position after one scroll step of `dt` milliseconds: move by
/// `speed * dt`; once the right edge of the tile (`x + width / 2`) has passed
/// the left border, jump to `3 * width / 2`.
pub open spec fn scrolled_x(x: int, speed: int, width: int, dt: int) -> int {
    let moved = x + speed * dt;
    if 2 * moved + width < 0 {
        3 * width / 2
    } else {
        moved
    }
}

/// Vertical speed after one gravity step: a flap sets the speed, then
/// gravity is applied.
pub open spec fn fallen_speed(v: int, flap: bool, dt: int) -> int {
    (if flap {
        FLAP_SPEED as int
    } else {
        v
    }) - GRAVITY * dt
}

/// Vertical position after one gravity step, moved by the updated speed.
pub open spec fn fallen_y(y: int, v: int, flap: bool, dt: int) -> int {
    y + fallen_speed(v, flap, dt) * dt
}

/// A scroll step of this entity can be taken in the integer ranges.
pub open spec fn scroll_ok(c: Components, dt: int) -> bool {
    (c.transform is Some && c.scroller is Some) ==> {
        let t = c.transform->Some_0;
        let s = c.scroller->Some_0;
        s.width >= 0 && fits_i64(scrolled_x(t.x as int, s.speed as int, s.width as int, dt))
    }
}

/// The entity after one scroll step: only `x` of its transform changes, and
/// only when it has both a transform and a scroller.
pub open spec fn scrolled(c: Components, dt: int) -> Components {
    match (c.transform, c.scroller) {
        (Some(t), Some(s)) => Components {
            transform: Some(
                Transform {
                    x: scrolled_x(t.x as int, s.speed as int, s.width as int, dt) as i64,
                    ..t
                },
            ),
            ..c
        },
        _ => c,
    }
}

/// A gravity step of this entity can be taken in the integer ranges.
pub open spec fn fall_ok(c: Components, flap: bool, dt: int) -> bool {
    (c.transform is Some && c.birb is Some) ==> {
        let t = c.transform->Some_0;
        let b = c.birb->Some_0;
        fits_i64(fallen_speed(b.vertical_speed as int, flap, dt)) && fits_i64(
            fallen_y(t.y as int, b.vertical_speed as int, flap, dt),
        )
    }
}

/// The entity after one gravity step: its vertical speed and `y` change, and
/// only when it has both a transform and a `Birb`.
pub open spec fn fallen(c: Components, flap: bool, dt: int) -> Components {
    match (c.transform, c.birb) {
        (Some(t), Some(b)) => Components {
            transform: Some(
                Transform {
                    y: fallen_y(t.y as int, b.vertical_speed as int, flap, dt) as i64,
                    ..t
                },
            ),
            birb: Some(
                Birb {
                    vertical_speed: fallen_speed(b.vertical_speed as int, flap, dt) as i64,
                    ..b
                },
            ),
            ..c
        },
        _ => c,
    }
}

pub open spec fn scroll_all_ok(w: Seq<Option<Components>>, dt: int) -> bool {
    forall|i: int| 0 <= i < w.len() && w[i] is Some ==> scroll_ok(#[trigger] w[i]->Some_0, dt)
}

pub open spec fn fall_all_ok(w: Seq<Option<Components>>, flap: bool, dt: int) -> bool {
    forall|i: int|
        0 <= i < w.len() && w[i] is Some ==> fall_ok(#[trigger] w[i]->Some_0, flap, dt)
}

/// The store after the scroll system has run once.
pub open spec fn scroll_world(w: Seq<Option<Components>>, dt: int) -> Seq<Option<Components>> {
    Seq::new(
        w.len(),
        |i: int|
            match w[i] {
                Some(c) => Some(scrolled(c, dt)),
                None => None,
            },
    )
}

/// The store after the gravity system has run once.
pub open spec fn fall_world(w: Seq<Option<Components>>, flap: bool, dt: int) -> Seq<
    Option<Components>,
> {
    Seq::new(
        w.len(),
        |i: int|
            match w[i] {
                Some(c) => Some(fallen(c, flap, dt)),
                None => None,
            },
    )
}

/// A 64-bit value times a 32-bit time step stays far inside the 128-bit range.
proof fn lemma_product_bound(a: int, d: int)
    requires
        fits_i64(a),
        0 <= d <= u32::MAX,
    ensures
        -0x8000_0000_0000_0000_0000_0000 <= a * d <= 0x8000_0000_0000_0000_0000_0000,
{
    assert(-0x8000_0000_0000_0000 * 0x1_0000_0000 <= a * d <= 0x8000_0000_0000_0000
        * 0x1_0000_0000) by (nonlinear_arith)
        requires
            -0x8000_0000_0000_0000 <= a <= 0x8000_0000_0000_0000,
            0 <= d <= 0x1_0000_0000,
    ;
}

/// One scroll step of a horizontal position; `None` where the result does
/// not fit the integer range.
pub fn scroll_x(x: i64, speed: i64, width: i64, dt_ms: u32) -> (r: Option<i64>)
    requires
        width >= 0,
    ensures
        r == (if fits_i64(scrolled_x(x as int, speed as int, width as int, dt_ms as int)) {
            Some(scrolled_x(x as int, speed as int, width as int, dt_ms as int) as i64)
        } else {
            None
        }),
{
    proof {
        lemma_product_bound(speed as int, dt_ms as int);
    }
    let moved: i128 = x as i128 + speed as i128 * dt_ms as i128;
    let nx: i128 = if 2 * moved + width as i128 > 0 - 1 {
        moved
    } else {
        3 * (width as i128) / 2
    };
    if i64::MIN as i128 <= nx && nx <= i64::MAX as i128 {
        Some(nx as i64)
    } else {
        None
    }
}

/// One gravity step of a vertical speed and position: returns the new speed
/// and the new position, or `None` where one does not fit the integer range.
pub fn fall(y: i64, vertical_speed: i64, flap: bool, dt_ms: u32) -> (r: Option<(i64, i64)>)
    ensures
        r == (if fits_i64(fallen_speed(vertical_speed as int, flap, dt_ms as int)) && fits_i64(
            fallen_y(y as int, vertical_speed as int, flap, dt_ms as int),
        ) {
            Some(
                (
                    fallen_speed(vertical_speed as int, flap, dt_ms as int) as i64,
                    fallen_y(y as int, vertical_speed as int, flap, dt_ms as int) as i64,
                ),
            )
        } else {
            None
        }),
{
    let start: i128 = if flap {
        FLAP_SPEED as i128
    } else {
        vertical_speed as i128
    };
    proof {
        lemma_product_bound(GRAVITY as int, dt_ms as int);
    }
    let v: i128 = start - GRAVITY as i128 * dt_ms as i128;
    if v < i64::MIN as i128 || v > i64::MAX as i128 {
        return None;
    }
    proof {
        lemma_product_bound(v as int, dt_ms as int);
    }
    let ny: i128 = y as i128 + v * dt_ms as i128;
    if ny < i64::MIN as i128 || ny > i64::MAX as i128 {
        return None;
    }
    Some((v as i64, ny as i64))
}

/// The entity after one scroll step, or `None` where the step would leave
/// the integer range.
pub fn scroll_components(c: Components, dt_ms: u32) -> (r: Option<Components>)
    ensures
        scroll_ok(c, dt_ms as int) ==> r == Some(scrolled(c, dt_ms as int)),
        !scroll_ok(c, dt_ms as int) ==> r is None,
{
    match (c.transform, c.scroller) {
        (Some(t), Some(s)) => {
            if s.width < 0 {
                return None;
            }
            match scroll_x(t.x, s.speed, s.width, dt_ms) {
                Some(x) => Some(Components { transform: Some(Transform { x, ..t }), ..c }),
                None => None,
            }
        },
        _ => Some(c),
    }
}

/// The entity after one gravity step, or `None` where the step would leave
/// the integer range.
pub fn fall_components(c: Components, flap: bool, dt_ms: u32) -> (r: Option<Components>)
    ensures
        fall_ok(c, flap, dt_ms as int) ==> r == Some(fallen(c, flap, dt_ms as int)),
        !fall_ok(c, flap, dt_ms as int) ==> r is None,
{
    match (c.transform, c.birb) {
        (Some(t), Some(b)) => {
            match fall(t.y, b.vertical_speed, flap, dt_ms) {
                Some((v, y)) => Some(
                    Components {
                        transform: Some(Transform { y, ..t }),
                        birb: Some(Birb { vertical_speed: v, ..b }),
                        ..c
                    },
                ),
                None => None,
            }
        },
        _ => Some(c),
    }
}

/// Can the scroll system run on this store within the integer ranges?
pub fn can_scroll(world: &World, dt_ms: u32) -> (r: bool)
    ensures
        r == scroll_all_ok(world@, dt_ms as int),
{
    let n = world.slot_count();
    let mut i: usize = 0;
    while i < n
        invariant
            n == world@.len(),
            i <= n,
            forall|j: int|
                0 <= j < i && world@[j] is Some ==> scroll_ok(#[trigger] world@[j]->Some_0, dt_ms as int),
        decreases n - i,
    {
        if let Some(c) = world.get(EntityId { index: i }) {
            if scroll_components(c, dt_ms).is_none() {
                return false;
            }
        }
        i = i + 1;
    }
    true
}

/// Can the gravity system run on this store within the integer ranges?
pub fn can_fall(world: &World, flap: bool, dt_ms: u32) -> (r: bool)
    ensures
        r == fall_all_ok(world@, flap, dt_ms as int),
{
    let n = world.slot_count();
    let mut i: usize = 0;
    while i < n
        invariant
            n == world@.len(),
            i <= n,
            forall|j: int|
                0 <= j < i && world@[j] is Some ==> fall_ok(
                    #[trigger] world@[j]->Some_0,
                    flap,
                    dt_ms as int,
                ),
        decreases n - i,
    {
        if let Some(c) = world.get(EntityId { index: i }) {
            if fall_components(c, flap, dt_ms).is_none() {
                return false;
            }
        }
        i = i + 1;
    }
    true
}

/// Moves every entity that has a transform and a scroller leftwards, and
/// wraps it round once it has left the screen.
pub struct ScrollScrollables;

impl ScrollScrollables {
    pub fn run(&mut self, world: &mut World, dt_ms: u32)
        requires
            scroll_all_ok(old(world)@, dt_ms as int),
        ensures
            final(world)@ == scroll_world(old(world)@, dt_ms as int),
    {
        let n = world.slot_count();
        let mut i: usize = 0;
        while i < n
            invariant
                n == old(world)@.len(),
                world@.len() == n,
                i <= n,
                scroll_all_ok(old(world)@, dt_ms as int),
                forall|j: int|
                    0 <= j < i ==> world@[j] == scroll_world(old(world)@, dt_ms as int)[j],
                forall|j: int| i <= j < n ==> world@[j] == old(world)@[j],
            decreases n - i,
        {
            let id = EntityId { index: i };
            if let Some(c) = world.get(id) {
                assert(scroll_ok(old(world)@[i as int]->Some_0, dt_ms as int));
                if let Some(next) = scroll_components(c, dt_ms) {
                    world.set(id, next);
                }
            }
            i = i + 1;
        }
        assert(world@ =~= scroll_world(old(world)@, dt_ms as int));
    }
}

/// Pulls every entity that has a transform and a `Birb` down, after
/// setting its vertical speed to `FLAP_SPEED` when the flap action is down.
pub struct BirbGravity {
    pub fired: bool,
}

impl BirbGravity {
    pub fn new() -> (r: BirbGravity)
        ensures
            !r.fired,
    {
        BirbGravity { fired: false }
    }

    pub fn run(&mut self, world: &mut World, flap: bool, dt_ms: u32)
        requires
            fall_all_ok(old(world)@, flap, dt_ms as int),
        ensures
            final(world)@ == fall_world(old(world)@, flap, dt_ms as int),
    {
        let n = world.slot_count();
        let mut i: usize = 0;
        while i < n
            invariant
                n == old(world)@.len(),
                world@.len() == n,
                i <= n,
                fall_all_ok(old(world)@, flap, dt_ms as int),
                forall|j: int|
                    0 <= j < i ==> world@[j] == fall_world(old(world)@, flap, dt_ms as int)[j],
                forall|j: int| i <= j < n ==> world@[j] == old(world)@[j],
            decreases n - i,
        {
            let id = EntityId { index: i };
            if let Some(c) = world.get(id) {
                assert(fall_ok(old(world)@[i as int]->Some_0, flap, dt_ms as int));
                if let Some(next) = fall_components(c, flap, dt_ms) {
                    world.set(id, next);
                }
            }
            i = i + 1;
        }
        assert(world@ =~= fall_world(old(world)@, flap, dt_ms as int));
    }
}

/// Position after `n` scroll steps of `dt` milliseconds each.
pub open spec fn scroll_iter(x: int, speed: int, width: int, dt: int, n: nat) -> int
    decreases n,
{
    if n == 0 {
        x
    } else {
        scroll_iter(scrolled_x(x, speed, width, dt), speed, width, dt, (n - 1) as nat)
    }
}

/// Vertical position and speed after `n` gravity steps of `dt` milliseconds
/// each, without a flap.
pub open spec fn fall_iter(y: int, v: int, dt: int, n: nat) -> (int, int)
    decreases n,
{
    if n == 0 {
        (y, v)
    } else {
        fall_iter(fallen_y(y, v, false, dt), fallen_speed(v, false, dt), dt, (n - 1) as nat)
    }
}

/// A scroll step of a leftward scroller either wraps round to
/// `3 * width / 2`, after the tile's right edge passed the left border, or
/// does not move it rightwards; with a positive time step it moves strictly
/// leftwards.
pub proof fn lemma_scroll_step_moves_left(x: int, speed: int, width: int, dt: int)
    requires
        speed < 0,
        width > 0,
        dt >= 0,
    ensures
        ({
            let r = scrolled_x(x, speed, width, dt);
            ||| 2 * (x + speed * dt) + width < 0 && r == 3 * width / 2
            ||| r == x + speed * dt && r <= x && (dt > 0 ==> r < x)
        }),
{
    assert(speed * dt <= 0) by (nonlinear_arith)
        requires
            speed < 0,
            dt >= 0,
    ;
    assert(dt > 0 ==> speed * dt < 0) by (nonlinear_arith)
        requires
            speed < 0,
    ;
}

/// From any start, a leftward scroller with a positive time step wraps round
/// after finitely many steps: the `n`-th step is the first wrap, it puts the
/// scroller at `3 * width / 2` (inside `[width / 2, 3 * width / 2]`), and
/// each step before it moves the scroller strictly leftwards.
pub proof fn lemma_scroll_wraps(x: int, speed: int, width: int, dt: int) -> (n: nat)
    requires
        speed < 0,
        width > 0,
        dt > 0,
    ensures
        n >= 1,
        scroll_iter(x, speed, width, dt, n) == 3 * width / 2,
        width / 2 <= 3 * width / 2,
        forall|k: nat|
            k + 1 < n ==> #[trigger] scroll_iter(x, speed, width, dt, k + 1) < scroll_iter(
                x,
                speed,
                width,
                dt,
                k,
            ) && 2 * scroll_iter(x, speed, width, dt, k + 1) + width >= 0,
    decreases x + width,
{
    lemma_scroll_step_moves_left(x, speed, width, dt);
    let x1 = scrolled_x(x, speed, width, dt);
    assert(scroll_iter(x, speed, width, dt, 1) == scroll_iter(x1, speed, width, dt, 0));
    if 2 * (x + speed * dt) + width < 0 {
        1
    } else {
        let m = lemma_scroll_wraps(x1, speed, width, dt);
        assert forall|k: nat|
            k + 1 < m + 1 implies #[trigger] scroll_iter(x, speed, width, dt, k + 1) < scroll_iter(
                x,
                speed,
                width,
                dt,
                k,
            ) && 2 * scroll_iter(x, speed, width, dt, k + 1) + width >= 0 by {
            assert(scroll_iter(x, speed, width, dt, k + 1) == scroll_iter(x1, speed, width, dt, k));
            if k > 0 {
                let j = (k - 1) as nat;
                assert(scroll_iter(x, speed, width, dt, j + 1) == scroll_iter(
                    x1,
                    speed,
                    width,
                    dt,
                    j,
                ));
                assert(scroll_iter(x1, speed, width, dt, j + 1) < scroll_iter(
                    x1,
                    speed,
                    width,
                    dt,
                    j,
                ));
            }
        }
        assert(scroll_iter(x, speed, width, dt, m + 1) == scroll_iter(x1, speed, width, dt, m));
        m + 1
    }
}

/// A flap sets the vertical speed to `FLAP_SPEED` before gravity acts in the
/// same step, whatever the speed was: the speed after the step is
/// `FLAP_SPEED - GRAVITY * dt`.
pub proof fn lemma_flap_resets_speed(v: int, dt: int)
    ensures
        fallen_speed(v, true, dt) == FLAP_SPEED - GRAVITY * dt,
        fallen_speed(v, true, dt) == fallen_speed(0, true, dt),
{
}

/// Without a flap, `n` gravity steps of `dt` milliseconds from speed `v0`
/// and height `y0` end at speed `v0 - GRAVITY * dt * n` and at height
/// `y0 + dt * (v1 + ... + vn)`, where `vi = v0 - GRAVITY * dt * i` is the
/// speed after step `i` (the speed is updated before the position).
pub proof fn lemma_fall_without_flap(y0: int, v0: int, dt: int, n: nat)
    ensures
        fall_iter(y0, v0, dt, n).1 == v0 - GRAVITY * dt * n,
        fall_iter(y0, v0, dt, n).0 == y0 + dt * (n * v0 - GRAVITY * dt * (n * (n + 1) / 2)),
    decreases n,
{
    if n > 0 {
        let m = (n - 1) as nat;
        let y1 = fallen_y(y0, v0, false, dt);
        let v1 = fallen_speed(v0, false, dt);
        lemma_fall_without_flap(y1, v1, dt, m);
        assert(n * (n + 1) / 2 == m * (m + 1) / 2 + n) by (nonlinear_arith)
            requires
                m == n - 1,
                n > 0,
        ;
        let g = GRAVITY as int;
        let t = m * (m + 1) / 2;
        assert(y1 + dt * (m * v1 - g * dt * t) == y0 + dt * (n * v0 - g * dt * (t + n)))
            by (nonlinear_arith)
            requires
                y1 == y0 + (v0 - g * dt) * dt,
                v1 == v0 - g * dt,
                m == n - 1,
        ;
        assert(v1 - g * dt * m == v0 - g * dt * n) by (nonlinear_arith)
            requires
                v1 == v0 - g * dt,
                m == n - 1,
        ;
        assert(fall_iter(y0, v0, dt, n) == fall_iter(y1, v1, dt, m));
        assert(g * dt * (t + n) == g * dt * (n * (n + 1) / 2));
    } else {
        assert(dt * (n * v0 - GRAVITY * dt * (n * (n + 1) / 2)) == 0) by (nonlinear_arith)
            requires
                n == 0,
        ;
    }
}

} // verus!
