use vstd::prelude::*;
use crate::components::Components;
use crate::systems::{
    can_fall, can_scroll, fall_all_ok, fall_world, fallen, scroll_all_ok, scroll_world, scrolled,
    BirbGravity, ScrollScrollables,
};
use crate::world::World;

verus! {

/// Longest time step that one tick applies, in milliseconds: a longer gap
/// (a stall, a suspended window) is cut down to it.
pub const MAX_TICK_MS: u32 = 250;

/// The systems that run in a tick.
#[derive(Clone, Copy, Debug, PartialEq, Eq, Structural)]
pub struct SystemSet {
    pub scroll: bool,
    pub gravity: bool,
}

/// Every system of `set` can run on `w` within the integer ranges.
pub open spec fn tick_ok(w: Seq<Option<Components>>, set: SystemSet, flap: bool, dt: int) -> bool {
    &&& set.scroll ==> scroll_all_ok(w, dt)
    &&& set.gravity ==> fall_all_ok(w, flap, dt)
}

/// The store after one tick of the systems of `set`.
pub open spec fn ticked(w: Seq<Option<Components>>, set: SystemSet, flap: bool, dt: int) -> Seq<
    Option<Components>,
> {
    let a = if set.scroll {
        scroll_world(w, dt)
    } else {
        w
    };
    if set.gravity {
        fall_world(a, flap, dt)
    } else {
        a
    }
}

/// The time step that a tick applies for `elapsed` milliseconds.
pub open spec fn spec_clamp_dt(elapsed: u64) -> u32 {
    if elapsed > MAX_TICK_MS as u64 {
        MAX_TICK_MS
    } else {
        elapsed as u32
    }
}

pub fn clamp_dt(elapsed_ms: u64) -> (r: u32)
    ensures
        r == spec_clamp_dt(elapsed_ms),
{
    if elapsed_ms > MAX_TICK_MS as u64 {
        MAX_TICK_MS
    } else {
        elapsed_ms as u32
    }
}

/// The scroll system leaves what the gravity system reads as it is, so
/// whether gravity can run does not depend on a scroll step before it.
proof fn lemma_scroll_keeps_fall_ok(w: Seq<Option<Components>>, flap: bool, dt: int)
    ensures
        fall_all_ok(scroll_world(w, dt), flap, dt) == fall_all_ok(w, flap, dt),
{
    let s = scroll_world(w, dt);
    assert forall|i: int| 0 <= i < w.len() && w[i] is Some implies s[i] is Some && (
    #[trigger] s[i]->Some_0).transform.is_some() == w[i]->Some_0.transform.is_some() && s[i]->Some_0.birb
        == w[i]->Some_0.birb && (s[i]->Some_0.transform.is_some() ==> s[i]->Some_0.transform->Some_0.y
        == w[i]->Some_0.transform->Some_0.y) by {}
    if fall_all_ok(w, flap, dt) {
        assert forall|i: int| 0 <= i < s.len() && s[i] is Some implies crate::systems::fall_ok(
            #[trigger] s[i]->Some_0,
            flap,
            dt,
        ) by {
            assert(crate::systems::fall_ok(w[i]->Some_0, flap, dt));
        }
    }
    if fall_all_ok(s, flap, dt) {
        assert forall|i: int| 0 <= i < w.len() && w[i] is Some implies crate::systems::fall_ok(
            #[trigger] w[i]->Some_0,
            flap,
            dt,
        ) by {
            assert(s[i] is Some);
            assert(crate::systems::fall_ok(s[i]->Some_0, flap, dt));
        }
    }
}

/// The two systems of a tick touch disjoint data (the scroll system `x`, the
/// gravity system `y` and the vertical speed), so the order in which they run
/// does not change the outcome.
pub proof fn lemma_systems_commute(w: Seq<Option<Components>>, flap: bool, dt: int)
    ensures
        fall_world(scroll_world(w, dt), flap, dt) == scroll_world(fall_world(w, flap, dt), dt),
{
    let a = fall_world(scroll_world(w, dt), flap, dt);
    let b = scroll_world(fall_world(w, flap, dt), dt);
    assert forall|i: int| 0 <= i < w.len() implies a[i] == b[i] by {
        if let Some(c) = w[i] {
            assert(fallen(scrolled(c, dt), flap, dt) == scrolled(fallen(c, flap, dt), dt));
        }
    }
    assert(a =~= b);
}

/// Runs the systems of `set` once, the scroll system first. Returns `false`
/// and leaves the store as it is where a step would leave the integer range.
pub fn run_systems(world: &mut World, set: SystemSet, flap: bool, dt_ms: u32) -> (r: bool)
    ensures
        r == tick_ok(old(world)@, set, flap, dt_ms as int),
        r ==> final(world)@ == ticked(old(world)@, set, flap, dt_ms as int),
        !r ==> final(world)@ == old(world)@,
{
    if set.scroll && !can_scroll(world, dt_ms) {
        return false;
    }
    if set.gravity && !can_fall(world, flap, dt_ms) {
        return false;
    }
    if set.scroll {
        let mut scroll = ScrollScrollables;
        scroll.run(world, dt_ms);
        proof {
            lemma_scroll_keeps_fall_ok(old(world)@, flap, dt_ms as int);
        }
    }
    if set.gravity {
        let mut gravity = BirbGravity::new();
        gravity.run(world, flap, dt_ms);
    }
    true
}

} // verus!
