use vstd::prelude::*;
use crate::state::{Event, GameState};

verus! {

/// The keys that the game reacts to.
#[derive(Clone, Copy, Debug, PartialEq, Eq, Structural)]
pub enum Key {
    Space,
    Return,
    P,
    Escape,
    Other,
}

/// The named input actions that the game reads each tick or on events.
#[derive(Clone, Copy, Debug, PartialEq, Eq, Structural)]
pub enum Action {
    Flap,
    Confirm,
    Pause,
    Resume,
    Quit,
}

/// The event that a key press means in state `s`. Space starts the game from
/// the menus and flaps while playing (it does not leave the game there);
/// Return confirms everywhere; P pauses and resumes; Escape quits.
pub open spec fn spec_key_event(k: Key, s: GameState) -> Option<Event> {
    match k {
        Key::Space => if s == GameState::Splash || s == GameState::Ready {
            Some(Event::Confirm)
        } else {
            None
        },
        Key::Return => Some(Event::Confirm),
        Key::P => if s == GameState::Paused {
            Some(Event::Resume)
        } else {
            Some(Event::Pause)
        },
        Key::Escape => Some(Event::Quit),
        Key::Other => None,
    }
}

pub fn key_event(k: Key, s: GameState) -> (r: Option<Event>)
    ensures
        r == spec_key_event(k, s),
{
    match k {
        Key::Space => match s {
            GameState::Splash | GameState::Ready => Some(Event::Confirm),
            _ => None,
        },
        Key::Return => Some(Event::Confirm),
        Key::P => match s {
            GameState::Paused => Some(Event::Resume),
            _ => Some(Event::Pause),
        },
        Key::Escape => Some(Event::Quit),
        Key::Other => None,
    }
}

/// Every action, in a fixed order.
pub open spec fn all_actions() -> Seq<Action> {
    seq![Action::Flap, Action::Confirm, Action::Pause, Action::Resume, Action::Quit]
}

/// The first action, in the order of `all_actions`, that `bound` lacks; `None`
/// when every action is bound. A missing action is a startup error.
pub fn missing_action(bound: &Vec<Action>) -> (r: Option<Action>)
    ensures
        r is None <==> (forall|a: Action| bound@.contains(a)),
        r matches Some(a) ==> !bound@.contains(a),
{
    let mut wanted: Vec<Action> = Vec::new();
    wanted.push(Action::Flap);
    wanted.push(Action::Confirm);
    wanted.push(Action::Pause);
    wanted.push(Action::Resume);
    wanted.push(Action::Quit);
    assert(wanted@ =~= all_actions());
    let mut i: usize = 0;
    while i < wanted.len()
        invariant
            wanted@ == all_actions(),
            i <= wanted@.len(),
            forall|j: int| 0 <= j < i ==> bound@.contains(#[trigger] wanted@[j]),
        decreases wanted@.len() - i,
    {
        let a = wanted[i];
        let mut found = false;
        let mut k: usize = 0;
        while k < bound.len()
            invariant
                k <= bound@.len(),
                found == exists|m: int| 0 <= m < k && bound@[m] == a,
            decreases bound@.len() - k,
        {
            if bound[k] == a {
                found = true;
            }
            k = k + 1;
        }
        if !found {
            assert(!bound@.contains(a));
            return Some(a);
        }
        i = i + 1;
    }
    proof {
        assert forall|a: Action| bound@.contains(a) by {
            let j: int = match a {
                Action::Flap => 0,
                Action::Confirm => 1,
                Action::Pause => 2,
                Action::Resume => 3,
                Action::Quit => 4,
            };
            assert(wanted@[j] == a);
        }
    }
    None
}

} // verus!
