use vstd::prelude::*;

verus! {

/// Position, layering and scale of an entity. Written by the systems during a
/// tick, read by the renderer.
#[derive(Clone, Copy, Debug, PartialEq, Eq, Structural)]
pub struct Transform {
    /// Horizontal position, in micro-units.
    pub x: i64,
    /// Vertical position, in micro-units.
    pub y: i64,
    /// Layer, in micro-units (higher draws on top).
    pub z: i64,
    /// Uniform display scale factor.
    pub scale: u32,
}

/// An entity that scrolls leftwards and wraps round to tile the screen.
#[derive(Clone, Copy, Debug, PartialEq, Eq, Structural)]
pub struct TiledScroller {
    /// Horizontal speed, in milli-units per second (negative: leftwards).
    pub speed: i64,
    /// Width of one tile, in micro-units.
    pub width: i64,
    /// Height of one tile, in micro-units.
    pub height: i64,
    /// Lane index of the tile.
    pub position: i64,
}

impl TiledScroller {
    /// A scroller moves leftwards and has a positive width: the wrap-around
    /// rule relies on both.
    pub open spec fn wf(&self) -> bool {
        self.speed < 0 && self.width > 0
    }
}

/// The player entity, pulled down by gravity and pushed up by a flap.
#[derive(Clone, Copy, Debug, PartialEq, Eq, Structural)]
pub struct Birb {
    /// Vertical speed, in milli-units per second (positive: upwards).
    pub vertical_speed: i64,
    /// Height at which the player started, in micro-units (carried, not read).
    pub starting_height: i64,
    /// Lane index (carried, not read).
    pub position: i64,
}

/// An opaque reference to one image of the sprite sheet.
#[derive(Clone, Copy, Debug, PartialEq, Eq, Structural)]
pub struct SpriteHandle {
    pub sprite_number: usize,
}

/// A two-dimensional camera covering an area of the given size, in micro-units.
#[derive(Clone, Copy, Debug, PartialEq, Eq, Structural)]
pub struct Camera {
    pub width: i64,
    pub height: i64,
}

/// The components attached to one entity; each kind at most once.
#[derive(Clone, Copy, Debug, PartialEq, Eq, Structural)]
pub struct Components {
    pub transform: Option<Transform>,
    pub scroller: Option<TiledScroller>,
    pub birb: Option<Birb>,
    pub sprite: Option<SpriteHandle>,
    pub camera: Option<Camera>,
}

/// Which component kinds a query asks for: an entity matches when it has
/// every kind that is set.
#[derive(Clone, Copy, Debug, PartialEq, Eq, Structural)]
pub struct ComponentSet {
    pub transform: bool,
    pub scroller: bool,
    pub birb: bool,
    pub sprite: bool,
    pub camera: bool,
}

impl Components {
    /// An entity with no component at all.
    pub fn empty() -> (r: Components)
        ensures
            r == Components::spec_empty(),
    {
        Components { transform: None, scroller: None, birb: None, sprite: None, camera: None }
    }

    pub open spec fn spec_empty() -> Components {
        Components { transform: None, scroller: None, birb: None, sprite: None, camera: None }
    }

    /// Does this entity have every component kind that `q` asks for?
    pub open spec fn spec_has_all(&self, q: ComponentSet) -> bool {
        &&& q.transform ==> self.transform.is_some()
        &&& q.scroller ==> self.scroller.is_some()
        &&& q.birb ==> self.birb.is_some()
        &&& q.sprite ==> self.sprite.is_some()
        &&& q.camera ==> self.camera.is_some()
    }

    pub fn has_all(&self, q: ComponentSet) -> (r: bool)
        ensures
            r == self.spec_has_all(q),
    {
        (!q.transform || self.transform.is_some()) && (!q.scroller || self.scroller.is_some())
            && (!q.birb || self.birb.is_some()) && (!q.sprite || self.sprite.is_some())
            && (!q.camera || self.camera.is_some())
    }
}

} // verus!
