//! One sprite and the rules that spawn and move it.

use vstd::prelude::*;
use crate::fixed::{Fixed, HALF, ONE};
use crate::random::{unit_fraction, unit_from_word};

verus! {

/// What every tick adds to the vertical velocity: a quarter, in raw units.
pub const GRAVITY: i64 = 0x40_0000;

/// The sizes that the host reports once: those of one sprite and those of the
/// display.
#[derive(Clone, Copy, Debug, PartialEq, Eq, Structural)]
pub struct Metrics {
    pub item_width: i32,
    pub item_height: i32,
    pub window_width: i32,
    pub window_height: i32,
}

/// One sprite: the top-left corner of its box, its displacement per tick and
/// the palette it was given when it was spawned.
#[derive(Clone, Copy, Debug, PartialEq, Eq, Structural)]
pub struct Entity {
    pub x: Fixed,
    pub y: Fixed,
    pub vx: Fixed,
    pub vy: Fixed,
    pub palette: i32,
}

/// An `Entity` as plain mathematics. Positions and velocities are counted in
/// raw units of 2^-24.
pub struct EntityView {
    pub x: int,
    pub y: int,
    pub vx: int,
    pub vy: int,
    pub palette: int,
}

impl View for Entity {
    type V = EntityView;

    open spec fn view(&self) -> EntityView {
        EntityView {
            x: self.x@,
            y: self.y@,
            vx: self.vx@,
            vy: self.vy@,
            palette: self.palette as int,
        }
    }
}

/// The horizontal velocity of a new entity: ten times the drawn fraction,
/// less five.
pub open spec fn spawn_velocity(word: u64) -> int {
    10 * unit_fraction(word) - 5 * ONE
}

/// The vertical velocity of an entity kicked off the floor: upward, five plus
/// five times the drawn fraction.
pub open spec fn kick_velocity(word: u64) -> int {
    -(5 * unit_fraction(word) + 5 * ONE)
}

/// A new entity: at the top of the display and half-way across it, with no
/// vertical velocity.
pub open spec fn spawned(window_width: int, palette: int, word: u64) -> EntityView {
    EntityView { x: window_width * HALF, y: 0, vx: spawn_velocity(word), vy: 0, palette }
}

impl EntityView {
    /// The left edge is left of the display and the entity moves left.
    pub open spec fn past_left_edge(self) -> bool {
        self.x < 0 && self.vx < 0
    }

    /// The right edge is beyond the display's width and the entity moves right.
    pub open spec fn past_right_edge(self, m: Metrics) -> bool {
        self.x + m.item_width * ONE > m.window_width * ONE && self.vx > 0
    }

    /// The entity is past either side and still moving outward.
    pub open spec fn bounces_sideways(self, m: Metrics) -> bool {
        self.past_left_edge() || self.past_right_edge(m)
    }

    /// The bottom edge is beyond the display's height.
    pub open spec fn past_floor(self, m: Metrics) -> bool {
        self.y + m.item_height * ONE > m.window_height * ONE
    }

    /// The entity one tick later: the horizontal velocity is reflected at the
    /// sides, the vertical velocity is replaced by a kick at the floor, gravity
    /// is added, and then the entity moves by its new velocity. `word` is the
    /// draw that the kick uses; an entity that is not past the floor ignores it.
    pub open spec fn stepped(self, m: Metrics, word: u64) -> EntityView {
        let vx = if self.bounces_sideways(m) {
            -self.vx
        } else {
            self.vx
        };
        let vy = if self.past_floor(m) {
            kick_velocity(word)
        } else {
            self.vy
        } + GRAVITY;
        EntityView { x: self.x + vx, y: self.y + vy, vx, vy, palette: self.palette }
    }
}

impl Entity {
    /// Every number of the entity is small enough for one step.
    pub open spec fn in_range(self) -> bool {
        self.x.in_range() && self.y.in_range() && self.vx.in_range() && self.vy.in_range()
    }

    /// Makes a new entity from one drawn word.
    pub fn spawn(window_width: i32, palette: i32, word: u64) -> (r: Entity)
        ensures
            r@ == spawned(window_width as int, palette as int, word),
            r.in_range(),
    {
        let unit: Fixed = unit_from_word(word);
        Entity {
            x: Fixed::half_of(window_width),
            y: Fixed::from_raw(0),
            vx: Fixed::from_raw(10 * unit.raw - 5 * ONE),
            vy: Fixed::from_raw(0),
            palette,
        }
    }

    /// Whether the next step reflects the horizontal velocity.
    pub fn is_bouncing_sideways(&self, m: &Metrics) -> (r: bool)
        ensures
            r == self@.bounces_sideways(*m),
    {
        let width: i64 = (m.item_width as i64) * ONE;
        let limit: i64 = (m.window_width as i64) * ONE;
        let right: i128 = self.x.raw as i128 + width as i128;
        (self.x.raw < 0 && self.vx.raw < 0) || (right > limit as i128 && self.vx.raw > 0)
    }

    /// Whether the next step kicks the entity off the floor, and so uses a
    /// draw.
    pub fn is_past_floor(&self, m: &Metrics) -> (r: bool)
        ensures
            r == self@.past_floor(*m),
    {
        let height: i64 = (m.item_height as i64) * ONE;
        let limit: i64 = (m.window_height as i64) * ONE;
        self.y.raw as i128 + height as i128 > limit as i128
    }

    /// Advances the entity by one tick. `word` must be a fresh draw if the
    /// entity is past the floor; otherwise any word does.
    pub fn step(&self, m: &Metrics, word: u64) -> (r: Entity)
        requires
            self.in_range(),
        ensures
            r@ == self@.stepped(*m, word),
    {
        let vx: i64 = if self.is_bouncing_sideways(m) {
            -self.vx.raw
        } else {
            self.vx.raw
        };
        let lifted: i64 = if self.is_past_floor(m) {
            let unit: Fixed = unit_from_word(word);
            -(5 * unit.raw + 5 * ONE)
        } else {
            self.vy.raw
        };
        let vy: i64 = lifted + GRAVITY;
        Entity {
            x: Fixed::from_raw(self.x.raw + vx),
            y: Fixed::from_raw(self.y.raw + vy),
            vx: Fixed::from_raw(vx),
            vy: Fixed::from_raw(vy),
            palette: self.palette,
        }
    }
}

/// Reflection at the sides: an entity that is past a side and still moving
/// outward moves inward after the step, as fast as before; any other entity
/// keeps its horizontal velocity.
pub proof fn lemma_reflection(e: EntityView, m: Metrics, word: u64)
    ensures
        e.bounces_sideways(m) ==> e.stepped(m, word).vx == -e.vx,
        e.past_left_edge() ==> e.stepped(m, word).vx > 0,
        e.past_right_edge(m) ==> e.stepped(m, word).vx < 0,
        !e.bounces_sideways(m) ==> e.stepped(m, word).vx == e.vx,
{
}

/// The kick off the floor: an entity whose bottom edge is beyond the
/// display's height leaves the step with the kick's velocity plus gravity,
/// whatever its vertical velocity was, and the kick points upward with a
/// speed of at least five and less than ten.
pub proof fn lemma_floor_kick(e: EntityView, m: Metrics, word: u64)
    requires
        e.past_floor(m),
    ensures
        e.stepped(m, word).vy == kick_velocity(word) + GRAVITY,
        -10 * ONE < kick_velocity(word) <= -5 * ONE,
{
}

/// A new entity starts half-way across the display and at its top, with a
/// horizontal velocity of at least minus five and less than five and with no
/// vertical velocity.
pub proof fn lemma_spawn_velocity(window_width: int, palette: int, word: u64)
    ensures
        -5 * ONE <= spawned(window_width, palette, word).vx < 5 * ONE,
        spawned(window_width, palette, word).vy == 0,
        2 * spawned(window_width, palette, word).x == window_width * ONE,
        spawned(window_width, palette, word).y == 0,
{
}

/// Gravity adds up: an entity that is at rest vertically and stays above the
/// floor falls at one quarter after one step and at one half after two, and
/// each step moves it down by the velocity it has just reached.
pub proof fn lemma_gravity_accumulates(e: EntityView, m: Metrics, first: u64, second: u64)
    requires
        e.vy == 0,
        !e.past_floor(m),
        !e.stepped(m, first).past_floor(m),
    ensures
        4 * GRAVITY == ONE,
        e.stepped(m, first).vy == GRAVITY,
        e.stepped(m, first).y == e.y + GRAVITY,
        e.stepped(m, first).stepped(m, second).vy == 2 * GRAVITY,
        e.stepped(m, first).stepped(m, second).y == e.stepped(m, first).y + 2 * GRAVITY,
{
}

/// Every step moves the entity by the velocity that it leaves the step with,
/// and above the floor that velocity is the old one plus gravity.
pub proof fn lemma_step_integrates(e: EntityView, m: Metrics, word: u64)
    ensures
        e.stepped(m, word).x == e.x + e.stepped(m, word).vx,
        e.stepped(m, word).y == e.y + e.stepped(m, word).vy,
        !e.past_floor(m) ==> e.stepped(m, word).vy == e.vy + GRAVITY,
        e.stepped(m, word).palette == e.palette,
{
}

/// An entity that is not past the floor moves the same whatever was drawn.
pub proof fn lemma_stepped_without_draw(e: EntityView, m: Metrics, a: u64, b: u64)
    requires
        !e.past_floor(m),
    ensures
        e.stepped(m, a) == e.stepped(m, b),
{
}

} // verus!
