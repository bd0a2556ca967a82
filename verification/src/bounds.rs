//! Where an entity can ever be: the box it stays in and the speed it keeps
//! to. This is what keeps the arithmetic of a step inside the machine's
//! numbers.

use vstd::prelude::*;
use crate::entity::{spawned, Entity, EntityView, Metrics, GRAVITY};
use crate::fixed::{HALF, ONE};

verus! {

/// No entity ever falls faster than this: 65536 a tick, in raw units.
pub const TOP_SPEED: i64 = 0x100_0000_0000;

/// The greatest `y` at which an entity is not past the floor.
pub open spec fn floor_limit(m: Metrics) -> int {
    (m.window_height - m.item_height) * ONE
}

/// The greatest `x` at which an entity is not past the right edge.
pub open spec fn right_limit(m: Metrics) -> int {
    (m.window_width - m.item_width) * ONE
}

/// The `x` at which every entity is spawned.
pub open spec fn start_x(m: Metrics) -> int {
    m.window_width * HALF
}

/// The least of the left edge, the right limit and the starting point.
pub open spec fn leftmost(m: Metrics) -> int {
    let a = if right_limit(m) < 0 {
        right_limit(m)
    } else {
        0
    };
    if start_x(m) < a {
        start_x(m)
    } else {
        a
    }
}

/// The greatest of the left edge, the right limit and the starting point.
pub open spec fn rightmost(m: Metrics) -> int {
    let a = if right_limit(m) > 0 {
        right_limit(m)
    } else {
        0
    };
    if start_x(m) > a {
        start_x(m)
    } else {
        a
    }
}

/// The lower of the floor limit and the top of the display.
pub open spec fn lowest(m: Metrics) -> int {
    if floor_limit(m) > 0 {
        floor_limit(m)
    } else {
        0
    }
}

/// The most that the energy of an entity can be: what it has right after the
/// hardest kick from just past the floor, or what it is spawned with.
pub open spec fn energy_cap(m: Metrics) -> int {
    let kicked = 100 * ONE * ONE - 2 * GRAVITY * floor_limit(m);
    if kicked > 0 {
        kicked
    } else {
        0
    }
}

impl EntityView {
    /// The square of the vertical velocity less what the fall so far accounts
    /// for. A tick without a kick lowers it by the square of gravity.
    pub open spec fn energy(self) -> int {
        self.vy * self.vy - 2 * GRAVITY * self.y
    }

    /// The entity is where a run can bring it: no further than five past the
    /// place where it turns round or was spawned, no faster sideways than
    /// five, rising slower than ten, and with no more energy than a kick or
    /// the fall from the top gives.
    pub open spec fn bounded(self, m: Metrics) -> bool {
        &&& leftmost(m) - 5 * ONE <= self.x <= rightmost(m) + 5 * ONE
        &&& -5 * ONE <= self.vx <= 5 * ONE
        &&& -10 * ONE <= self.vy <= TOP_SPEED
        &&& self.y <= lowest(m) + TOP_SPEED
        &&& self.energy() <= energy_cap(m)
    }
}

/// A new entity is bounded.
pub proof fn lemma_spawned_bounded(m: Metrics, palette: int, word: u64)
    ensures
        spawned(m.window_width as int, palette, word).bounded(m),
{
}

/// A bounded entity never comes higher than two hundred above the floor
/// limit, or above the top of the display where that is higher.
pub proof fn lemma_bounded_height(e: EntityView, m: Metrics)
    requires
        e.bounded(m),
    ensures
        e.y >= 0 || e.y >= floor_limit(m) - 200 * ONE,
{
    assert(e.vy * e.vy >= 0) by (nonlinear_arith);
}

/// The numbers of a bounded entity are small enough for a step.
pub proof fn lemma_bounded_in_range(e: Entity, m: Metrics)
    requires
        e@.bounded(m),
    ensures
        e.in_range(),
{
    lemma_bounded_height(e@, m);
}

/// A step keeps a bounded entity bounded.
pub proof fn lemma_stepped_bounded(e: EntityView, m: Metrics, word: u64)
    requires
        e.bounded(m),
    ensures
        e.stepped(m, word).bounded(m),
{
    let next = e.stepped(m, word);
    let g = GRAVITY as int;
    lemma_bounded_height(e, m);
    if e.past_floor(m) {
        // Kicked: the new energy is what the kick gives just past the floor.
        assert(next.vy * (next.vy - 2 * g) <= 100 * ONE * ONE) by (nonlinear_arith)
            requires
                -10 * ONE + g < next.vy <= -5 * ONE + g,
                g == 0x40_0000,
                ONE == 0x100_0000,
        ;
        assert(next.vy * next.vy - 2 * g * next.y == next.vy * (next.vy - 2 * g) - 2 * g * e.y)
            by (nonlinear_arith)
            requires
                next.y == e.y + next.vy,
        ;
    } else {
        // Free: the energy drops by the square of gravity.
        assert(next.vy * next.vy - 2 * g * next.y == e.vy * e.vy - 2 * g * e.y - g * g)
            by (nonlinear_arith)
            requires
                next.vy == e.vy + g,
                next.y == e.y + next.vy,
        ;
        if next.vy > 0 {
            // It fell to at most its own speed past the floor limit, and the
            // energy that it has then caps that speed.
            assert(next.y <= floor_limit(m) + next.vy);
            assert(next.vy * next.vy - 2 * g * next.vy <= energy_cap(m) + 2 * g * floor_limit(m));
            assert(next.vy <= TOP_SPEED) by (nonlinear_arith)
                requires
                    next.vy * next.vy - 2 * g * next.vy <= 0x8000_0000_0000_0000_0000,
                    g == 0x40_0000,
                    next.vy > 0,
            ;
        }
    }
}

} // verus!
