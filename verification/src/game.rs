//! The whole simulation: its state and the operations that the host drives
//! it with.

use vstd::arithmetic::div_mod::{
    lemma_add_mod_noop_right, lemma_mod_bound, lemma_mod_twice, lemma_small_mod,
};
use vstd::prelude::*;
use crate::bounds::{lemma_bounded_in_range, lemma_spawned_bounded, lemma_stepped_bounded};
use crate::entity::{
    kick_velocity, lemma_floor_kick, lemma_stepped_without_draw, spawned, Entity, EntityView,
    Metrics, GRAVITY,
};
use crate::fixed::truncated;
use crate::random::{draw_word, drawn_word, lemma_seed_after_draws_add, seed_after_draws};

verus! {

/// How many entities one batch spawns.
pub const AMOUNT: usize = 5;

/// The colour index that a frame is cleared to.
pub const BACKGROUND: i32 = 0;

/// The index of the one sprite that stands for every entity.
pub const SPRITE_INDEX: i32 = 0;

/// The seed that every simulation starts from.
pub const SEED: u64 = 0xBEEF;

/// Everything the simulation holds. Entities are kept in the order in which
/// they were spawned and are never removed; nothing caps their number.
pub struct GameState {
    entities: Vec<Entity>,
    metrics: Metrics,
    palette_tracker: i32,
    palette_count: i32,
    seed: u64,
}

/// One call for the host to draw a sprite.
#[derive(Clone, Copy, Debug, PartialEq, Eq, Structural)]
pub struct Sprite {
    /// The palette of the entity's rendering parameters; every other
    /// rendering attribute is zero.
    pub palette: i32,
    /// The index of the sprite to draw.
    pub index: i32,
    pub x: i32,
    pub y: i32,
}

/// What the host is to do for one frame: clear to `background`, then draw
/// `sprites` from first to last, so that later entities lie on top.
pub struct Frame {
    pub background: i32,
    pub sprites: Vec<Sprite>,
}

/// A `GameState` as plain mathematics.
pub struct GameView {
    pub entities: Seq<EntityView>,
    pub metrics: Metrics,
    pub palette_tracker: int,
    pub palette_count: int,
    pub seed: u64,
}

impl GameView {
    /// There is a palette to give, the entity at place `i` has palette
    /// `i mod palette_count`, the tracker names the palette that the next
    /// entity gets, and every entity is where a run can bring it.
    pub open spec fn wf(self) -> bool {
        &&& 0 < self.palette_count <= i32::MAX
        &&& self.palette_tracker == (self.entities.len() as int) % self.palette_count
        &&& forall|i: int|
            0 <= i < self.entities.len() ==> (#[trigger] self.entities[i]).palette == i
                % self.palette_count
        &&& forall|i: int|
            0 <= i < self.entities.len() ==> (#[trigger] self.entities[i]).bounded(self.metrics)
    }

    /// The state before anything is spawned.
    pub open spec fn empty(metrics: Metrics, palette_count: int) -> GameView {
        GameView { entities: Seq::empty(), metrics, palette_tracker: 0, palette_count, seed: SEED }
    }

    /// The entity that comes `i`-th in a batch spawned from this state: each
    /// takes the next palette and the next draw.
    pub open spec fn spawn_at(self, i: nat) -> EntityView {
        spawned(
            self.metrics.window_width as int,
            (self.palette_tracker + i) % self.palette_count,
            drawn_word(seed_after_draws(self.seed, i)),
        )
    }

    /// The state after a batch of `count` entities is spawned.
    pub open spec fn with_spawned(self, count: nat) -> GameView {
        GameView {
            entities: self.entities + Seq::new(count, |i: int| self.spawn_at(i as nat)),
            palette_tracker: (self.palette_tracker + count) % self.palette_count,
            seed: seed_after_draws(self.seed, count),
            ..self
        }
    }

    /// How many of the first `k` entities are past the floor: the number of
    /// draws that a tick has made when it reaches entity `k`.
    pub open spec fn kicks_before(self, k: nat) -> nat
        decreases k,
    {
        if k == 0 {
            0
        } else {
            self.kicks_before((k - 1) as nat) + if self.entities[k - 1].past_floor(self.metrics) {
                1nat
            } else {
                0nat
            }
        }
    }

    /// Entity `i` one tick later. Entities do not meet: each moves by its own
    /// state, and one that is past the floor takes the tick's next draw.
    pub open spec fn moved_at(self, i: int) -> EntityView {
        self.entities[i].stepped(
            self.metrics,
            drawn_word(seed_after_draws(self.seed, self.kicks_before(i as nat))),
        )
    }

    /// The state after every entity has moved by one tick.
    pub open spec fn moved(self) -> GameView {
        GameView {
            entities: Seq::new(self.entities.len(), |i: int| self.moved_at(i)),
            seed: seed_after_draws(self.seed, self.kicks_before(self.entities.len())),
            ..self
        }
    }

    /// The state after one update: a batch is spawned first if the button
    /// signal is not zero, then every entity moves, the new ones too.
    pub open spec fn updated(self, button_a: i32) -> GameView {
        if button_a != 0 {
            self.with_spawned(AMOUNT as nat).moved()
        } else {
            self.moved()
        }
    }

    /// The state that a simulation starts in.
    pub open spec fn initial(metrics: Metrics, palette_count: int) -> GameView {
        GameView::empty(metrics, palette_count).with_spawned(AMOUNT as nat)
    }

    /// The state after one update for each signal in `buttons`, in order.
    pub open spec fn after_updates(self, buttons: Seq<i32>) -> GameView
        decreases buttons.len(),
    {
        if buttons.len() == 0 {
            self
        } else {
            self.after_updates(buttons.drop_last()).updated(buttons.last())
        }
    }

    /// The draw call for entity `i`: its palette, and its position with the
    /// fractions cut off.
    pub open spec fn sprite_at(self, i: int) -> Sprite {
        Sprite {
            palette: self.entities[i].palette as i32,
            index: SPRITE_INDEX,
            x: truncated(self.entities[i].x) as i32,
            y: truncated(self.entities[i].y) as i32,
        }
    }
}

impl View for GameState {
    type V = GameView;

    closed spec fn view(&self) -> GameView {
        GameView {
            entities: Seq::new(self.entities@.len(), |i: int| self.entities@[i]@),
            metrics: self.metrics,
            palette_tracker: self.palette_tracker as int,
            palette_count: self.palette_count as int,
            seed: self.seed,
        }
    }
}

impl GameState {
    /// The state is one that `init` and the operations after it can leave.
    pub open spec fn wf(&self) -> bool {
        self@.wf()
    }

    /// How many entities there are.
    pub fn entity_count(&self) -> (n: usize)
        ensures
            n == self@.entities.len(),
    {
        self.entities.len()
    }

    /// The entity that was spawned `i`-th, counted from zero, if there is one.
    pub fn entity(&self, i: usize) -> (r: Option<Entity>)
        ensures
            i < self@.entities.len() ==> r.is_some() && r.unwrap()@ == self@.entities[i as int],
            i >= self@.entities.len() ==> r.is_none(),
    {
        if i < self.entities.len() {
            Some(self.entities[i])
        } else {
            None
        }
    }

    /// The sizes that the host reported.
    pub fn metrics(&self) -> (m: Metrics)
        ensures
            m == self@.metrics,
    {
        self.metrics
    }

    /// How many palettes the host reported.
    pub fn palette_count(&self) -> (n: i32)
        ensures
            n == self@.palette_count,
    {
        self.palette_count
    }

    /// The palette that the next entity gets.
    pub fn palette_tracker(&self) -> (n: i32)
        ensures
            n == self@.palette_tracker,
    {
        self.palette_tracker
    }

    /// The seed that the generator holds now.
    pub fn seed(&self) -> (s: u64)
        ensures
            s == self@.seed,
    {
        self.seed
    }
}

/// How many of the signals in `buttons` say that the spawn control is held.
pub open spec fn held_count(buttons: Seq<i32>) -> nat
    decreases buttons.len(),
{
    if buttons.len() == 0 {
        0
    } else {
        held_count(buttons.drop_last()) + if buttons.last() != 0 {
            1nat
        } else {
            0nat
        }
    }
}

/// Spawning keeps a well-formed state well-formed and adds `count` entities
/// behind those that are there.
pub proof fn lemma_with_spawned_wf(s: GameView, count: nat)
    requires
        s.wf(),
    ensures
        s.with_spawned(count).wf(),
        s.with_spawned(count).entities.len() == s.entities.len() + count,
{
    let t = s.with_spawned(count);
    let p = s.palette_count;
    let n = s.entities.len() as int;
    lemma_add_mod_noop_right(count as int, n, p);
    assert forall|i: int| 0 <= i < t.entities.len() implies (#[trigger] t.entities[i]).palette == i
        % p && t.entities[i].bounded(t.metrics) by {
        if i >= n {
            let j = i - n;
            assert(t.entities[i] == s.spawn_at(j as nat));
            lemma_add_mod_noop_right(j, n, p);
            lemma_spawned_bounded(
                s.metrics,
                (s.palette_tracker + j) % p,
                drawn_word(seed_after_draws(s.seed, j as nat)),
            );
        } else {
            assert(t.entities[i] == s.entities[i]);
        }
    }
}

/// Moving keeps a well-formed state well-formed, and keeps every entity.
pub proof fn lemma_moved_wf(s: GameView)
    requires
        s.wf(),
    ensures
        s.moved().wf(),
        s.moved().entities.len() == s.entities.len(),
{
    let t = s.moved();
    assert forall|i: int| 0 <= i < t.entities.len() implies (#[trigger] t.entities[i]).palette == i
        % s.palette_count && t.entities[i].bounded(t.metrics) by {
        assert(s.entities[i].bounded(s.metrics));
        lemma_stepped_bounded(
            s.entities[i],
            s.metrics,
            drawn_word(seed_after_draws(s.seed, s.kicks_before(i as nat))),
        );
    }
}

/// An update keeps a well-formed state well-formed. It adds one batch when
/// the spawn control is held and no entity otherwise, and never removes one.
pub proof fn lemma_updated_wf(s: GameView, button_a: i32)
    requires
        s.wf(),
    ensures
        s.updated(button_a).wf(),
        button_a != 0 ==> s.updated(button_a).entities.len() == s.entities.len() + AMOUNT,
        button_a == 0 ==> s.updated(button_a).entities.len() == s.entities.len(),
{
    lemma_with_spawned_wf(s, AMOUNT as nat);
    lemma_moved_wf(s);
    lemma_moved_wf(s.with_spawned(AMOUNT as nat));
}

/// What the host reported stays as it was reported.
pub proof fn lemma_metrics_fixed(s: GameView, buttons: Seq<i32>)
    ensures
        s.after_updates(buttons).palette_count == s.palette_count,
        s.after_updates(buttons).metrics == s.metrics,
    decreases buttons.len(),
{
    if buttons.len() > 0 {
        lemma_metrics_fixed(s, buttons.drop_last());
    }
}

/// The entity count of a run: a simulation starts with one batch, and after
/// any number of updates it holds one more batch for each update during which
/// the spawn control was held.
pub proof fn lemma_entity_count(metrics: Metrics, palette_count: i32, buttons: Seq<i32>)
    requires
        palette_count > 0,
    ensures
        GameView::initial(metrics, palette_count as int).entities.len() == AMOUNT,
        GameView::initial(metrics, palette_count as int).after_updates(buttons).wf(),
        GameView::initial(metrics, palette_count as int).after_updates(buttons).entities.len()
            == AMOUNT * (1 + held_count(buttons)),
    decreases buttons.len(),
{
    let start = GameView::initial(metrics, palette_count as int);
    lemma_small_mod(0, palette_count as nat);
    lemma_with_spawned_wf(GameView::empty(metrics, palette_count as int), AMOUNT as nat);
    if buttons.len() > 0 {
        lemma_entity_count(metrics, palette_count, buttons.drop_last());
        lemma_updated_wf(start.after_updates(buttons.drop_last()), buttons.last());
    }
}

/// Palettes go round: in every state of a run, the entity that was spawned
/// `i`-th, counted from zero over all batches, has palette
/// `i mod palette_count`.
pub proof fn lemma_palettes_cycle(
    metrics: Metrics,
    palette_count: i32,
    buttons: Seq<i32>,
    i: int,
)
    requires
        palette_count > 0,
        0 <= i < GameView::initial(metrics, palette_count as int).after_updates(
            buttons,
        ).entities.len(),
    ensures
        GameView::initial(metrics, palette_count as int).after_updates(buttons).entities[i].palette
            == i % (palette_count as int),
{
    let end = GameView::initial(metrics, palette_count as int).after_updates(buttons);
    lemma_entity_count(metrics, palette_count, buttons);
    lemma_metrics_fixed(GameView::initial(metrics, palette_count as int), buttons);
    assert(end.entities[i].palette == i % end.palette_count);
}

/// A run is determined by where it starts and by which updates found the
/// spawn control held: two simulations that start in the same state and see
/// the same signals end in the same state, with the same positions and
/// velocities and the same seed.
pub proof fn lemma_runs_agree(a: GameView, b: GameView, first: Seq<i32>, second: Seq<i32>)
    requires
        a == b,
        first.len() == second.len(),
        forall|k: int| 0 <= k < first.len() ==> (first[k] != 0) == (second[k] != 0),
    ensures
        a.after_updates(first) == b.after_updates(second),
    decreases first.len(),
{
    if first.len() > 0 {
        lemma_runs_agree(a, b, first.drop_last(), second.drop_last());
    }
}

/// A tick draws once for each entity that is past the floor, and not at all
/// for any other: the draw that kicks entity `i` is the one that follows the
/// draws for the entities before it, and the entity after it finds the
/// generator one draw further.
pub proof fn lemma_kick_draws_once(s: GameView, i: int)
    requires
        0 <= i < s.entities.len(),
    ensures
        s.entities[i].past_floor(s.metrics) ==> s.kicks_before((i + 1) as nat) == s.kicks_before(
            i as nat,
        ) + 1 && s.moved().entities[i].vy == kick_velocity(
            drawn_word(seed_after_draws(s.seed, s.kicks_before(i as nat))),
        ) + GRAVITY,
        !s.entities[i].past_floor(s.metrics) ==> s.kicks_before((i + 1) as nat) == s.kicks_before(
            i as nat,
        ),
        s.moved().seed == seed_after_draws(s.seed, s.kicks_before(s.entities.len())),
{
    if s.entities[i].past_floor(s.metrics) {
        lemma_floor_kick(
            s.entities[i],
            s.metrics,
            drawn_word(seed_after_draws(s.seed, s.kicks_before(i as nat))),
        );
    }
}

/// The draws of an update: five for a batch if the spawn control is held,
/// then one for each entity that is past the floor when it is moved, and no
/// other.
pub proof fn lemma_update_draws(s: GameView, button_a: i32)
    ensures
        button_a == 0 ==> s.updated(button_a).seed == seed_after_draws(
            s.seed,
            s.kicks_before(s.entities.len()),
        ),
        button_a != 0 ==> s.updated(button_a).seed == seed_after_draws(
            s.seed,
            AMOUNT as nat + s.with_spawned(AMOUNT as nat).kicks_before(
                s.entities.len() + AMOUNT as nat,
            ),
        ),
{
    let t = s.with_spawned(AMOUNT as nat);
    lemma_seed_after_draws_add(s.seed, AMOUNT as nat, t.kicks_before(t.entities.len()));
}

/// Spawns `count` entities, one after the other. The tracker is brought back
/// below the palette count after each entity, so that no batch, however
/// large, can run it out of its type.
pub fn add_items(state: &mut GameState, count: usize)
    requires
        old(state).wf(),
    ensures
        final(state).wf(),
        final(state)@ == old(state)@.with_spawned(count as nat),
{
    let ghost before = state@;
    proof {
        lemma_mod_twice(before.entities.len() as int, before.palette_count);
    }
    let mut i: usize = 0;
    while i < count
        invariant
            i <= count,
            before.wf(),
            state@.metrics == before.metrics,
            state@.palette_count == before.palette_count,
            state@.entities == before.entities + Seq::new(
                i as nat,
                |j: int| before.spawn_at(j as nat),
            ),
            state@.palette_tracker == (before.palette_tracker + i) % before.palette_count,
            state@.seed == seed_after_draws(before.seed, i as nat),
        decreases count - i,
    {
        proof {
            lemma_mod_twice(before.palette_tracker + i, before.palette_count);
            lemma_mod_bound(before.palette_tracker + i, before.palette_count);
            lemma_add_mod_noop_right(1, before.palette_tracker + i, before.palette_count);
        }
        let ghost prior = state@.entities;
        let (word, next) = draw_word(state.seed);
        let palette: i32 = state.palette_tracker % state.palette_count;
        state.entities.push(Entity::spawn(state.metrics.window_width, palette, word));
        state.palette_tracker = (state.palette_tracker + 1) % state.palette_count;
        state.seed = next;
        proof {
            assert(state@.entities =~= prior.push(before.spawn_at(i as nat)));
            assert(state@.entities =~= before.entities + Seq::new(
                (i + 1) as nat,
                |j: int| before.spawn_at(j as nat),
            ));
        }
        i += 1;
    }
    proof {
        lemma_with_spawned_wf(before, count as nat);
    }
}

/// Sets up the simulation from what the host reports and spawns the first
/// batch.
pub fn init(metrics: Metrics, palette_count: i32) -> (state: GameState)
    requires
        palette_count > 0,
    ensures
        state.wf(),
        state@ == GameView::initial(metrics, palette_count as int),
        state@.entities.len() == AMOUNT,
{
    let mut state = GameState {
        entities: Vec::new(),
        metrics,
        palette_tracker: 0,
        palette_count,
        seed: SEED,
    };
    proof {
        lemma_small_mod(0, palette_count as nat);
        assert(state@.entities =~= Seq::empty());
    }
    add_items(&mut state, AMOUNT);
    state
}

/// Moves every entity by one tick, from first to last.
pub fn move_items(state: &mut GameState)
    requires
        old(state).wf(),
    ensures
        final(state).wf(),
        final(state)@ == old(state)@.moved(),
{
    let ghost before = state@;
    let count: usize = state.entities.len();
    let mut i: usize = 0;
    while i < count
        invariant
            i <= count,
            before.wf(),
            count == before.entities.len(),
            state@.entities.len() == count,
            state@.metrics == before.metrics,
            state@.palette_count == before.palette_count,
            state@.palette_tracker == before.palette_tracker,
            state@.seed == seed_after_draws(before.seed, before.kicks_before(i as nat)),
            forall|j: int| 0 <= j < i ==> state@.entities[j] == before.moved_at(j),
            forall|j: int| i <= j < count ==> state@.entities[j] == before.entities[j],
        decreases count - i,
    {
        let entity: Entity = state.entities[i];
        let mut word: u64 = 0;
        proof {
            assert(entity@ == state@.entities[i as int]);
            assert(before.entities[i as int].bounded(before.metrics));
            lemma_bounded_in_range(entity, before.metrics);
        }
        if entity.is_past_floor(&state.metrics) {
            let (drawn, next) = draw_word(state.seed);
            word = drawn;
            state.seed = next;
        } else {
            proof {
                lemma_stepped_without_draw(
                    entity@,
                    before.metrics,
                    0,
                    drawn_word(seed_after_draws(before.seed, before.kicks_before(i as nat))),
                );
            }
        }
        state.entities[i] = entity.step(&state.metrics, word);
        i += 1;
    }
    proof {
        assert(state@.entities =~= before.moved().entities);
        lemma_moved_wf(before);
    }
}

/// Advances the simulation by one frame. A `button_a` that is not zero means
/// that the spawn control is held.
pub fn update(state: &mut GameState, button_a: i32)
    requires
        old(state).wf(),
    ensures
        final(state).wf(),
        final(state)@ == old(state)@.updated(button_a),
        final(state)@.entities.len() == old(state)@.entities.len() + if button_a != 0 {
            AMOUNT as int
        } else {
            0
        },
{
    proof {
        lemma_updated_wf(state@, button_a);
    }
    if button_a != 0 {
        add_items(state, AMOUNT);
    }
    move_items(state);
}

/// Lists what the host is to draw for the current state: one sprite for each
/// entity, in the order in which they were spawned.
pub fn draw(state: &GameState) -> (frame: Frame)
    ensures
        frame.background == BACKGROUND,
        frame.sprites@ == Seq::new(state@.entities.len(), |i: int| state@.sprite_at(i)),
{
    let mut sprites: Vec<Sprite> = Vec::new();
    let count: usize = state.entities.len();
    let mut i: usize = 0;
    while i < count
        invariant
            i <= count,
            count == state@.entities.len(),
            sprites@ == Seq::new(i as nat, |j: int| state@.sprite_at(j)),
        decreases count - i,
    {
        let entity: Entity = state.entities[i];
        sprites.push(
            Sprite {
                palette: entity.palette,
                index: SPRITE_INDEX,
                x: entity.x.trunc(),
                y: entity.y.trunc(),
            },
        );
        i += 1;
    }
    Frame { background: BACKGROUND, sprites }
}

} // verus!
