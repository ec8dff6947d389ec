use vstd::prelude::*;

verus! {

/// The number of user LEDs around the compass rose (PE8 to PE15).
pub const LED_COUNT: usize = 8;

/// The two LED switches of one animation step: the LED with index `off`
/// goes dark, the one with index `on` lights.
#[derive(Clone, Copy, Debug, PartialEq, Eq, Structural)]
pub struct LedStep {
    pub off: usize,
    pub on: usize,
}

/// The LED after `led` going round the ring.
pub open spec fn next_led(led: int) -> int {
    (led + 1) % (LED_COUNT as int)
}

/// The state of the ring animation: the current LED and the number of
/// timer ticks it has seen since `new`.
pub struct RingView {
    pub cur: int,
    pub ticks: nat,
}

/// The ring animation driven by the TIM7 update interrupt: on each tick the
/// current LED goes dark and the next one lights.
pub struct LedRing {
    cur: usize,
    ticks: Ghost<nat>,
}

impl View for LedRing {
    type V = RingView;

    closed spec fn view(&self) -> RingView {
        RingView { cur: self.cur as int, ticks: self.ticks@ }
    }
}

impl LedRing {
    #[verifier::type_invariant]
    closed spec fn inv(self) -> bool {
        &&& self.cur < LED_COUNT
        &&& self.cur == self.ticks@ % 8
    }

    /// The ring before the first tick, at LED 0, with every LED dark.
    pub fn new() -> (ring: Self)
        ensures
            ring@.cur == 0,
            ring@.ticks == 0,
            ring_lit_after(ring@.ticks) == Set::<int>::empty(),
    {
        LedRing { cur: 0, ticks: Ghost(0) }
    }

    /// The index of the current LED.
    pub fn current(&self) -> (cur: usize)
        ensures
            cur == self@.cur,
            cur < LED_COUNT,
            cur == self@.ticks % 8,
    {
        proof { use_type_invariant(self); }
        self.cur
    }

    /// One timer tick: moves to the next LED and returns which LED to
    /// switch off and which to switch on. After it exactly one LED is lit,
    /// the current one.
    pub fn advance(&mut self) -> (step: LedStep)
        ensures
            step.off == old(self)@.cur,
            step.on == next_led(old(self)@.cur),
            final(self)@.cur == step.on,
            final(self)@.ticks == old(self)@.ticks + 1,
            step.off < LED_COUNT && step.on < LED_COUNT,
            ring_lit_after(final(self)@.ticks) == ring_lit_after(old(self)@.ticks).remove(
                step.off as int,
            ).insert(step.on as int),
            ring_lit_after(final(self)@.ticks) == set![final(self)@.cur],
    {
        proof { use_type_invariant(&*self); }
        let off = self.cur;
        let on = (self.cur + 1) % LED_COUNT;
        let ghost ticks: nat = (self.ticks@ + 1) as nat;
        proof {
            lemma_ring_lights_one(ticks);
            assert(on == ticks % 8) by (nonlinear_arith)
                requires
                    off == (ticks - 1) % 8,
                    on == (off + 1) % 8,
                    ticks >= 1,
            ;
        }
        *self = LedRing { cur: on, ticks: Ghost(ticks) };
        LedStep { off, on }
    }
}

/// The LEDs lit after `ticks` timer ticks of a ring started with `new`
/// (no LED is lit before the first tick).
pub open spec fn ring_lit_after(ticks: nat) -> Set<int>
    decreases ticks,
{
    if ticks == 0 {
        Set::empty()
    } else {
        let before = (ticks - 1) as nat;
        ring_lit_after(before).remove((before % 8) as int).insert((ticks % 8) as int)
    }
}

/// The current LED of a ring after `ticks` ticks from LED `start`.
pub open spec fn ring_position_after(start: int, ticks: nat) -> int
    decreases ticks,
{
    if ticks == 0 {
        start
    } else {
        next_led(ring_position_after(start, (ticks - 1) as nat))
    }
}

/// After `n` ticks from LED `start` the ring is at `(start + n) % 8`; in
/// particular eight ticks bring it back where it started.
pub proof fn lemma_ring_position(start: int, ticks: nat)
    requires
        0 <= start < LED_COUNT,
    ensures
        ring_position_after(start, ticks) == (start + ticks) % 8,
        ring_position_after(start, 8) == start,
    decreases ticks,
{
    lemma_ring_position_steps(start, ticks);
    lemma_ring_position_steps(start, 8);
}

proof fn lemma_ring_position_steps(start: int, ticks: nat)
    requires
        0 <= start < LED_COUNT,
    ensures
        ring_position_after(start, ticks) == (start + ticks) % 8,
    decreases ticks,
{
    if ticks > 0 {
        lemma_ring_position_steps(start, (ticks - 1) as nat);
        let p = (start + ticks - 1) % 8;
        assert((p + 1) % 8 == (start + ticks) % 8) by (nonlinear_arith)
            requires p == (start + ticks - 1) % 8;
    }
}

/// From the first tick on, exactly one LED of the ring is lit: the one the
/// ring is at.
pub proof fn lemma_ring_lights_one(ticks: nat)
    requires
        ticks >= 1,
    ensures
        ring_lit_after(ticks) == set![(ticks % 8) as int],
        ring_lit_after(ticks).len() == 1,
    decreases ticks,
{
    let before = (ticks - 1) as nat;
    if ticks == 1 {
        assert(ring_lit_after(0) == Set::<int>::empty());
        assert(ring_lit_after(1) =~= set![1int]);
    } else {
        lemma_ring_lights_one(before);
        assert(ring_lit_after(ticks) =~= set![(ticks % 8) as int]);
    }
    assert(set![(ticks % 8) as int].len() == 1);
}

/// One step of the roulette animation: the LED with index `on` lights
/// and the one two places behind it goes dark.
#[derive(Clone, Copy, Debug, PartialEq, Eq, Structural)]
pub struct RouletteStep {
    pub on: usize,
    pub off: usize,
}

/// The state of the roulette animation: the LED the next step lights and
/// the number of steps taken since `new`.
pub struct RouletteView {
    pub next: int,
    pub steps: nat,
}

/// The roulette animation of the LED ring driven by a fixed delay: each
/// step lights the next LED and darkens the one two places behind, so
/// that a pair of lit LEDs chases round the ring.
pub struct LedRoulette {
    next: usize,
    steps: Ghost<nat>,
}

impl View for LedRoulette {
    type V = RouletteView;

    closed spec fn view(&self) -> RouletteView {
        RouletteView { next: self.next as int, steps: self.steps@ }
    }
}

impl LedRoulette {
    #[verifier::type_invariant]
    closed spec fn inv(self) -> bool {
        &&& self.next < LED_COUNT
        &&& self.next == self.steps@ % 8
    }

    /// The roulette before its first step, about to light LED 0, with every
    /// LED dark.
    pub fn new() -> (roulette: Self)
        ensures
            roulette@.next == 0,
            roulette@.steps == 0,
            roulette_lit_after(roulette@.steps) == Set::<int>::empty(),
    {
        LedRoulette { next: 0, steps: Ghost(0) }
    }

    /// One step: lights the next LED, darkens the one two places behind it
    /// and moves on. After the first step only LED 0 is lit; after any
    /// later step exactly the LED just lit and the one before it are lit.
    pub fn step(&mut self) -> (step: RouletteStep)
        ensures
            step.on == old(self)@.next,
            step.off == (old(self)@.next + 6) % 8,
            final(self)@.next == next_led(old(self)@.next),
            final(self)@.steps == old(self)@.steps + 1,
            step.on < LED_COUNT && step.off < LED_COUNT,
            roulette_lit_after(final(self)@.steps) == roulette_lit_after(old(self)@.steps).insert(
                step.on as int,
            ).remove(step.off as int),
            final(self)@.steps == 1 ==> roulette_lit_after(final(self)@.steps) == set![0int],
            final(self)@.steps >= 2 ==> roulette_lit_after(final(self)@.steps) == set![
                step.on as int,
                (step.on + 7) % 8,
            ],
    {
        proof { use_type_invariant(&*self); }
        let on = self.next;
        let off = (LED_COUNT + self.next - 2) % LED_COUNT;
        let next = (self.next + 1) % LED_COUNT;
        let ghost k: nat = self.steps@;
        let ghost steps: nat = (k + 1) as nat;
        proof {
            lemma_roulette_lights_pair(steps);
            assert(next == steps % 8 && ((steps - 1) % 8) == on && ((steps - 2) % 8) == (on + 7) % 8)
                by (nonlinear_arith)
                requires
                    on == k % 8,
                    next == (on + 1) % 8,
                    steps == k + 1,
            ;
        }
        *self = LedRoulette { next, steps: Ghost(steps) };
        RouletteStep { on, off }
    }
}

/// The LEDs lit after `steps` steps of a roulette started with `new` (all
/// LEDs dark at first); each step lights first and darkens after.
pub open spec fn roulette_lit_after(steps: nat) -> Set<int>
    decreases steps,
{
    if steps == 0 {
        Set::empty()
    } else {
        let k = (steps - 1) as nat;
        roulette_lit_after(k).insert((k % 8) as int).remove(((k + 6) % 8) as int)
    }
}

/// After the first step only LED 0 is lit; from the second step on exactly
/// two neighbouring LEDs are lit, the two lit last.
pub proof fn lemma_roulette_lights_pair(steps: nat)
    requires
        steps >= 1,
    ensures
        steps == 1 ==> roulette_lit_after(steps) == set![0int],
        steps >= 2 ==> roulette_lit_after(steps) == set![((steps - 1) % 8) as int, ((steps - 2) % 8) as int],
        steps >= 2 ==> roulette_lit_after(steps).len() == 2,
    decreases steps,
{
    if steps == 1 {
        assert(roulette_lit_after(0) == Set::<int>::empty());
        assert(roulette_lit_after(1) =~= set![0int]);
    } else if steps == 2 {
        lemma_roulette_lights_pair(1);
        assert(roulette_lit_after(2) =~= set![1int, 0int]);
    } else {
        lemma_roulette_lights_pair((steps - 1) as nat);
        assert(roulette_lit_after(steps) =~= set![((steps - 1) % 8) as int, ((steps - 2) % 8) as int]);
    }
    if steps >= 2 {
        let a = ((steps - 1) % 8) as int;
        let b = ((steps - 2) % 8) as int;
        assert(a != b);
        assert(set![a, b] =~= set![a].insert(b));
        assert(set![a].len() == 1);
    }
}

} // verus!
