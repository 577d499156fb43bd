//! Delayed effects: mechanics whose outcome unfolds over a bounded number of
//! future ticks against the shared aggregate state.
//!
//! A growth effect models a brood of chicks growing up: each tick it moves a
//! computed quantity of chicks out of its pool (runaways), and after a fixed
//! number of ticks it settles the remaining pool as one terminal split into
//! hens and roosters, the odd remainder always going to the roosters side.
//! The per-tick quantity is a function of the effect's total magnitude and
//! the elapsed tick index alone, so every effect terminates within a fixed,
//! magnitude-independent number of ticks.
use crate::state::Counter;
use crate::state::GameState;
use crate::state::StateView;
use vstd::arithmetic::div_mod::lemma_div_is_ordered;
use vstd::prelude::*;

verus! {

/// Number of per-tick transfer rounds a growth effect performs before its
/// terminal split.
pub const GROWTH_ROUNDS: u64 = 100;

/// A scheduled multi-tick mutation: `magnitude` broods grow up, `pool` chicks
/// are still tracked, `tick` rounds have elapsed.
pub struct GrowthEffect {
    pub magnitude: u64,
    pub pool: u64,
    pub tick: u64,
}

/// Shape every in-flight growth effect keeps: a positive, bounded magnitude,
/// a pool within the brood size, and a tick index within the round count.
pub open spec fn growth_wf(e: GrowthEffect) -> bool {
    &&& 1 <= e.magnitude <= u64::MAX / 100
    &&& e.pool <= 10 * e.magnitude
    &&& e.tick <= GROWTH_ROUNDS
}

/// The effect a freshly triggered brood of `n` starts as.
pub open spec fn growth_spawn(n: u64) -> GrowthEffect {
    GrowthEffect { magnitude: n, pool: (10 * n) as u64, tick: 0 }
}

/// The effect has performed all transfer rounds; its next step is the
/// terminal split.
pub open spec fn growth_done(e: GrowthEffect) -> bool {
    e.tick >= GROWTH_ROUNDS
}

/// How many chicks a pending round moves out of the pool: the rate
/// `100·magnitude / 7`, scaled down to a flat trickle when small, and
/// nothing when the pool cannot cover it.
pub open spec fn growth_removal(e: GrowthEffect) -> int {
    let rate = 100 * (e.magnitude as int) / 7;
    let r: int = if rate > 100 {
        rate / 100
    } else if (e.tick as int) % rate == 0 {
        1
    } else {
        0
    };
    if e.pool >= r {
        r
    } else {
        0
    }
}

/// The effect after one step: a pending round shrinks the pool and advances
/// the tick; the terminal step empties the pool.
pub open spec fn growth_step_effect(e: GrowthEffect) -> GrowthEffect {
    if !growth_done(e) {
        GrowthEffect {
            pool: (e.pool - growth_removal(e)) as u64,
            tick: (e.tick + 1) as u64,
            ..e
        }
    } else {
        GrowthEffect { pool: 0, ..e }
    }
}

/// The aggregate after one step of `e`: a pending round moves chicks to
/// runaways one for one; the terminal step removes the pool from the chicks
/// and splits it between hens and roosters, the odd remainder to the
/// roosters side.
pub open spec fn growth_step_state(e: GrowthEffect, s: StateView) -> StateView {
    if !growth_done(e) {
        StateView {
            chicks: (s.chicks - growth_removal(e)) as u64,
            runaway: (s.runaway + growth_removal(e)) as u64,
            ..s
        }
    } else {
        StateView {
            chicks: (s.chicks - e.pool) as u64,
            chickens: (s.chickens + e.pool / 2) as u64,
            roosters: (s.roosters + e.pool / 2 + e.pool % 2) as u64,
            ..s
        }
    }
}

/// A pending round's removal is within the pool and never negative.
pub proof fn lemma_growth_removal_bounds(e: GrowthEffect)
    requires
        growth_wf(e),
    ensures
        0 <= growth_removal(e) <= e.pool,
{
    assert(100 * (e.magnitude as int) >= 100) by (nonlinear_arith)
        requires
            e.magnitude >= 1,
    ;
    lemma_div_is_ordered(100, 100 * (e.magnitude as int), 7);
}

impl GrowthEffect {
    /// One cooperative step, run once per tick while the effect is in
    /// flight: returns whether this was the terminal step, after which the
    /// effect is to be dropped. The whole read-modify-write against the
    /// shared aggregate happens inside this call.
    pub fn step(&mut self, st: &mut GameState) -> (done: bool)
        requires
            growth_wf(*old(self)),
            old(st).wf(),
            old(self).pool <= old(st)@.chicks,
            old(st)@.runaway + old(self).pool <= u64::MAX,
            old(st)@.chickens + old(self).pool <= u64::MAX,
            old(st)@.roosters + old(self).pool <= u64::MAX,
        ensures
            final(st).wf(),
            growth_wf(*final(self)),
            done == growth_done(*old(self)),
            *final(self) == growth_step_effect(*old(self)),
            final(st)@ == growth_step_state(*old(self), old(st)@),
            final(self).pool <= old(self).pool,
    {
        proof {
            lemma_growth_removal_bounds(*old(self));
        }
        if self.tick < GROWTH_ROUNDS {
            let rate = 100 * self.magnitude / 7;
            let remove: u64 = if rate > 100 {
                rate / 100
            } else if self.tick % rate == 0 {
                1
            } else {
                0
            };
            if self.pool >= remove {
                st.add(Counter::Runaway, remove);
                st.sub(Counter::Chicks, remove);
                self.pool = self.pool - remove;
            }
            self.tick = self.tick + 1;
            false
        } else {
            st.sub(Counter::Chicks, self.pool);
            let half = self.pool / 2;
            let rem = self.pool % 2;
            st.add(Counter::Chickens, half);
            st.add(Counter::Roosters, half + rem);
            self.pool = 0;
            true
        }
    }
}

/// Bounded-termination and conservation law: from any in-flight point, a
/// growth effect reaches its terminal state within a fixed tick count that
/// does not depend on its magnitude, the tracked pool leaves the chicks
/// exactly, and every removed chick reappears on the runaway, hen or rooster
/// side — no loss, no double count. All other counters are untouched.
pub fn run_growth_to_completion(e: GrowthEffect, st: &mut GameState) -> (ticks: u64)
    requires
        growth_wf(e),
        old(st).wf(),
        e.pool <= old(st)@.chicks,
        old(st)@.runaway + old(st)@.chickens + old(st)@.roosters + e.pool <= u64::MAX,
    ensures
        final(st).wf(),
        ticks == GROWTH_ROUNDS + 1 - e.tick,
        ticks <= GROWTH_ROUNDS + 1,
        final(st)@.chicks == old(st)@.chicks - e.pool,
        final(st)@.runaway + final(st)@.chickens + final(st)@.roosters == old(st)@.runaway + old(
            st,
        )@.chickens + old(st)@.roosters + e.pool,
        final(st)@.nest_builders == old(st)@.nest_builders,
        final(st)@.nests == old(st)@.nests,
        final(st)@.eggs == old(st)@.eggs,
        final(st)@.breeding == old(st)@.breeding,
        final(st)@.corn == old(st)@.corn,
{
    let mut eff = e;
    let mut ticks: u64 = 0;
    let mut done = false;
    while !done
        invariant
            st.wf(),
            growth_wf(eff),
            eff.pool <= st@.chicks,
            eff.magnitude == e.magnitude,
            !done ==> eff.tick == e.tick + ticks,
            done ==> ticks == GROWTH_ROUNDS + 1 - e.tick,
            done ==> eff.pool == 0,
            st@.chicks - eff.pool == old(st)@.chicks - e.pool,
            st@.runaway + st@.chickens + st@.roosters + eff.pool == old(st)@.runaway + old(
                st,
            )@.chickens + old(st)@.roosters + e.pool,
            st@.runaway + st@.chickens + st@.roosters + eff.pool <= u64::MAX,
            st@.nest_builders == old(st)@.nest_builders,
            st@.nests == old(st)@.nests,
            st@.eggs == old(st)@.eggs,
            st@.breeding == old(st)@.breeding,
            st@.corn == old(st)@.corn,
        decreases GROWTH_ROUNDS + 1 - eff.tick + (if done { 0int } else { 1 }),
    {
        done = eff.step(st);
        ticks = ticks + 1;
    }
    ticks
}

/// Deterministic tie-break law: the terminal split of a remaining pool `q`
/// hands `q / 2` to the hens and `q / 2` plus the odd remainder to the
/// roosters, so the two shares always rebuild `q`, are equal when `q` is
/// even, and differ by exactly the one extra unit — always on the roosters
/// side — when `q` is odd.
pub proof fn lemma_split_tie_break(q: u64)
    ensures
        (q / 2) + (q / 2 + q % 2) == q,
        q % 2 == 0 ==> q / 2 + q % 2 == q / 2,
        q % 2 == 1 ==> q / 2 + q % 2 == q / 2 + 1,
{
}

/// Ticks a nest-building cycle waits before it settles a build: around ten
/// seconds of frames, counted down faster the more builders are at work.
pub const NEST_WAIT: u64 = 600;

/// The recurring nest-building effect: a countdown that shrinks by the
/// current number of builders each tick, then one build step, then a fresh
/// countdown.
pub struct NestEffect {
    pub ticks: u64,
}

/// Shape the nest effect keeps: the countdown never exceeds a full wait.
pub open spec fn nest_wf(e: NestEffect) -> bool {
    e.ticks <= NEST_WAIT
}

/// How many nests one build settles: the builders beyond a full crew, or a
/// flat single nest when the crew is smaller.
pub open spec fn nest_crew(nest_builders: u64) -> int {
    if nest_builders >= NEST_WAIT {
        nest_builders - NEST_WAIT
    } else {
        1
    }
}

/// The aggregate after one build: the crew's nests are added; the build
/// consumes corn one for one, and builders not covered by corn give up and
/// return to being plain roosters. The returning group is clamped to the
/// builders actually present, so the unsigned counters can never underflow.
pub open spec fn nest_build_state(s: StateView) -> StateView {
    let nb = nest_crew(s.nest_builders);
    let gained = StateView { nests: (s.nests + nb) as u64, ..s };
    if s.corn > nb {
        StateView { corn: (s.corn - nb) as u64, ..gained }
    } else {
        let moved: int = if nb - s.corn <= s.nest_builders {
            nb - s.corn
        } else {
            s.nest_builders as int
        };
        StateView {
            roosters: (s.roosters + moved) as u64,
            nest_builders: (s.nest_builders - moved) as u64,
            corn: 0,
            ..gained
        }
    }
}

/// The nest effect after one tick: a positive countdown shrinks by the
/// current number of builders (saturating at zero); a finished countdown
/// builds and starts over.
pub open spec fn nest_step_effect(e: NestEffect, s: StateView) -> NestEffect {
    if e.ticks > 0 {
        if s.nest_builders >= e.ticks {
            NestEffect { ticks: 0 }
        } else {
            NestEffect { ticks: (e.ticks - s.nest_builders) as u64 }
        }
    } else {
        NestEffect { ticks: NEST_WAIT }
    }
}

/// The aggregate after one tick of the nest effect: untouched while the
/// countdown runs, one build when it has finished.
pub open spec fn nest_step_state(e: NestEffect, s: StateView) -> StateView {
    if e.ticks > 0 {
        s
    } else {
        nest_build_state(s)
    }
}

impl NestEffect {
    /// One cooperative tick of nest building, holding the shared aggregate
    /// for the whole read-modify-write.
    pub fn step(&mut self, st: &mut GameState)
        requires
            nest_wf(*old(self)),
            old(st).wf(),
            old(st)@.nests + nest_crew(old(st)@.nest_builders) <= u64::MAX,
            old(st)@.roosters + old(st)@.nest_builders <= u64::MAX,
        ensures
            final(st).wf(),
            nest_wf(*final(self)),
            *final(self) == nest_step_effect(*old(self), old(st)@),
            final(st)@ == nest_step_state(*old(self), old(st)@),
    {
        if self.ticks > 0 {
            let nb = st.get(Counter::NestBuilders);
            self.ticks = self.ticks.saturating_sub(nb);
        } else {
            let builders = st.get(Counter::NestBuilders);
            let nb: u64 = if builders >= NEST_WAIT {
                builders - NEST_WAIT
            } else {
                1
            };
            let corn = st.get(Counter::Corn);
            st.add(Counter::Nests, nb);
            if corn > nb {
                st.sub(Counter::Corn, nb);
            } else {
                let give = nb - corn;
                let moved: u64 = if give <= builders {
                    give
                } else {
                    builders
                };
                st.add(Counter::Roosters, moved);
                st.sub(Counter::NestBuilders, moved);
                st.set(Counter::Corn, 0);
            }
            self.ticks = NEST_WAIT;
        }
    }
}

/// The terminal split seen on the aggregate: hens gain the half share,
/// roosters gain the half share plus the odd remainder.
pub proof fn lemma_terminal_split_on_state(e: GrowthEffect, s: StateView)
    requires
        growth_done(e),
        s.chickens + e.pool <= u64::MAX,
        s.roosters + e.pool <= u64::MAX,
        e.pool <= s.chicks,
    ensures
        growth_step_state(e, s).chickens == s.chickens + e.pool / 2,
        growth_step_state(e, s).roosters == s.roosters + e.pool / 2 + e.pool % 2,
        growth_step_state(e, s).chicks == s.chicks - e.pool,
        growth_step_state(e, s).chickens - s.chickens + growth_step_state(e, s).roosters
            - s.roosters == e.pool,
{
    lemma_split_tie_break(e.pool);
}

/// Every queued effect keeps its shape.
pub open spec fn all_growth_wf(es: Seq<GrowthEffect>) -> bool {
    forall|i: int| 0 <= i < es.len() ==> growth_wf(#[trigger] es[i])
}

/// Chicks still tracked by a queue of in-flight growth effects.
pub open spec fn pools_sum(es: Seq<GrowthEffect>) -> int
    decreases es.len(),
{
    if es.len() == 0 {
        0
    } else {
        es[0].pool + pools_sum(es.drop_first())
    }
}

pub proof fn lemma_pools_sum_nonneg(es: Seq<GrowthEffect>)
    ensures
        pools_sum(es) >= 0,
    decreases es.len(),
{
    if es.len() > 0 {
        lemma_pools_sum_nonneg(es.drop_first());
    }
}

pub proof fn lemma_pools_sum_push(es: Seq<GrowthEffect>, e: GrowthEffect)
    ensures
        pools_sum(es.push(e)) == pools_sum(es) + e.pool,
    decreases es.len(),
{
    reveal_with_fuel(pools_sum, 3);
    if es.len() == 0 {
        assert(es.push(e)[0] == e);
        assert(es.push(e).drop_first() =~= Seq::<GrowthEffect>::empty());
    } else {
        assert(es.push(e)[0] == es[0]);
        assert(es.push(e).drop_first() =~= es.drop_first().push(e));
        lemma_pools_sum_push(es.drop_first(), e);
    }
}

proof fn lemma_pools_sum_skip_le(es: Seq<GrowthEffect>, i: int)
    requires
        0 <= i <= es.len(),
    ensures
        pools_sum(es.skip(i)) <= pools_sum(es),
    decreases i,
{
    if i == 0 {
        assert(es.skip(0) =~= es);
    } else {
        lemma_pools_sum_skip_le(es, i - 1);
        assert(es.skip(i - 1)[0] == es[i - 1]);
        assert(es.skip(i - 1).drop_first() =~= es.skip(i));
    }
}

/// One tick of the whole growth queue, effects stepped in spawn order,
/// finished effects dropped: the queue and aggregate after the pass.
pub open spec fn run_growth_spec(es: Seq<GrowthEffect>, s: StateView) -> (Seq<GrowthEffect>,
    StateView)
    decreases es.len(),
{
    if es.len() == 0 {
        (es, s)
    } else {
        let stepped = growth_step_effect(es[0]);
        let s1 = growth_step_state(es[0], s);
        let rest = run_growth_spec(es.drop_first(), s1);
        (
            if growth_done(es[0]) {
                rest.0
            } else {
                seq![stepped] + rest.0
            },
            rest.1,
        )
    }
}

/// Concurrency-safety law: however many effects decrement the shared chick
/// counter in one tick, the pass loses no update and drives nothing below
/// zero — the counter drops by exactly the chicks the pools released, every
/// released chick reappears as a runaway, hen or rooster, the queue stays
/// covered by the counter, and the counters the effects do not touch are
/// unchanged.
pub proof fn lemma_run_growth_conserves(es: Seq<GrowthEffect>, s: StateView)
    requires
        all_growth_wf(es),
        pools_sum(es) <= s.chicks,
        s.runaway + s.chickens + s.roosters + pools_sum(es) <= u64::MAX,
    ensures
        all_growth_wf(run_growth_spec(es, s).0),
        pools_sum(run_growth_spec(es, s).0) <= run_growth_spec(es, s).1.chicks,
        run_growth_spec(es, s).1.chicks - pools_sum(run_growth_spec(es, s).0) == s.chicks
            - pools_sum(es),
        run_growth_spec(es, s).1.runaway + run_growth_spec(es, s).1.chickens + run_growth_spec(
            es,
            s,
        ).1.roosters + pools_sum(run_growth_spec(es, s).0) == s.runaway + s.chickens + s.roosters
            + pools_sum(es),
        run_growth_spec(es, s).1.nest_builders == s.nest_builders,
        run_growth_spec(es, s).1.nests == s.nests,
        run_growth_spec(es, s).1.eggs == s.eggs,
        run_growth_spec(es, s).1.breeding == s.breeding,
        run_growth_spec(es, s).1.corn == s.corn,
    decreases es.len(),
{
    if es.len() > 0 {
        let e = es[0];
        let rest = es.drop_first();
        assert(growth_wf(e));
        lemma_growth_removal_bounds(e);
        lemma_pools_sum_nonneg(rest);
        let s1 = growth_step_state(e, s);
        assert(all_growth_wf(rest));
        lemma_run_growth_conserves(rest, s1);
        let stepped = growth_step_effect(e);
        if !growth_done(e) {
            lemma_pools_sum_cons(stepped, run_growth_spec(rest, s1).0);
        }
    }
}

proof fn lemma_pools_sum_cons(e: GrowthEffect, es: Seq<GrowthEffect>)
    ensures
        pools_sum(seq![e] + es) == e.pool + pools_sum(es),
{
    let t = seq![e] + es;
    assert(t[0] == e);
    assert(t.drop_first() =~= es);
}

/// The cooperative delayed-effect scheduler: the in-flight growth effects in
/// spawn order, and the recurring nest-building effect once it has been
/// started.
pub struct DelayedEffectScheduler {
    growth: Vec<GrowthEffect>,
    nest: Option<NestEffect>,
}

impl DelayedEffectScheduler {
    /// The queue of in-flight growth effects.
    pub closed spec fn growth_queue(&self) -> Seq<GrowthEffect> {
        self.growth@
    }

    /// The nest-building effect, if started.
    pub closed spec fn nest_effect(&self) -> Option<NestEffect> {
        self.nest
    }

    /// Chicks currently tracked by the queued effects.
    pub open spec fn pools(&self) -> int {
        pools_sum(self.growth_queue())
    }

    /// Every queued effect keeps its shape.
    pub open spec fn wf(&self) -> bool {
        &&& all_growth_wf(self.growth_queue())
        &&& (self.nest_effect() is Some ==> nest_wf(self.nest_effect()->0))
    }

    /// The scheduler's pools are covered by the aggregate's chick counter,
    /// so no step of any effect can drive it below zero.
    pub open spec fn consistent_with(&self, s: StateView) -> bool {
        self.pools() <= s.chicks
    }

    /// No effects in flight.
    pub fn new() -> (r: DelayedEffectScheduler)
        ensures
            r.wf(),
            r.growth_queue() == Seq::<GrowthEffect>::empty(),
            r.nest_effect() is None,
            r.pools() == 0,
    {
        DelayedEffectScheduler { growth: Vec::new(), nest: None }
    }

    /// Number of growth effects currently in flight.
    pub fn pending_growth(&self) -> (n: usize)
        ensures
            n == self.growth_queue().len(),
    {
        self.growth.len()
    }

    /// Chicks currently tracked by the queued effects, or `None` when the
    /// sum does not fit in a `u64`.
    pub fn tracked_pool(&self) -> (r: Option<u64>)
        ensures
            match r {
                Some(p) => p == self.pools(),
                None => self.pools() > u64::MAX,
            },
    {
        let n = self.growth.len();
        let mut acc: u64 = 0;
        let mut i: usize = n;
        proof {
            assert(self.growth@.skip(n as int) =~= Seq::<GrowthEffect>::empty());
        }
        while i > 0
            invariant
                n == self.growth@.len(),
                0 <= i <= n,
                acc == pools_sum(self.growth@.skip(i as int)),
            decreases i,
        {
            i = i - 1;
            proof {
                assert(self.growth@.skip(i as int)[0] == self.growth@[i as int]);
                assert(self.growth@.skip(i as int).drop_first() =~= self.growth@.skip(
                    i as int + 1,
                ));
            }
            match acc.checked_add(self.growth[i].pool) {
                Some(a) => {
                    acc = a;
                },
                None => {
                    proof {
                        lemma_pools_sum_skip_le(self.growth@, i as int);
                    }
                    return None;
                },
            }
        }
        proof {
            assert(self.growth@.skip(0) =~= self.growth@);
        }
        Some(acc)
    }

    /// Whether the recurring nest-building effect has been started.
    pub fn nest_started(&self) -> (b: bool)
        ensures
            b == (self.nest_effect() is Some),
    {
        self.nest.is_some()
    }

    /// Schedule a brood of `n` to grow up over the coming ticks.
    pub fn spawn_growth(&mut self, n: u64)
        requires
            old(self).wf(),
            1 <= n <= u64::MAX / 100,
        ensures
            final(self).wf(),
            final(self).growth_queue() == old(self).growth_queue().push(growth_spawn(n)),
            final(self).nest_effect() == old(self).nest_effect(),
            final(self).pools() == old(self).pools() + 10 * n,
    {
        proof {
            lemma_pools_sum_push(self.growth@, growth_spawn(n));
        }
        self.growth.push(GrowthEffect { magnitude: n, pool: 10 * n, tick: 0 });
    }

    /// Start the recurring nest-building effect if it is not yet running.
    pub fn ensure_nest_building(&mut self)
        requires
            old(self).wf(),
        ensures
            final(self).wf(),
            final(self).growth_queue() == old(self).growth_queue(),
            final(self).nest_effect() is Some,
            old(self).nest_effect() is Some ==> final(self).nest_effect() == old(
                self,
            ).nest_effect(),
            old(self).nest_effect() is None ==> final(self).nest_effect() == Some(
                NestEffect { ticks: NEST_WAIT },
            ),
    {
        if self.nest.is_none() {
            self.nest = Some(NestEffect { ticks: NEST_WAIT });
        }
    }

    /// Resume every in-flight effect once: the growth queue in spawn order,
    /// finished effects dropped, then the nest countdown. All mutations of
    /// the shared aggregate happen under the per-step lock discipline of the
    /// individual effects.
    pub fn tick(&mut self, st: &mut GameState)
        requires
            old(self).wf(),
            old(st).wf(),
            old(self).consistent_with(old(st)@),
            old(st)@.runaway + old(st)@.chickens + old(st)@.roosters + old(self).pools() + old(
                st,
            )@.nest_builders <= u64::MAX,
            old(st)@.nests + old(st)@.nest_builders + 1 <= u64::MAX,
        ensures
            final(st).wf(),
            final(self).wf(),
            final(self).consistent_with(final(st)@),
            ({
                let r = run_growth_spec(old(self).growth_queue(), old(st)@);
                final(self).growth_queue() == r.0 && match old(self).nest_effect() {
                    Option::None => final(self).nest_effect() is None && final(st)@ == r.1,
                    Option::Some(ne) => final(self).nest_effect() == Some(
                        nest_step_effect(ne, r.1),
                    ) && final(st)@ == nest_step_state(ne, r.1),
                }
            }),
    {
        proof {
            lemma_run_growth_conserves(self.growth@, st@);
            lemma_pools_sum_nonneg(run_growth_spec(self.growth@, st@).0);
        }
        run_growth(&mut self.growth, st);
        match &mut self.nest {
            Some(ne) => {
                ne.step(st);
            },
            None => {},
        }
    }
}

/// Step every queued effect once, in order, dropping the finished ones.
fn run_growth(es: &mut Vec<GrowthEffect>, st: &mut GameState)
    requires
        all_growth_wf(old(es)@),
        old(st).wf(),
        pools_sum(old(es)@) <= old(st)@.chicks,
        old(st)@.runaway + old(st)@.chickens + old(st)@.roosters + pools_sum(old(es)@)
            <= u64::MAX,
    ensures
        final(st).wf(),
        final(es)@ == run_growth_spec(old(es)@, old(st)@).0,
        final(st)@ == run_growth_spec(old(es)@, old(st)@).1,
    decreases old(es)@.len(),
{
    if es.len() == 0 {
    } else {
        proof {
            assert(growth_wf(old(es)@[0]));
            lemma_growth_removal_bounds(old(es)@[0]);
            lemma_pools_sum_nonneg(old(es)@.drop_first());
        }
        let mut e = es.remove(0);
        proof {
            assert(es@ =~= old(es)@.drop_first());
        }
        let done = e.step(st);
        run_growth(es, st);
        if !done {
            let ghost rest = es@;
            es.insert(0, e);
            proof {
                assert(es@ =~= seq![e] + rest);
            }
        }
    }
}

} // verus!
