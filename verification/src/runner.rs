//! The frame-transactional execution driver.
//!
//! One transaction runs application logic to completion and then commits
//! every persistent counter to the durable store in one flush pass, so
//! durable storage only ever sees state from a transaction boundary, never
//! from the middle of a tick. `transaction_step` is the one-shot startup
//! catch-up transaction; `transaction_tick` is one iteration of the main
//! loop: the breeding tick body, one resumption of every delayed effect,
//! then the flush pass. The loop itself — awaiting the next tick signal and
//! asking for shutdown — belongs to the embedding, which calls
//! `transaction_tick` once per tick.
use crate::codec::dec_digits;
use crate::effects::growth_spawn;
use crate::effects::nest_step_effect;
use crate::effects::nest_step_state;
use crate::effects::run_growth_spec;
use crate::effects::DelayedEffectScheduler;
use crate::effects::NestEffect;
use crate::state::key_seq;
use crate::state::Counter;
use crate::state::GameState;
use crate::state::StateView;
use crate::store::DurableStore;
use vstd::arithmetic::div_mod::lemma_div_is_ordered;
use vstd::prelude::*;

verus! {

/// Broods that hatch this tick: every full thousand of breeding progress.
pub open spec fn breeding_count(s: StateView) -> int {
    if s.breeding > 1000 {
        s.breeding as int / 1000
    } else {
        0
    }
}

/// The aggregate after the breeding tick body: each full thousand of
/// progress converts one nest's brood into ten chicks, and every nest adds
/// one unit of progress.
pub open spec fn breeding_state(s: StateView) -> StateView {
    let n = breeding_count(s);
    let nests2 = s.nests - n;
    StateView {
        breeding: (s.breeding - 1000 * n + nests2) as u64,
        chicks: (s.chicks + 10 * n) as u64,
        nests: nests2 as u64,
        ..s
    }
}

/// The startup catch-up: chicks not forming a whole brood of ten run away,
/// and the whole broods are handed to a growth effect.
pub open spec fn cleanup_state(s: StateView) -> StateView {
    let c = s.chicks as int % 10;
    StateView { chicks: (s.chicks - c) as u64, runaway: (s.runaway + c) as u64, ..s }
}

/// The breeding tick body: convert full thousands of breeding progress into
/// chicks, schedule their growth, and let every nest breed one step.
pub fn tick_logic(st: &mut GameState, sched: &mut DelayedEffectScheduler)
    requires
        old(st).wf(),
        old(sched).wf(),
        old(sched).consistent_with(old(st)@),
        old(st)@.breeding > 1000 ==> old(st)@.nests >= old(st)@.breeding / 1000,
        old(st)@.chicks + 10 * breeding_count(old(st)@) <= u64::MAX,
        old(st)@.breeding + old(st)@.nests <= u64::MAX,
    ensures
        final(st).wf(),
        final(sched).wf(),
        final(sched).consistent_with(final(st)@),
        final(st)@ == breeding_state(old(st)@),
        final(sched).nest_effect() == old(sched).nest_effect(),
        final(sched).growth_queue() == if breeding_count(old(st)@) > 0 {
            old(sched).growth_queue().push(growth_spawn(breeding_count(old(st)@) as u64))
        } else {
            old(sched).growth_queue()
        },
{
    let breeding = st.get(Counter::Breeding);
    if breeding > 1000 {
        let n = breeding / 1000;
        proof {
            lemma_div_is_ordered(breeding as int, u64::MAX as int, 1000);
        }
        st.sub(Counter::Breeding, 1000 * n);
        st.add(Counter::Chicks, n * 10);
        sched.spawn_growth(n);
        st.sub(Counter::Nests, n);
    }
    let nests = st.get(Counter::Nests);
    st.add(Counter::Breeding, nests);
}

/// The one-shot startup catch-up body: stray chicks run away, whole broods
/// start growing up, and nest building resumes if builders are employed.
pub fn cleanup(st: &mut GameState, sched: &mut DelayedEffectScheduler)
    requires
        old(st).wf(),
        old(sched).wf(),
        old(sched).growth_queue().len() == 0,
        old(st)@.runaway + old(st)@.chicks % 10 <= u64::MAX,
        old(st)@.chicks / 10 <= u64::MAX / 100,
    ensures
        final(st).wf(),
        final(sched).wf(),
        final(sched).consistent_with(final(st)@),
        final(st)@ == cleanup_state(old(st)@),
        final(sched).growth_queue() == if old(st)@.chicks / 10 >= 1 {
            seq![growth_spawn(old(st)@.chicks / 10)]
        } else {
            Seq::<crate::effects::GrowthEffect>::empty()
        },
        final(sched).nest_effect() == if old(st)@.nest_builders > 0 && old(
            sched,
        ).nest_effect() is None {
            Some(NestEffect { ticks: crate::effects::NEST_WAIT })
        } else {
            old(sched).nest_effect()
        },
{
    let chicks = st.get(Counter::Chicks);
    let c = chicks % 10;
    st.sub(Counter::Chicks, c);
    st.add(Counter::Runaway, c);
    let remaining = st.get(Counter::Chicks);
    if remaining >= 10 {
        sched.spawn_growth(remaining / 10);
        proof {
            assert(remaining / 10 == old(st)@.chicks / 10);
            assert(10 * (remaining as int / 10) <= remaining as int);
        }
    }
    let nb = st.get(Counter::NestBuilders);
    if nb > 0 {
        sched.ensure_nest_building();
    }
}

/// The finite set of player actions a tick can apply to the aggregate, in
/// place of ad hoc closures attached to input elements.
#[derive(Clone, Copy, PartialEq, Eq, Structural, Debug)]
pub enum PlayerAction {
    BuildNest,
    EmployNestBuilder,
    LayEgg,
}

/// When an action is enabled: the validation the dispatcher performs before
/// applying it.
pub open spec fn action_enabled(a: PlayerAction, s: StateView) -> bool {
    match a {
        PlayerAction::BuildNest => s.nests < s.chickens && s.eggs >= 10,
        PlayerAction::EmployNestBuilder => s.roosters > 0,
        PlayerAction::LayEgg => s.chickens > s.nests,
    }
}

/// What an enabled action does: build one nest for ten eggs, move one
/// rooster into nest building, or let every chicken without a nest lay one
/// egg.
pub open spec fn action_state(a: PlayerAction, s: StateView) -> StateView {
    match a {
        PlayerAction::BuildNest => StateView {
            eggs: (s.eggs - 10) as u64,
            nests: (s.nests + 1) as u64,
            ..s
        },
        PlayerAction::EmployNestBuilder => StateView {
            roosters: (s.roosters - 1) as u64,
            nest_builders: (s.nest_builders + 1) as u64,
            ..s
        },
        PlayerAction::LayEgg => StateView {
            eggs: (s.eggs + (s.chickens - s.nests)) as u64,
            ..s
        },
    }
}

/// Validate and apply one player action: the single dispatch point mapping
/// an action to its effect. A disabled action leaves the aggregate
/// untouched and reports so.
pub fn apply_action(st: &mut GameState, a: PlayerAction) -> (applied: bool)
    requires
        old(st).wf(),
        old(st)@.nest_builders < u64::MAX,
        old(st)@.eggs + old(st)@.chickens <= u64::MAX,
    ensures
        final(st).wf(),
        applied == action_enabled(a, old(st)@),
        applied ==> final(st)@ == action_state(a, old(st)@),
        !applied ==> final(st)@ == old(st)@,
{
    match a {
        PlayerAction::BuildNest => {
            let nests = st.get(Counter::Nests);
            let chickens = st.get(Counter::Chickens);
            let eggs = st.get(Counter::Eggs);
            if nests < chickens && eggs >= 10 {
                st.sub(Counter::Eggs, 10);
                st.add(Counter::Nests, 1);
                true
            } else {
                false
            }
        },
        PlayerAction::EmployNestBuilder => {
            let roosters = st.get(Counter::Roosters);
            if roosters > 0 {
                st.sub(Counter::Roosters, 1);
                st.add(Counter::NestBuilders, 1);
                true
            } else {
                false
            }
        },
        PlayerAction::LayEgg => {
            let chickens = st.get(Counter::Chickens);
            let nests = st.get(Counter::Nests);
            if chickens > nests {
                st.add(Counter::Eggs, chickens - nests);
                true
            } else {
                false
            }
        },
    }
}

/// The durable store after a flush pass holds exactly the aggregate's
/// decimal records on the state keys and is untouched elsewhere.
pub open spec fn flushed(
    pre: Map<Seq<char>, Seq<char>>,
    post: Map<Seq<char>, Seq<char>>,
    s: StateView,
) -> bool {
    &&& forall|c: Counter|
        post.contains_key(#[trigger] key_seq(c)) && post[key_seq(c)] == dec_digits(
            s.counter(c) as nat,
        )
    &&& forall|k: Seq<char>|
        !crate::state::is_state_key(k) ==> (post.contains_key(k) == pre.contains_key(k) && (
        pre.contains_key(k) ==> post[k] == pre[k]))
}

/// One-shot transaction: run the startup catch-up body exactly once to
/// completion, then commit every persistent counter in one flush pass.
pub fn transaction_step(
    st: &mut GameState,
    sched: &mut DelayedEffectScheduler,
    store: &mut DurableStore,
)
    requires
        old(st).wf(),
        old(sched).wf(),
        old(store).wf(),
        old(sched).growth_queue().len() == 0,
        old(st)@.runaway + old(st)@.chicks % 10 <= u64::MAX,
        old(st)@.chicks / 10 <= u64::MAX / 100,
    ensures
        final(st).wf(),
        final(sched).wf(),
        final(store).wf(),
        final(sched).consistent_with(final(st)@),
        final(st)@ == cleanup_state(old(st)@),
        flushed(old(store)@, final(store)@, final(st)@),
{
    cleanup(st, sched);
    st.flush_all(store);
    proof {
        lemma_view_counters(st);
    }
}

/// One tick transaction: the breeding tick body, one resumption of every
/// delayed effect, then the commit of every counter in one flush pass.
/// The intermediate aggregates never reach the durable store.
pub fn transaction_tick(
    st: &mut GameState,
    sched: &mut DelayedEffectScheduler,
    store: &mut DurableStore,
)
    requires
        old(st).wf(),
        old(sched).wf(),
        old(store).wf(),
        old(sched).consistent_with(old(st)@),
        old(st)@.breeding > 1000 ==> old(st)@.nests >= old(st)@.breeding / 1000,
        old(st)@.chicks + 10 * breeding_count(old(st)@) <= u64::MAX,
        old(st)@.breeding + old(st)@.nests <= u64::MAX,
        ({
            let s1 = breeding_state(old(st)@);
            let pools1 = old(sched).pools() + 10 * breeding_count(old(st)@);
            s1.runaway + s1.chickens + s1.roosters + pools1 + s1.nest_builders <= u64::MAX
                && s1.nests + s1.nest_builders + 1 <= u64::MAX
        }),
    ensures
        final(st).wf(),
        final(sched).wf(),
        final(store).wf(),
        final(sched).consistent_with(final(st)@),
        ({
            let s1 = breeding_state(old(st)@);
            let q1 = if breeding_count(old(st)@) > 0 {
                old(sched).growth_queue().push(growth_spawn(breeding_count(old(st)@) as u64))
            } else {
                old(sched).growth_queue()
            };
            let r = run_growth_spec(q1, s1);
            final(sched).growth_queue() == r.0 && match old(sched).nest_effect() {
                Option::None => final(sched).nest_effect() is None && final(st)@ == r.1,
                Option::Some(ne) => final(sched).nest_effect() == Some(nest_step_effect(ne, r.1))
                    && final(st)@ == nest_step_state(ne, r.1),
            }
        }),
        flushed(old(store)@, final(store)@, final(st)@),
{
    tick_logic(st, sched);
    proof {
        if breeding_count(old(st)@) > 0 {
            crate::effects::lemma_pools_sum_push(
                old(sched).growth_queue(),
                growth_spawn(breeding_count(old(st)@) as u64),
            );
        }
    }
    sched.tick(st);
    st.flush_all(store);
    proof {
        lemma_view_counters(st);
    }
}

/// Each view field is the counter the flush pass wrote.
proof fn lemma_view_counters(st: &GameState)
    ensures
        forall|c: Counter| st@.counter(c) == st.value_of(c),
{
    assert forall|c: Counter| st@.counter(c) == st.value_of(c) by {
        match c {
            Counter::Chickens => {},
            Counter::Roosters => {},
            Counter::NestBuilders => {},
            Counter::Chicks => {},
            Counter::Runaway => {},
            Counter::Nests => {},
            Counter::Eggs => {},
            Counter::Breeding => {},
            Counter::Corn => {},
        }
    }
}

} // verus!
