use tofuwabohu::effects::{
    run_growth_to_completion, DelayedEffectScheduler, GrowthEffect, NestEffect,
};
use tofuwabohu::runner::{
    apply_action, cleanup, tick_logic, transaction_step, transaction_tick, PlayerAction,
};
use tofuwabohu::state::{Counter, GameState};
use tofuwabohu::store::DurableStore;

fn fresh_state() -> GameState {
    let store = DurableStore::new();
    GameState::new(&store)
}

#[test]
fn growth_terminates_within_bound() {
    let mut st = fresh_state();
    st.set(Counter::Chicks, 10);
    let e = GrowthEffect { magnitude: 1, pool: 10, tick: 0 };
    let ticks = run_growth_to_completion(e, &mut st);
    assert_eq!(ticks, 101);
    assert!(ticks <= 101);
    // The whole pool left the chicks: 8 trickled away one per 14 ticks,
    // the remaining 2 split evenly at the end.
    assert_eq!(st.get(Counter::Chicks), 0);
    assert_eq!(st.get(Counter::Runaway), 8);
    assert_eq!(st.get(Counter::Chickens), 2);
    assert_eq!(st.get(Counter::Roosters), 1);
}

#[test]
fn growth_conserves_large_brood() {
    let mut st = fresh_state();
    st.set(Counter::Chicks, 1000);
    let e = GrowthEffect { magnitude: 100, pool: 1000, tick: 0 };
    let ticks = run_growth_to_completion(e, &mut st);
    assert_eq!(ticks, 101);
    assert_eq!(st.get(Counter::Chicks), 0);
    // No loss, no double count: runaways plus the terminal split rebuild
    // the full brood of 1000.
    let gained = st.get(Counter::Runaway)
        + (st.get(Counter::Chickens) - 1)
        + st.get(Counter::Roosters);
    assert_eq!(gained, 1000);
}

#[test]
fn terminal_split_even_pool() {
    let mut st = fresh_state();
    st.set(Counter::Chicks, 6);
    let mut e = GrowthEffect { magnitude: 1, pool: 6, tick: 100 };
    let done = e.step(&mut st);
    assert!(done);
    assert_eq!(st.get(Counter::Chickens), 1 + 3);
    assert_eq!(st.get(Counter::Roosters), 3);
}

#[test]
fn terminal_split_odd_pool_favors_roosters() {
    let mut st = fresh_state();
    st.set(Counter::Chicks, 7);
    let mut e = GrowthEffect { magnitude: 1, pool: 7, tick: 100 };
    let done = e.step(&mut st);
    assert!(done);
    // The extra unit of the odd split always lands on the roosters side.
    assert_eq!(st.get(Counter::Chickens), 1 + 3);
    assert_eq!(st.get(Counter::Roosters), 4);
}

#[test]
fn concurrent_effects_lose_no_update() {
    let mut st = fresh_state();
    st.set(Counter::Chicks, 30);
    let mut sched = DelayedEffectScheduler::new();
    sched.spawn_growth(1);
    sched.spawn_growth(1);
    sched.spawn_growth(1);
    sched.tick(&mut st);
    // Three effects each removed one chick in the same tick: the shared
    // counter dropped by exactly three and every removal is accounted for.
    assert_eq!(st.get(Counter::Chicks), 27);
    assert_eq!(st.get(Counter::Runaway), 3);
    assert_eq!(sched.pending_growth(), 3);
}

#[test]
fn scheduler_reports_tracked_pool() {
    let mut sched = DelayedEffectScheduler::new();
    assert_eq!(sched.tracked_pool(), Some(0));
    sched.spawn_growth(2);
    sched.spawn_growth(5);
    assert_eq!(sched.tracked_pool(), Some(70));
}

#[test]
fn nest_countdown_shrinks_by_builders() {
    let mut st = fresh_state();
    st.set(Counter::NestBuilders, 300);
    let mut e = NestEffect { ticks: 600 };
    e.step(&mut st);
    assert_eq!(e.ticks, 300);
    e.step(&mut st);
    assert_eq!(e.ticks, 0);
}

#[test]
fn nest_countdown_saturates_at_zero() {
    let mut st = fresh_state();
    st.set(Counter::NestBuilders, 1000);
    let mut e = NestEffect { ticks: 600 };
    e.step(&mut st);
    assert_eq!(e.ticks, 0);
}

#[test]
fn nest_build_consumes_corn() {
    let mut st = fresh_state();
    st.set(Counter::NestBuilders, 5);
    st.set(Counter::Corn, 10);
    let mut e = NestEffect { ticks: 0 };
    e.step(&mut st);
    assert_eq!(st.get(Counter::Nests), 1);
    assert_eq!(st.get(Counter::Corn), 9);
    assert_eq!(st.get(Counter::NestBuilders), 5);
    assert_eq!(e.ticks, 600);
}

#[test]
fn nest_build_without_corn_returns_builders() {
    let mut st = fresh_state();
    st.set(Counter::NestBuilders, 5);
    st.set(Counter::Roosters, 2);
    let mut e = NestEffect { ticks: 0 };
    e.step(&mut st);
    assert_eq!(st.get(Counter::Nests), 1);
    assert_eq!(st.get(Counter::Corn), 0);
    assert_eq!(st.get(Counter::Roosters), 3);
    assert_eq!(st.get(Counter::NestBuilders), 4);
}

#[test]
fn threshold_conversion_carries_remainder() {
    let mut st = fresh_state();
    let mut sched = DelayedEffectScheduler::new();
    st.set(Counter::Breeding, 1999);
    st.set(Counter::Nests, 1);
    tick_logic(&mut st, &mut sched);
    // 1999 divided by 1000: one brood hatches, the remainder 999 carries.
    assert_eq!(st.get(Counter::Breeding), 999);
    assert_eq!(st.get(Counter::Chicks), 10);
    assert_eq!(st.get(Counter::Nests), 0);
    // The dependent count of in-flight effects increased by one.
    assert_eq!(sched.pending_growth(), 1);
}

#[test]
fn breeding_progresses_by_nests() {
    let mut st = fresh_state();
    let mut sched = DelayedEffectScheduler::new();
    st.set(Counter::Breeding, 500);
    st.set(Counter::Nests, 3);
    tick_logic(&mut st, &mut sched);
    assert_eq!(st.get(Counter::Breeding), 503);
    assert_eq!(st.get(Counter::Nests), 3);
    assert_eq!(sched.pending_growth(), 0);
}

#[test]
fn full_tick_transaction_commits_final_state() {
    let mut st = fresh_state();
    let mut sched = DelayedEffectScheduler::new();
    let mut store = DurableStore::new();
    st.set(Counter::Breeding, 1999);
    st.set(Counter::Nests, 1);
    transaction_tick(&mut st, &mut sched, &mut store);
    // After the tick body the fresh growth effect already ran its first
    // round: one of the ten new chicks ran away.
    assert_eq!(st.get(Counter::Breeding), 999);
    assert_eq!(st.get(Counter::Chicks), 9);
    assert_eq!(st.get(Counter::Runaway), 1);
    assert_eq!(sched.pending_growth(), 1);
    // The durable store holds exactly the committed values.
    assert_eq!(store.get_text(&String::from("breeding")), Some(String::from("999")));
    assert_eq!(store.get_text(&String::from("chicks")), Some(String::from("9")));
    assert_eq!(store.get_text(&String::from("runaway")), Some(String::from("1")));
    assert_eq!(store.get_text(&String::from("chickens")), Some(String::from("1")));
}

#[test]
fn startup_transaction_cleans_up_and_flushes() {
    let mut st = fresh_state();
    let mut sched = DelayedEffectScheduler::new();
    let mut store = DurableStore::new();
    st.set(Counter::Chicks, 23);
    st.set(Counter::NestBuilders, 1);
    transaction_step(&mut st, &mut sched, &mut store);
    assert_eq!(st.get(Counter::Chicks), 20);
    assert_eq!(st.get(Counter::Runaway), 3);
    assert_eq!(sched.pending_growth(), 1);
    assert!(sched.nest_started());
    assert_eq!(store.get_text(&String::from("chicks")), Some(String::from("20")));
    assert_eq!(store.get_text(&String::from("runaway")), Some(String::from("3")));
}

#[test]
fn cleanup_without_broods_spawns_nothing() {
    let mut st = fresh_state();
    let mut sched = DelayedEffectScheduler::new();
    st.set(Counter::Chicks, 9);
    cleanup(&mut st, &mut sched);
    assert_eq!(st.get(Counter::Chicks), 0);
    assert_eq!(st.get(Counter::Runaway), 9);
    assert_eq!(sched.pending_growth(), 0);
    assert!(!sched.nest_started());
}

#[test]
fn build_nest_action() {
    let mut st = fresh_state();
    st.set(Counter::Chickens, 5);
    st.set(Counter::Eggs, 10);
    assert!(apply_action(&mut st, PlayerAction::BuildNest));
    assert_eq!(st.get(Counter::Eggs), 0);
    assert_eq!(st.get(Counter::Nests), 1);
    // Not enough eggs any more: the action is refused and changes nothing.
    assert!(!apply_action(&mut st, PlayerAction::BuildNest));
    assert_eq!(st.get(Counter::Nests), 1);
}

#[test]
fn employ_nest_builder_action() {
    let mut st = fresh_state();
    assert!(!apply_action(&mut st, PlayerAction::EmployNestBuilder));
    st.set(Counter::Roosters, 2);
    assert!(apply_action(&mut st, PlayerAction::EmployNestBuilder));
    assert_eq!(st.get(Counter::Roosters), 1);
    assert_eq!(st.get(Counter::NestBuilders), 1);
}

#[test]
fn lay_egg_action() {
    let mut st = fresh_state();
    st.set(Counter::Chickens, 5);
    st.set(Counter::Nests, 2);
    assert!(apply_action(&mut st, PlayerAction::LayEgg));
    assert_eq!(st.get(Counter::Eggs), 3);
    st.set(Counter::Nests, 5);
    assert!(!apply_action(&mut st, PlayerAction::LayEgg));
    assert_eq!(st.get(Counter::Eggs), 3);
}
