//! The shared aggregate state: the group of persistent counters jointly
//! mutated by the tick body and every in-flight delayed effect.
//!
//! The aggregate is an explicit value passed by reference into the tick
//! function and the scheduler: initialized once at start from the durable
//! store, flushed as one pass at every transaction boundary.
use crate::codec::dec_digits;
use crate::field::loaded_value;
use crate::field::PersistentField;
use crate::registry::Registry;
use crate::store::DurableStore;
use vstd::prelude::*;

verus! {

/// The finite set of persisted counters of the simulation.
#[derive(Clone, Copy, PartialEq, Eq, Structural, Debug)]
pub enum Counter {
    Chickens,
    Roosters,
    NestBuilders,
    Chicks,
    Runaway,
    Nests,
    Eggs,
    Breeding,
    Corn,
}

/// Position of each counter in the field table.
pub open spec fn counter_index(c: Counter) -> int {
    match c {
        Counter::Chickens => 0,
        Counter::Roosters => 1,
        Counter::NestBuilders => 2,
        Counter::Chicks => 3,
        Counter::Runaway => 4,
        Counter::Nests => 5,
        Counter::Eggs => 6,
        Counter::Breeding => 7,
        Counter::Corn => 8,
    }
}

/// Counter at a given table position.
pub open spec fn counter_of(i: int) -> Counter {
    if i == 0 {
        Counter::Chickens
    } else if i == 1 {
        Counter::Roosters
    } else if i == 2 {
        Counter::NestBuilders
    } else if i == 3 {
        Counter::Chicks
    } else if i == 4 {
        Counter::Runaway
    } else if i == 5 {
        Counter::Nests
    } else if i == 6 {
        Counter::Eggs
    } else if i == 7 {
        Counter::Breeding
    } else {
        Counter::Corn
    }
}

/// Durable key of each counter.
pub open spec fn key_seq(c: Counter) -> Seq<char> {
    match c {
        Counter::Chickens => "chickens"@,
        Counter::Roosters => "roosters"@,
        Counter::NestBuilders => "nest_builders"@,
        Counter::Chicks => "chicks"@,
        Counter::Runaway => "runaway"@,
        Counter::Nests => "nests"@,
        Counter::Eggs => "eggs"@,
        Counter::Breeding => "breeding"@,
        Counter::Corn => "corn"@,
    }
}

/// Starting value of each counter when no durable record is usable: one
/// founding chicken, everything else empty.
pub open spec fn default_of(c: Counter) -> u64 {
    match c {
        Counter::Chickens => 1,
        _ => 0,
    }
}

/// A key written by some counter of the aggregate.
pub open spec fn is_state_key(k: Seq<char>) -> bool {
    exists|c: Counter| key_seq(c) == k
}

proof fn reveal_all_keys()
    ensures
        forall|c1: Counter, c2: Counter| c1 != c2 ==> key_seq(c1) != key_seq(c2),
{
    reveal_strlit("chickens");
    reveal_strlit("roosters");
    reveal_strlit("nest_builders");
    reveal_strlit("chicks");
    reveal_strlit("runaway");
    reveal_strlit("nests");
    reveal_strlit("eggs");
    reveal_strlit("breeding");
    reveal_strlit("corn");
    assert forall|c1: Counter, c2: Counter| c1 != c2 implies key_seq(c1) != key_seq(c2) by {
        assert(key_seq(Counter::Chickens).len() == 8 && key_seq(Counter::Chickens)[0] == 'c');
        assert(key_seq(Counter::Roosters).len() == 8 && key_seq(Counter::Roosters)[0] == 'r');
        assert(key_seq(Counter::NestBuilders).len() == 13);
        assert(key_seq(Counter::Chicks).len() == 6);
        assert(key_seq(Counter::Runaway).len() == 7);
        assert(key_seq(Counter::Nests).len() == 5);
        assert(key_seq(Counter::Eggs).len() == 4 && key_seq(Counter::Eggs)[0] == 'e');
        assert(key_seq(Counter::Breeding).len() == 8 && key_seq(Counter::Breeding)[0] == 'b');
        assert(key_seq(Counter::Corn).len() == 4 && key_seq(Counter::Corn)[0] == 'c');
    }
}

/// Distinct counters persist under distinct durable keys.
pub proof fn lemma_keys_distinct(c1: Counter, c2: Counter)
    requires
        c1 != c2,
    ensures
        key_seq(c1) != key_seq(c2),
{
    reveal_all_keys();
}

fn key_str(c: Counter) -> (s: String)
    ensures
        s@ == key_seq(c),
{
    match c {
        Counter::Chickens => String::from_str("chickens"),
        Counter::Roosters => String::from_str("roosters"),
        Counter::NestBuilders => String::from_str("nest_builders"),
        Counter::Chicks => String::from_str("chicks"),
        Counter::Runaway => String::from_str("runaway"),
        Counter::Nests => String::from_str("nests"),
        Counter::Eggs => String::from_str("eggs"),
        Counter::Breeding => String::from_str("breeding"),
        Counter::Corn => String::from_str("corn"),
    }
}

fn counter_from(i: usize) -> (c: Counter)
    requires
        i < 9,
    ensures
        c == counter_of(i as int),
        counter_index(c) == i as int,
{
    match i {
        0 => Counter::Chickens,
        1 => Counter::Roosters,
        2 => Counter::NestBuilders,
        3 => Counter::Chicks,
        4 => Counter::Runaway,
        5 => Counter::Nests,
        6 => Counter::Eggs,
        7 => Counter::Breeding,
        _ => Counter::Corn,
    }
}

/// A mathematical snapshot of all nine counters: the view of a `GameState`,
/// over which tick transitions and effect steps are specified.
pub struct StateView {
    pub chickens: u64,
    pub roosters: u64,
    pub nest_builders: u64,
    pub chicks: u64,
    pub runaway: u64,
    pub nests: u64,
    pub eggs: u64,
    pub breeding: u64,
    pub corn: u64,
}

impl StateView {
    /// Field of the snapshot named by a counter.
    pub open spec fn counter(self, c: Counter) -> u64 {
        match c {
            Counter::Chickens => self.chickens,
            Counter::Roosters => self.roosters,
            Counter::NestBuilders => self.nest_builders,
            Counter::Chicks => self.chicks,
            Counter::Runaway => self.runaway,
            Counter::Nests => self.nests,
            Counter::Eggs => self.eggs,
            Counter::Breeding => self.breeding,
            Counter::Corn => self.corn,
        }
    }
}

/// The shared aggregate: one registry of cells and one persistent field per
/// counter.
pub struct GameState {
    registry: Registry<u64>,
    fields: Vec<PersistentField>,
}

impl View for GameState {
    type V = StateView;

    open spec fn view(&self) -> StateView {
        StateView {
            chickens: self.value_of(Counter::Chickens),
            roosters: self.value_of(Counter::Roosters),
            nest_builders: self.value_of(Counter::NestBuilders),
            chicks: self.value_of(Counter::Chicks),
            runaway: self.value_of(Counter::Runaway),
            nests: self.value_of(Counter::Nests),
            eggs: self.value_of(Counter::Eggs),
            breeding: self.value_of(Counter::Breeding),
            corn: self.value_of(Counter::Corn),
        }
    }
}

impl GameState {
    /// Structural invariant: one well-bound, live field per counter, each on
    /// its own cell slot.
    pub closed spec fn wf(&self) -> bool {
        &&& self.registry.wf()
        &&& self.fields@.len() == 9
        &&& forall|i: int|
            0 <= i < 9 ==> (#[trigger] self.fields@[i]).valid(&self.registry)
                && self.fields@[i].key() == key_seq(counter_of(i))
                && self.fields@[i].default_value() == default_of(counter_of(i))
        &&& forall|i: int, j: int|
            0 <= i < j < 9 ==> (#[trigger] self.fields@[i]).slot() != (#[trigger] self.fields@[j]).slot()
    }

    /// Current in-memory value of a counter.
    pub closed spec fn value_of(&self, c: Counter) -> u64 {
        self.fields@[counter_index(c)].value(&self.registry)
    }

    /// Load the whole aggregate from the durable store: each counter starts
    /// from its decoded record or its default.
    pub fn new(store: &DurableStore) -> (s: GameState)
        requires
            store.wf(),
        ensures
            s.wf(),
            forall|c: Counter| s.value_of(c) == loaded_value(store@, key_seq(c), default_of(c)),
    {
        let mut registry: Registry<u64> = Registry::new();
        let mut fields: Vec<PersistentField> = Vec::new();
        let mut i: usize = 0;
        while i < 9
            invariant
                store.wf(),
                registry.wf(),
                fields@.len() == i,
                0 <= i <= 9,
                forall|j: int|
                    0 <= j < i ==> (#[trigger] fields@[j]).valid(&registry) && fields@[j].key()
                        == key_seq(counter_of(j)) && fields@[j].default_value() == default_of(
                        counter_of(j),
                    ) && fields@[j].value(&registry) == loaded_value(
                        store@,
                        key_seq(counter_of(j)),
                        default_of(counter_of(j)),
                    ),
                forall|j1: int, j2: int|
                    0 <= j1 < j2 < i ==> (#[trigger] fields@[j1]).slot() != (#[trigger] fields@[j2]).slot(),
            decreases 9 - i,
        {
            let c = counter_from(i);
            let ghost pre_reg = registry;
            let ghost pre_fields = fields@;
            let f = PersistentField::new(&mut registry, store, default_of_exec(c), key_str(c));
            fields.push(f);
            proof {
                assert forall|j: int| 0 <= j < i as int implies (#[trigger] fields@[j]).valid(
                    &registry,
                ) && fields@[j].value(&registry) == pre_fields[j].value(&pre_reg) && fields@[j].slot()
                    != f.slot() by {
                    assert(fields@[j] == pre_fields[j]);
                    assert(pre_fields[j].valid(&pre_reg));
                    assert(pre_reg.live_at(pre_fields[j].slot(), pre_fields[j].sensor_generation()));
                    assert(pre_reg.live_slot(pre_fields[j].slot()));
                    crate::registry::lemma_live_slot_in_range(&pre_reg, pre_fields[j].slot());
                }
            }
            i = i + 1;
        }
        let s = GameState { registry, fields };
        proof {
            assert forall|c: Counter| s.value_of(c) == loaded_value(
                store@,
                key_seq(c),
                default_of(c),
            ) by {
                assert(counter_of(counter_index(c)) == c);
                assert(s.fields@[counter_index(c)].valid(&s.registry));
            }
        }
        s
    }

    /// Read a counter.
    pub fn get(&self, c: Counter) -> (r: u64)
        requires
            self.wf(),
        ensures
            r == self.value_of(c),
    {
        let i = counter_index_exec(c);
        self.fields[i].get(&self.registry)
    }

    /// Overwrite a counter, leaving every other counter untouched.
    pub fn set(&mut self, c: Counter, v: u64)
        requires
            old(self).wf(),
        ensures
            final(self).wf(),
            final(self).value_of(c) == v,
            forall|c2: Counter| c2 != c ==> final(self).value_of(c2) == old(self).value_of(c2),
    {
        let i = counter_index_exec(c);
        let f = &mut self.fields[i];
        f.set(&mut self.registry, v);
        proof {
            assert forall|c2: Counter| c2 != c implies self.value_of(c2) == old(self).value_of(
                c2,
            ) by {
                let j = counter_index(c2);
                let k = counter_index(c);
                assert(j != k);
                assert(self.fields@[j] == old(self).fields@[j]);
                assert(old(self).fields@[j].valid(&old(self).registry));
                assert(old(self).registry.live_slot(old(self).fields@[j].slot()));
                crate::registry::lemma_live_slot_in_range(
                    &old(self).registry,
                    old(self).fields@[j].slot(),
                );
                assert(old(self).fields@[j].slot() != old(self).fields@[k].slot());
            }
        }
    }

    /// Increase a counter; the sum must stay representable.
    pub fn add(&mut self, c: Counter, d: u64)
        requires
            old(self).wf(),
            old(self).value_of(c) + d <= u64::MAX,
        ensures
            final(self).wf(),
            final(self).value_of(c) == old(self).value_of(c) + d,
            forall|c2: Counter| c2 != c ==> final(self).value_of(c2) == old(self).value_of(c2),
    {
        let v = self.get(c);
        self.set(c, v + d);
    }

    /// Decrease a counter; bounds are checked before the subtraction, so the
    /// unsigned value can never underflow.
    pub fn sub(&mut self, c: Counter, d: u64)
        requires
            old(self).wf(),
            d <= old(self).value_of(c),
        ensures
            final(self).wf(),
            final(self).value_of(c) == old(self).value_of(c) - d,
            forall|c2: Counter| c2 != c ==> final(self).value_of(c2) == old(self).value_of(c2),
    {
        let v = self.get(c);
        self.set(c, v - d);
    }

    /// One flush pass: commit every counter's current value to the durable
    /// store. Afterwards the store carries exactly the aggregate's decimal
    /// records on the state keys and is untouched elsewhere.
    pub fn flush_all(&mut self, store: &mut DurableStore)
        requires
            old(self).wf(),
            old(store).wf(),
        ensures
            final(self).wf(),
            final(store).wf(),
            forall|c: Counter| final(self).value_of(c) == old(self).value_of(c),
            forall|c: Counter|
                final(store)@.contains_key(key_seq(c)) && final(store)@[key_seq(c)] == dec_digits(
                    old(self).value_of(c) as nat,
                ),
            forall|k: Seq<char>|
                !is_state_key(k) ==> (final(store)@.contains_key(k) == old(store)@.contains_key(k)
                    && (old(store)@.contains_key(k) ==> final(store)@[k] == old(store)@[k])),
    {
        proof {
            reveal_all_keys();
        }
        let mut i: usize = 0;
        while i < 9
            invariant
                self.wf(),
                store.wf(),
                0 <= i <= 9,
                forall|c1: Counter, c2: Counter| c1 != c2 ==> key_seq(c1) != key_seq(c2),
                forall|j: int|
                    0 <= j < 9 ==> (#[trigger] self.fields@[j]).same_binding(
                        &old(self).fields@[j],
                    ),
                self.registry == old(self).registry,
                forall|c: Counter| self.value_of(c) == old(self).value_of(c),
                forall|j: int|
                    0 <= j < i ==> (store@.contains_key(key_seq(counter_of(j)))
                        && store@[key_seq(counter_of(j))] == dec_digits(
                        old(self).value_of(counter_of(j)) as nat,
                    )),
                forall|k: Seq<char>|
                    !is_state_key(k) ==> (store@.contains_key(k) == old(store)@.contains_key(k) && (
                    old(store)@.contains_key(k) ==> store@[k] == old(store)@[k])),
            decreases 9 - i,
        {
            let ghost pre_store = store@;
            let ghost pre_fields = self.fields@;
            let f = &mut self.fields[i];
            f.flush(&self.registry, store);
            proof {
                let ci = counter_of(i as int);
                assert(counter_index(ci) == i as int);
                assert forall|j: int| 0 <= j < 9 implies (#[trigger] self.fields@[j]).same_binding(
                    &old(self).fields@[j],
                ) by {
                    if j != i as int {
                        assert(self.fields@[j] == pre_fields[j]);
                    }
                }
                assert(self.fields@[i as int].slot() == pre_fields[i as int].slot());
                assert(store@ == pre_store.insert(
                    key_seq(ci),
                    dec_digits(old(self).value_of(ci) as nat,
                )));
                assert(is_state_key(key_seq(ci)));
                assert forall|c: Counter| self.value_of(c) == old(self).value_of(c) by {
                    let j = counter_index(c);
                    assert(self.fields@[j].same_binding(&old(self).fields@[j]));
                }
            }
            i = i + 1;
        }
        proof {
            assert forall|c: Counter| store@.contains_key(key_seq(c)) && store@[key_seq(c)]
                == dec_digits(old(self).value_of(c) as nat) by {
                let j = counter_index(c);
                assert(0 <= j < 9);
                assert(counter_of(j) == c);
            }
        }
    }
}

fn default_of_exec(c: Counter) -> (d: u64)
    ensures
        d == default_of(c),
{
    match c {
        Counter::Chickens => 1,
        _ => 0,
    }
}

fn counter_index_exec(c: Counter) -> (i: usize)
    ensures
        i as int == counter_index(c),
        i < 9,
        counter_of(i as int) == c,
{
    match c {
        Counter::Chickens => 0,
        Counter::Roosters => 1,
        Counter::NestBuilders => 2,
        Counter::Chicks => 3,
        Counter::Runaway => 4,
        Counter::Nests => 5,
        Counter::Eggs => 6,
        Counter::Breeding => 7,
        Counter::Corn => 8,
    }
}

} // verus!
