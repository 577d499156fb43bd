//! Observable mutable cells with weak, non-owning readers.
//!
//! A `Registry` is an explicit slot arena: each cell occupies one slot that
//! carries a liveness flag and a generation counter. A `Sensor` is the single
//! owning writer of a slot; a `Reader` is a non-owning handle that remembers
//! the slot index and the generation under which it was made. Reading through
//! a `Reader` checks that the generation still matches, so once the owning
//! sensor is destroyed every reader derived from it reports absence forever,
//! even if the slot is later reused for a new cell.
use vstd::prelude::*;

verus! {

struct Slot<T> {
    live: bool,
    generation: u64,
    value: T,
}

/// The arena of cell slots. All sensors and readers resolve against one
/// registry.
pub struct Registry<T> {
    slots: Vec<Slot<T>>,
    free: Vec<usize>,
}

/// The owning writer of one cell. Not copyable: each live slot has exactly
/// one owner, and destroying the owner retires the slot.
pub struct Sensor {
    idx: usize,
    generation: u64,
}

/// A weak, non-owning handle on a cell: it never keeps the cell alive, and
/// resolves to absence once the owning sensor is gone.
pub struct Reader {
    idx: usize,
    generation: u64,
}

impl<T> Registry<T> {
    /// Number of slots ever allocated (live or retired).
    pub closed spec fn slot_count(&self) -> nat {
        self.slots@.len()
    }

    /// Whether slot `idx` currently holds a live cell.
    pub closed spec fn live_slot(&self, idx: int) -> bool {
        0 <= idx < self.slots@.len() && self.slots@[idx].live
    }

    /// Generation counter of slot `idx`.
    pub closed spec fn gen_at(&self, idx: int) -> u64 {
        self.slots@[idx].generation
    }

    /// Value stored in slot `idx`.
    pub closed spec fn value_at(&self, idx: int) -> T {
        self.slots@[idx].value
    }

    /// A handle with generation `generation` resolves at slot `idx`.
    pub open spec fn live_at(&self, idx: int, generation: u64) -> bool {
        self.live_slot(idx) && self.gen_at(idx) == generation
    }

    /// Internal free-list consistency: retired slots queued for reuse are in
    /// range, dead, and still have room to bump their generation.
    pub closed spec fn wf(&self) -> bool {
        &&& forall|k: int|
            0 <= k < self.free@.len() ==> (#[trigger] self.free@[k] < self.slots@.len()
                && !self.slots@[self.free@[k] as int].live
                && self.slots@[self.free@[k] as int].generation < u64::MAX)
        &&& forall|k1: int, k2: int|
            0 <= k1 < k2 < self.free@.len() ==> #[trigger] self.free@[k1] != #[trigger] self.free@[k2]
    }

    /// How a registry may change over time: slots are never removed,
    /// generations never decrease, and a retired slot can only come back to
    /// life under a strictly larger generation. Every mutating operation
    /// guarantees this relation between its old and new registry.
    pub open spec fn evolves_to(self, post: Registry<T>) -> bool {
        &&& post.slot_count() >= self.slot_count()
        &&& forall|i: int| 0 <= i < self.slot_count() ==> post.gen_at(i) >= #[trigger] self.gen_at(i)
        &&& forall|i: int|
            0 <= i < self.slot_count() && !self.live_slot(i) && #[trigger] post.live_slot(i)
                ==> post.gen_at(i) > self.gen_at(i)
    }

    pub fn new() -> (r: Registry<T>)
        ensures
            r.wf(),
            r.slot_count() == 0,
    {
        Registry { slots: Vec::new(), free: Vec::new() }
    }
}

/// A live slot lies inside the registry's allocated range.
pub proof fn lemma_live_slot_in_range<T>(reg: &Registry<T>, i: int)
    requires
        reg.live_slot(i),
    ensures
        0 <= i < reg.slot_count(),
{
}

/// Registry evolution is transitive, so absence proved against one step
/// carries across any chain of operations.
pub proof fn lemma_evolves_trans<T>(a: Registry<T>, b: Registry<T>, c: Registry<T>)
    requires
        a.evolves_to(b),
        b.evolves_to(c),
    ensures
        a.evolves_to(c),
{
}

impl Sensor {
    /// Slot index this sensor owns.
    pub closed spec fn slot(&self) -> int {
        self.idx as int
    }

    /// Generation under which this sensor owns its slot.
    pub closed spec fn generation(&self) -> u64 {
        self.generation
    }

    /// The sensor resolves in `reg`: its slot is live under its generation.
    pub open spec fn valid<T>(&self, reg: &Registry<T>) -> bool {
        reg.live_at(self.slot(), self.generation())
    }

    /// Current value of the owned cell.
    pub open spec fn spec_value<T>(&self, reg: &Registry<T>) -> T {
        reg.value_at(self.slot())
    }

    /// Create a cell holding `val`, leaving reader creation to later.
    pub fn raw<T>(reg: &mut Registry<T>, val: T) -> (s: Sensor)
        requires
            old(reg).wf(),
        ensures
            final(reg).wf(),
            old(reg).evolves_to(*final(reg)),
            s.valid(final(reg)),
            s.spec_value(final(reg)) == val,
            forall|i: int, g: u64| old(reg).live_at(i, g) ==> i != s.slot(),
            forall|i: int|
                0 <= i < old(reg).slot_count() && i != s.slot() ==> (final(reg).live_slot(i)
                    == old(reg).live_slot(i) && final(reg).gen_at(i) == old(reg).gen_at(i)
                    && final(reg).value_at(i) == old(reg).value_at(i)),
            final(reg).slot_count() >= old(reg).slot_count(),
    {
        match reg.free.pop() {
            Some(idx) => {
                proof {
                    assert(forall|k: int|
                        0 <= k < reg.free@.len() ==> #[trigger] reg.free@[k] == old(
                            reg,
                        ).free@[k]);
                    assert(forall|k: int| 0 <= k < reg.free@.len() ==> reg.free@[k] != idx);
                }
                let g = reg.slots[idx].generation + 1;
                reg.slots[idx] = Slot { live: true, generation: g, value: val };
                Sensor { idx, generation: g }
            },
            None => {
                let idx = reg.slots.len();
                reg.slots.push(Slot { live: true, generation: 0, value: val });
                Sensor { idx, generation: 0 }
            },
        }
    }

    /// Create a cell and a reader on it at the same time.
    pub fn new<T>(reg: &mut Registry<T>, val: T) -> (pair: (Sensor, Reader))
        requires
            old(reg).wf(),
        ensures
            final(reg).wf(),
            old(reg).evolves_to(*final(reg)),
            pair.0.valid(final(reg)),
            pair.0.spec_value(final(reg)) == val,
            pair.1.slot() == pair.0.slot(),
            pair.1.generation() == pair.0.generation(),
            forall|i: int, g: u64| old(reg).live_at(i, g) ==> i != pair.0.slot(),
            forall|i: int|
                0 <= i < old(reg).slot_count() && i != pair.0.slot() ==> (final(reg).live_slot(i) == old(reg).live_slot(i) && final(reg).gen_at(i) == old(reg).gen_at(i) && final(reg).value_at(i) == old(reg).value_at(i)),
            final(reg).slot_count() >= old(reg).slot_count(),
    {
        let s = Sensor::raw(reg, val);
        let r = s.make_reader();
        (s, r)
    }

    /// Derive a fresh weak reader on this cell; callable repeatedly, each
    /// reader independently revocable by destroying the cell.
    pub fn make_reader(&self) -> (r: Reader)
        ensures
            r.slot() == self.slot(),
            r.generation() == self.generation(),
    {
        Reader { idx: self.idx, generation: self.generation }
    }

    /// Overwrite the cell's value; visible to every reader immediately.
    pub fn set<T>(&self, reg: &mut Registry<T>, val: T)
        requires
            old(reg).wf(),
            self.valid(old(reg)),
        ensures
            final(reg).wf(),
            old(reg).evolves_to(*final(reg)),
            self.valid(final(reg)),
            self.spec_value(final(reg)) == val,
            final(reg).slot_count() == old(reg).slot_count(),
            forall|i: int|
                0 <= i < old(reg).slot_count() && i != self.slot() ==> (final(reg).live_slot(i) == old(reg).live_slot(i) && final(reg).gen_at(i) == old(reg).gen_at(i) && final(reg).value_at(i) == old(reg).value_at(i)),
            forall|i: int, g: u64| final(reg).live_at(i, g) == old(reg).live_at(i, g),
    {
        let slot = &mut reg.slots[self.idx];
        slot.value = val;
    }

    /// Read the cell's current value.
    pub fn get<T: Copy>(&self, reg: &Registry<T>) -> (r: T)
        requires
            self.valid(reg),
        ensures
            r == self.spec_value(reg),
    {
        reg.slots[self.idx].value
    }

    /// Read-modify-write with `f`; no atomicity beyond single-turn access.
    pub fn update<T: Copy, F: FnOnce(T) -> T>(&self, reg: &mut Registry<T>, f: F)
        requires
            old(reg).wf(),
            self.valid(old(reg)),
            call_requires(f, (self.spec_value(old(reg)),)),
        ensures
            final(reg).wf(),
            old(reg).evolves_to(*final(reg)),
            self.valid(final(reg)),
            call_ensures(f, (self.spec_value(old(reg)),), self.spec_value(final(reg))),
            final(reg).slot_count() == old(reg).slot_count(),
            forall|i: int|
                0 <= i < old(reg).slot_count() && i != self.slot() ==> (final(reg).live_slot(i) == old(reg).live_slot(i) && final(reg).gen_at(i) == old(reg).gen_at(i) && final(reg).value_at(i) == old(reg).value_at(i)),
            forall|i: int, g: u64| final(reg).live_at(i, g) == old(reg).live_at(i, g),
    {
        let val = self.get(reg);
        let new = f(val);
        self.set(reg, new);
    }

    /// Read-modify-write with `f`, returning the new value.
    pub fn modify<T: Copy, F: FnOnce(T) -> T>(&self, reg: &mut Registry<T>, f: F) -> (r: T)
        requires
            old(reg).wf(),
            self.valid(old(reg)),
            call_requires(f, (self.spec_value(old(reg)),)),
        ensures
            final(reg).wf(),
            old(reg).evolves_to(*final(reg)),
            self.valid(final(reg)),
            r == self.spec_value(final(reg)),
            call_ensures(f, (self.spec_value(old(reg)),), r),
            final(reg).slot_count() == old(reg).slot_count(),
            forall|i: int|
                0 <= i < old(reg).slot_count() && i != self.slot() ==> (final(reg).live_slot(i) == old(reg).live_slot(i) && final(reg).gen_at(i) == old(reg).gen_at(i) && final(reg).value_at(i) == old(reg).value_at(i)),
            forall|i: int, g: u64| final(reg).live_at(i, g) == old(reg).live_at(i, g),
    {
        let old_val = self.get(reg);
        let new = f(old_val);
        self.set(reg, new);
        new
    }

    /// Compound addition, defined via `update`; the sum must stay
    /// representable.
    pub fn add_assign(&self, reg: &mut Registry<u64>, rhs: u64)
        requires
            old(reg).wf(),
            self.valid(old(reg)),
            self.spec_value(old(reg)) + rhs <= u64::MAX,
        ensures
            final(reg).wf(),
            old(reg).evolves_to(*final(reg)),
            self.valid(final(reg)),
            self.spec_value(final(reg)) == self.spec_value(old(reg)) + rhs,
            final(reg).slot_count() == old(reg).slot_count(),
            forall|i: int|
                0 <= i < old(reg).slot_count() && i != self.slot() ==> (final(reg).live_slot(i)
                    == old(reg).live_slot(i) && final(reg).gen_at(i) == old(reg).gen_at(i)
                    && final(reg).value_at(i) == old(reg).value_at(i)),
            forall|i: int, g: u64| final(reg).live_at(i, g) == old(reg).live_at(i, g),
    {
        let f = (|v: u64| -> (r: u64)
            requires
                v + rhs <= u64::MAX,
            ensures
                r == v + rhs,
            {
                v + rhs
            });
        self.update(reg, f);
    }

    /// Compound subtraction, defined via `update`; bounds are required up
    /// front so the unsigned value cannot underflow.
    pub fn sub_assign(&self, reg: &mut Registry<u64>, rhs: u64)
        requires
            old(reg).wf(),
            self.valid(old(reg)),
            rhs <= self.spec_value(old(reg)),
        ensures
            final(reg).wf(),
            old(reg).evolves_to(*final(reg)),
            self.valid(final(reg)),
            self.spec_value(final(reg)) == self.spec_value(old(reg)) - rhs,
            final(reg).slot_count() == old(reg).slot_count(),
            forall|i: int|
                0 <= i < old(reg).slot_count() && i != self.slot() ==> (final(reg).live_slot(i)
                    == old(reg).live_slot(i) && final(reg).gen_at(i) == old(reg).gen_at(i)
                    && final(reg).value_at(i) == old(reg).value_at(i)),
            forall|i: int, g: u64| final(reg).live_at(i, g) == old(reg).live_at(i, g),
    {
        let f = (|v: u64| -> (r: u64)
            requires
                rhs <= v,
            ensures
                r == v - rhs,
            {
                v - rhs
            });
        self.update(reg, f);
    }

    /// Compound multiplication, defined via `update`; the product must stay
    /// representable.
    pub fn mul_assign(&self, reg: &mut Registry<u64>, rhs: u64)
        requires
            old(reg).wf(),
            self.valid(old(reg)),
            self.spec_value(old(reg)) * rhs <= u64::MAX,
        ensures
            final(reg).wf(),
            old(reg).evolves_to(*final(reg)),
            self.valid(final(reg)),
            self.spec_value(final(reg)) == self.spec_value(old(reg)) * rhs,
            final(reg).slot_count() == old(reg).slot_count(),
            forall|i: int|
                0 <= i < old(reg).slot_count() && i != self.slot() ==> (final(reg).live_slot(i)
                    == old(reg).live_slot(i) && final(reg).gen_at(i) == old(reg).gen_at(i)
                    && final(reg).value_at(i) == old(reg).value_at(i)),
            forall|i: int, g: u64| final(reg).live_at(i, g) == old(reg).live_at(i, g),
    {
        let f = (|v: u64| -> (r: u64)
            requires
                v * rhs <= u64::MAX,
            ensures
                r == v * rhs,
            {
                v * rhs
            });
        self.update(reg, f);
    }

    /// Equality against a plain value, delegating to the current value.
    pub fn eq(&self, reg: &Registry<u64>, other: &u64) -> (r: bool)
        requires
            self.valid(reg),
        ensures
            r == (self.spec_value(reg) == *other),
    {
        self.get(reg) == *other
    }

    /// Ordering against a plain value, delegating to the current value.
    pub fn partial_cmp(&self, reg: &Registry<u64>, other: &u64) -> (r: Option<
        core::cmp::Ordering,
    >)
        requires
            self.valid(reg),
        ensures
            self.spec_value(reg) < *other ==> r == Some(core::cmp::Ordering::Less),
            self.spec_value(reg) == *other ==> r == Some(core::cmp::Ordering::Equal),
            self.spec_value(reg) > *other ==> r == Some(core::cmp::Ordering::Greater),
    {
        let v = self.get(reg);
        if v < *other {
            Some(core::cmp::Ordering::Less)
        } else if v == *other {
            Some(core::cmp::Ordering::Equal)
        } else {
            Some(core::cmp::Ordering::Greater)
        }
    }

    /// Compound remainder, defined via `update`; the divisor must not be
    /// zero.
    pub fn rem_assign(&self, reg: &mut Registry<u64>, rhs: u64)
        requires
            old(reg).wf(),
            self.valid(old(reg)),
            rhs > 0,
        ensures
            final(reg).wf(),
            old(reg).evolves_to(*final(reg)),
            self.valid(final(reg)),
            self.spec_value(final(reg)) == self.spec_value(old(reg)) % rhs,
            final(reg).slot_count() == old(reg).slot_count(),
            forall|i: int|
                0 <= i < old(reg).slot_count() && i != self.slot() ==> (final(reg).live_slot(i)
                    == old(reg).live_slot(i) && final(reg).gen_at(i) == old(reg).gen_at(i)
                    && final(reg).value_at(i) == old(reg).value_at(i)),
            forall|i: int, g: u64| final(reg).live_at(i, g) == old(reg).live_at(i, g),
    {
        let f = (|v: u64| -> (r: u64)
            requires
                rhs > 0,
            ensures
                r == v % rhs,
            {
                v % rhs
            });
        self.update(reg, f);
    }

    /// Destroy the cell: the slot is retired and every reader derived from
    /// this sensor resolves to absence from now on.
    pub fn destroy<T>(self, reg: &mut Registry<T>)
        requires
            old(reg).wf(),
            self.valid(old(reg)),
        ensures
            final(reg).wf(),
            old(reg).evolves_to(*final(reg)),
            !final(reg).live_slot(self.slot()),
            final(reg).gen_at(self.slot()) == old(reg).gen_at(self.slot()),
            final(reg).slot_count() == old(reg).slot_count(),
            forall|i: int|
                0 <= i < old(reg).slot_count() && i != self.slot() ==> (final(reg).live_slot(i) == old(reg).live_slot(i) && final(reg).gen_at(i) == old(reg).gen_at(i) && final(reg).value_at(i) == old(reg).value_at(i)),
    {
        proof {
            assert(forall|k: int|
                0 <= k < old(reg).free@.len() ==> #[trigger] old(reg).free@[k] != self.idx);
        }
        let slot = &mut reg.slots[self.idx];
        slot.live = false;
        let g = reg.slots[self.idx].generation;
        if g < u64::MAX {
            reg.free.push(self.idx);
        }
    }
}

impl Reader {
    /// Slot index this reader observes.
    pub closed spec fn slot(&self) -> int {
        self.idx as int
    }

    /// Generation under which this reader was derived.
    pub closed spec fn generation(&self) -> u64 {
        self.generation
    }

    /// The reader still resolves in `reg`.
    pub open spec fn valid<T>(&self, reg: &Registry<T>) -> bool {
        reg.live_at(self.slot(), self.generation())
    }

    /// The reader was derived inside `reg`: its slot exists and its
    /// generation is no newer than the slot's. Holds of every reader made
    /// through `make_reader` and is preserved as the registry evolves.
    pub open spec fn derived_in<T>(&self, reg: &Registry<T>) -> bool {
        0 <= self.slot() < reg.slot_count() && self.generation() <= reg.gen_at(self.slot())
    }

    /// Observe the cell: the latest value while the owning sensor lives,
    /// absence exactly when it is gone.
    pub fn get<T: Copy>(&self, reg: &Registry<T>) -> (r: Option<T>)
        ensures
            r == if self.valid(reg) {
                Some(reg.value_at(self.slot()))
            } else {
                None::<T>
            },
    {
        if self.idx < reg.slots.len() {
            let slot = &reg.slots[self.idx];
            if slot.live && slot.generation == self.generation {
                Some(slot.value)
            } else {
                None
            }
        } else {
            None
        }
    }
}

/// Weak-reference law, first half: every reader on a retired slot fails to
/// resolve, whatever generation it carries — in particular every reader
/// derived from a destroyed sensor.
pub proof fn lemma_reader_of_dead_slot<T>(r: Reader, reg: &Registry<T>)
    requires
        !reg.live_slot(r.slot()),
    ensures
        !r.valid(reg),
{
}

/// Weak-reference law, second half: once a reader fails to resolve, it keeps
/// failing in every future registry, however the slots are mutated or
/// reused.
pub proof fn lemma_absent_reader_stays_absent<T>(r: Reader, pre: Registry<T>, post: Registry<T>)
    requires
        pre.evolves_to(post),
        r.derived_in(&pre),
        !r.valid(&pre),
    ensures
        !r.valid(&post),
        r.derived_in(&post),
{
}

} // verus!
