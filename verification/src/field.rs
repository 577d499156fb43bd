//! A per-field persistence wrapper: one observable cell bound to one durable
//! store key.
//!
//! Immediately after construction the field's value equals the durable
//! record under its key, or the supplied default if the record is absent or
//! malformed — availability over strict validation. Mutations are visible to
//! in-process readers instantly and reach durable storage only when the
//! field is flushed.
use crate::codec::dec_digits;
use crate::codec::decode_u64;
use crate::codec::encode_u64;
use crate::codec::lemma_round_trip;
use crate::codec::parse_spec;
use crate::registry::Reader;
use crate::registry::Registry;
use crate::registry::Sensor;
use crate::store::DurableStore;
use vstd::prelude::*;

verus! {

/// What construction or reload yields: the durable record under `key`
/// decoded, or `default` when the record is absent or malformed.
pub open spec fn loaded_value(
    m: Map<Seq<char>, Seq<char>>,
    key: Seq<char>,
    default: u64,
) -> u64 {
    if m.contains_key(key) {
        match parse_spec(m[key]) {
            Some(v) => v,
            None => default,
        }
    } else {
        default
    }
}

/// Whether the durable record under `key` decodes to a value.
pub open spec fn record_ok(m: Map<Seq<char>, Seq<char>>, key: Seq<char>) -> bool {
    m.contains_key(key) && parse_spec(m[key]) is Some
}

/// A numeric field that persists under a stable string key.
pub struct PersistentField {
    sensor: Sensor,
    key: String,
    default: u64,
    dirty: bool,
}

impl PersistentField {
    /// The durable key this field persists under.
    pub closed spec fn key(&self) -> Seq<char> {
        self.key@
    }

    /// The fallback value used when the durable record is unusable.
    pub closed spec fn default_value(&self) -> u64 {
        self.default
    }

    /// The in-memory value holds changes not yet flushed.
    pub closed spec fn needs_flush(&self) -> bool {
        self.dirty
    }

    /// Registry slot of the embedded cell.
    pub closed spec fn slot(&self) -> int {
        self.sensor.slot()
    }

    /// The embedded cell resolves in `reg`.
    pub open spec fn valid(&self, reg: &Registry<u64>) -> bool {
        reg.live_at(self.slot(), self.sensor_generation())
    }

    /// Current in-memory value.
    pub open spec fn value(&self, reg: &Registry<u64>) -> u64 {
        reg.value_at(self.slot())
    }

    /// Everything but the cell's payload and the flush flag is fixed for the
    /// field's whole life.
    pub open spec fn same_binding(&self, other: &PersistentField) -> bool {
        self.key() == other.key() && self.default_value() == other.default_value()
            && self.slot() == other.slot() && self.sensor_generation() == other.sensor_generation()
    }

    /// Generation under which the embedded cell is owned.
    pub closed spec fn sensor_generation(&self) -> u64 {
        self.sensor.generation()
    }

    /// Bind a fresh cell to `key`: look the key up and start from its
    /// decoded record, or from `default` when the record is absent or
    /// malformed. A usable record leaves nothing to flush; a fallback start
    /// is marked as needing one.
    pub fn new(
        reg: &mut Registry<u64>,
        store: &DurableStore,
        default: u64,
        key: String,
    ) -> (f: PersistentField)
        requires
            old(reg).wf(),
            store.wf(),
        ensures
            final(reg).wf(),
            old(reg).evolves_to(*final(reg)),
            f.valid(final(reg)),
            f.value(final(reg)) == loaded_value(store@, key@, default),
            f.key() == key@,
            f.default_value() == default,
            f.needs_flush() == !record_ok(store@, key@),
            forall|i: int, g: u64| old(reg).live_at(i, g) ==> i != f.slot(),
            forall|i: int|
                0 <= i < old(reg).slot_count() && i != f.slot() ==> (final(reg).live_slot(i)
                    == old(reg).live_slot(i) && final(reg).gen_at(i) == old(reg).gen_at(i)
                    && final(reg).value_at(i) == old(reg).value_at(i)),
            final(reg).slot_count() >= old(reg).slot_count(),
    {
        let (initial, ok) = match store.get_text(&key) {
            Some(text) => {
                match decode_u64(text.as_str()) {
                    Some(v) => (v, true),
                    None => (default, false),
                }
            },
            None => (default, false),
        };
        let sensor = Sensor::raw(reg, initial);
        PersistentField { sensor, key, default, dirty: !ok }
    }

    /// Read the field as its scalar payload.
    pub fn get(&self, reg: &Registry<u64>) -> (r: u64)
        requires
            self.valid(reg),
        ensures
            r == self.value(reg),
    {
        self.sensor.get(reg)
    }

    /// Overwrite the in-memory value; durable storage is untouched until the
    /// next flush.
    pub fn set(&mut self, reg: &mut Registry<u64>, v: u64)
        requires
            old(reg).wf(),
            old(self).valid(old(reg)),
        ensures
            final(reg).wf(),
            old(reg).evolves_to(*final(reg)),
            final(self).same_binding(old(self)),
            final(self).valid(final(reg)),
            final(self).value(final(reg)) == v,
            final(self).needs_flush(),
            final(reg).slot_count() == old(reg).slot_count(),
            forall|i: int|
                0 <= i < old(reg).slot_count() && i != old(self).slot() ==> (final(reg).live_slot(i)
                    == old(reg).live_slot(i) && final(reg).gen_at(i) == old(reg).gen_at(i)
                    && final(reg).value_at(i) == old(reg).value_at(i)),
            forall|i: int, g: u64| final(reg).live_at(i, g) == old(reg).live_at(i, g),
    {
        self.sensor.set(reg, v);
        self.dirty = true;
    }

    /// Whether the in-memory value holds changes not yet flushed.
    pub fn dirty(&self) -> (r: bool)
        ensures
            r == self.needs_flush(),
    {
        self.dirty
    }

    /// Derive a weak reader on the underlying cell.
    pub fn make_reader(&self) -> (r: Reader)
        ensures
            r.slot() == self.slot(),
            r.generation() == self.sensor_generation(),
    {
        self.sensor.make_reader()
    }

    /// Serialize the current value as decimal text and write it under the
    /// field's key; afterwards nothing is left to flush.
    pub fn flush(&mut self, reg: &Registry<u64>, store: &mut DurableStore)
        requires
            old(store).wf(),
            old(self).valid(reg),
        ensures
            final(store).wf(),
            final(store)@ == old(store)@.insert(
                old(self).key(),
                dec_digits(old(self).value(reg) as nat),
            ),
            final(self).same_binding(old(self)),
            final(self).valid(reg),
            final(self).value(reg) == old(self).value(reg),
            !final(self).needs_flush(),
    {
        let v = self.sensor.get(reg);
        let text = encode_u64(v);
        store.set_text(&self.key, text);
        self.dirty = false;
    }

    /// Re-read the durable record and overwrite the cell, reverting to the
    /// default when the record is absent or malformed.
    pub fn load(&mut self, reg: &mut Registry<u64>, store: &DurableStore)
        requires
            old(reg).wf(),
            store.wf(),
            old(self).valid(old(reg)),
        ensures
            final(reg).wf(),
            old(reg).evolves_to(*final(reg)),
            final(self).same_binding(old(self)),
            final(self).valid(final(reg)),
            final(self).value(final(reg)) == loaded_value(
                store@,
                old(self).key(),
                old(self).default_value(),
            ),
            final(self).needs_flush() == !record_ok(store@, old(self).key()),
            final(reg).slot_count() == old(reg).slot_count(),
            forall|i: int|
                0 <= i < old(reg).slot_count() && i != old(self).slot() ==> (final(reg).live_slot(i)
                    == old(reg).live_slot(i) && final(reg).gen_at(i) == old(reg).gen_at(i)
                    && final(reg).value_at(i) == old(reg).value_at(i)),
            forall|i: int, g: u64| final(reg).live_at(i, g) == old(reg).live_at(i, g),
    {
        let (v, ok) = match store.get_text(&self.key) {
            Some(text) => {
                match decode_u64(text.as_str()) {
                    Some(v) => (v, true),
                    None => (self.default, false),
                }
            },
            None => (self.default, false),
        };
        self.sensor.set(reg, v);
        self.dirty = !ok;
    }
}

/// Round-trip law: flushing a value `v` under key `k` and then loading
/// fresh under `k` yields `v` again, whatever the store held before and
/// whatever default the loader carries.
pub proof fn lemma_flush_then_load_round_trip(
    m: Map<Seq<char>, Seq<char>>,
    k: Seq<char>,
    v: u64,
    default: u64,
)
    ensures
        loaded_value(m.insert(k, dec_digits(v as nat)), k, default) == v,
{
    lemma_round_trip(v);
}

/// Idempotent flush: with no intervening mutation a second flush writes the
/// same decimal record, so the durable view after two consecutive flushes
/// equals the view after one.
pub proof fn lemma_flush_idempotent(m: Map<Seq<char>, Seq<char>>, k: Seq<char>, v: u64)
    ensures
        m.insert(k, dec_digits(v as nat)).insert(k, dec_digits(v as nat)) == m.insert(
            k,
            dec_digits(v as nat),
        ),
{
    assert(m.insert(k, dec_digits(v as nat)).insert(k, dec_digits(v as nat)) =~= m.insert(
        k,
        dec_digits(v as nat),
    ));
}

} // verus!
