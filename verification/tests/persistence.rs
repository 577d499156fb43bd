use tofuwabohu::codec::{decode_u64, encode_u64};
use tofuwabohu::field::PersistentField;
use tofuwabohu::registry::Registry;
use tofuwabohu::state::{Counter, GameState};
use tofuwabohu::store::DurableStore;

#[test]
fn encode_decimal_text() {
    assert_eq!(encode_u64(0), String::from("0"));
    assert_eq!(encode_u64(7), String::from("7"));
    assert_eq!(encode_u64(1999), String::from("1999"));
    assert_eq!(encode_u64(u64::MAX), String::from("18446744073709551615"));
}

#[test]
fn decode_decimal_text() {
    assert_eq!(decode_u64("0"), Some(0));
    assert_eq!(decode_u64("1999"), Some(1999));
    assert_eq!(decode_u64("007"), Some(7));
    assert_eq!(decode_u64("18446744073709551615"), Some(u64::MAX));
}

#[test]
fn decode_rejects_malformed_text() {
    assert_eq!(decode_u64(""), None);
    assert_eq!(decode_u64("12a"), None);
    assert_eq!(decode_u64("-3"), None);
    assert_eq!(decode_u64(" 4"), None);
    // One past the largest representable value.
    assert_eq!(decode_u64("18446744073709551616"), None);
}

#[test]
fn encode_decode_round_trip() {
    for v in [0u64, 1, 9, 10, 999, 1000, 123456789, u64::MAX] {
        assert_eq!(decode_u64(encode_u64(v).as_str()), Some(v));
    }
}

#[test]
fn store_lookup_and_overwrite() {
    let mut store = DurableStore::new();
    let key = String::from("corn");
    assert_eq!(store.get_text(&key), None);
    store.set_text(&key, String::from("5"));
    assert_eq!(store.get_text(&key), Some(String::from("5")));
    store.set_text(&key, String::from("6"));
    assert_eq!(store.get_text(&key), Some(String::from("6")));
}

#[test]
fn store_keys_are_independent() {
    let mut store = DurableStore::new();
    store.set_text(&String::from("eggs"), String::from("1"));
    store.set_text(&String::from("corn"), String::from("2"));
    assert_eq!(store.get_text(&String::from("eggs")), Some(String::from("1")));
    assert_eq!(store.get_text(&String::from("corn")), Some(String::from("2")));
}

#[test]
fn field_starts_from_default_when_absent() {
    let mut reg: Registry<u64> = Registry::new();
    let store = DurableStore::new();
    let f = PersistentField::new(&mut reg, &store, 7, String::from("count"));
    assert_eq!(f.get(&reg), 7);
}

#[test]
fn field_starts_from_durable_record() {
    let mut reg: Registry<u64> = Registry::new();
    let mut store = DurableStore::new();
    store.set_text(&String::from("count"), String::from("42"));
    let f = PersistentField::new(&mut reg, &store, 7, String::from("count"));
    assert_eq!(f.get(&reg), 42);
}

#[test]
fn malformed_record_reads_as_absent() {
    let mut reg: Registry<u64> = Registry::new();
    let mut store = DurableStore::new();
    store.set_text(&String::from("count"), String::from("not a number"));
    let f = PersistentField::new(&mut reg, &store, 7, String::from("count"));
    assert_eq!(f.get(&reg), 7);
}

#[test]
fn flush_then_fresh_load_round_trip() {
    let mut reg: Registry<u64> = Registry::new();
    let mut store = DurableStore::new();
    let mut f = PersistentField::new(&mut reg, &store, 0, String::from("count"));
    f.set(&mut reg, 123456789);
    f.flush(&reg, &mut store);
    let f2 = PersistentField::new(&mut reg, &store, 0, String::from("count"));
    assert_eq!(f2.get(&reg), 123456789);
}

#[test]
fn load_overwrites_cell_from_store() {
    let mut reg: Registry<u64> = Registry::new();
    let mut store = DurableStore::new();
    store.set_text(&String::from("count"), String::from("3"));
    let mut f = PersistentField::new(&mut reg, &store, 0, String::from("count"));
    f.set(&mut reg, 55);
    f.load(&mut reg, &store);
    assert_eq!(f.get(&reg), 3);
}

#[test]
fn consecutive_flushes_write_identical_records() {
    let mut reg: Registry<u64> = Registry::new();
    let mut store = DurableStore::new();
    let mut f = PersistentField::new(&mut reg, &store, 0, String::from("count"));
    f.set(&mut reg, 5);
    f.flush(&reg, &mut store);
    let first = store.get_text(&String::from("count"));
    f.flush(&reg, &mut store);
    let second = store.get_text(&String::from("count"));
    assert_eq!(first, Some(String::from("5")));
    assert_eq!(second, first);
}

#[test]
fn field_tracks_need_to_flush() {
    let mut reg: Registry<u64> = Registry::new();
    let mut store = DurableStore::new();
    store.set_text(&String::from("count"), String::from("3"));
    let mut f = PersistentField::new(&mut reg, &store, 0, String::from("count"));
    // A usable durable record leaves nothing to flush.
    assert!(!f.dirty());
    f.set(&mut reg, 4);
    assert!(f.dirty());
    f.flush(&reg, &mut store);
    assert!(!f.dirty());
}

#[test]
fn game_state_defaults() {
    let store = DurableStore::new();
    let st = GameState::new(&store);
    assert_eq!(st.get(Counter::Chickens), 1);
    assert_eq!(st.get(Counter::Roosters), 0);
    assert_eq!(st.get(Counter::NestBuilders), 0);
    assert_eq!(st.get(Counter::Chicks), 0);
    assert_eq!(st.get(Counter::Runaway), 0);
    assert_eq!(st.get(Counter::Nests), 0);
    assert_eq!(st.get(Counter::Eggs), 0);
    assert_eq!(st.get(Counter::Breeding), 0);
    assert_eq!(st.get(Counter::Corn), 0);
}

#[test]
fn game_state_mutation() {
    let store = DurableStore::new();
    let mut st = GameState::new(&store);
    st.set(Counter::Eggs, 10);
    st.add(Counter::Eggs, 5);
    st.sub(Counter::Eggs, 3);
    assert_eq!(st.get(Counter::Eggs), 12);
    assert_eq!(st.get(Counter::Chickens), 1);
}

#[test]
fn whole_state_flush_and_reload() {
    let mut store = DurableStore::new();
    let mut st = GameState::new(&store);
    st.set(Counter::Chickens, 11);
    st.set(Counter::Eggs, 22);
    st.set(Counter::Breeding, 1999);
    st.flush_all(&mut store);
    assert_eq!(store.get_text(&String::from("chickens")), Some(String::from("11")));
    assert_eq!(store.get_text(&String::from("eggs")), Some(String::from("22")));
    let st2 = GameState::new(&store);
    assert_eq!(st2.get(Counter::Chickens), 11);
    assert_eq!(st2.get(Counter::Eggs), 22);
    assert_eq!(st2.get(Counter::Breeding), 1999);
    assert_eq!(st2.get(Counter::Corn), 0);
}
