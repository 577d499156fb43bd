use tofuwabohu::registry::{Registry, Sensor};

#[test]
fn sensor_set_and_get() {
    let mut reg: Registry<u64> = Registry::new();
    let s = Sensor::raw(&mut reg, 5u64);
    assert_eq!(s.get(&reg), 5);
    s.set(&mut reg, 9);
    assert_eq!(s.get(&reg), 9);
}

#[test]
fn sensor_generic_payload() {
    let mut reg: Registry<bool> = Registry::new();
    let s = Sensor::raw(&mut reg, false);
    s.set(&mut reg, true);
    assert!(s.get(&reg));
}

#[test]
fn sensor_update_and_modify() {
    let mut reg: Registry<u64> = Registry::new();
    let s = Sensor::raw(&mut reg, 10u64);
    s.update(&mut reg, |v| v + 5);
    assert_eq!(s.get(&reg), 15);
    let doubled = s.modify(&mut reg, |v| v * 2);
    assert_eq!(doubled, 30);
    assert_eq!(s.get(&reg), 30);
}

#[test]
fn compound_assignments() {
    let mut reg: Registry<u64> = Registry::new();
    let s = Sensor::raw(&mut reg, 6u64);
    s.add_assign(&mut reg, 4);
    assert_eq!(s.get(&reg), 10);
    s.mul_assign(&mut reg, 3);
    assert_eq!(s.get(&reg), 30);
    s.sub_assign(&mut reg, 8);
    assert_eq!(s.get(&reg), 22);
    s.rem_assign(&mut reg, 5);
    assert_eq!(s.get(&reg), 2);
}

#[test]
fn reader_sees_latest_value() {
    let mut reg: Registry<u64> = Registry::new();
    let (s, r) = Sensor::new(&mut reg, 1u64);
    assert_eq!(r.get(&reg), Some(1));
    s.set(&mut reg, 7);
    assert_eq!(r.get(&reg), Some(7));
}

#[test]
fn several_readers_on_one_cell() {
    let mut reg: Registry<u64> = Registry::new();
    let s = Sensor::raw(&mut reg, 3u64);
    let r1 = s.make_reader();
    let r2 = s.make_reader();
    s.set(&mut reg, 4);
    assert_eq!(r1.get(&reg), Some(4));
    assert_eq!(r2.get(&reg), Some(4));
}

#[test]
fn reader_absent_after_destroy() {
    let mut reg: Registry<u64> = Registry::new();
    let (s, r) = Sensor::new(&mut reg, 42u64);
    let r2 = s.make_reader();
    s.destroy(&mut reg);
    assert_eq!(r.get(&reg), None);
    assert_eq!(r2.get(&reg), None);
}

#[test]
fn reader_stays_absent_after_slot_reuse() {
    let mut reg: Registry<u64> = Registry::new();
    let (s, r) = Sensor::new(&mut reg, 11u64);
    s.destroy(&mut reg);
    // The new cell reuses the retired slot under a fresh generation.
    let s2 = Sensor::raw(&mut reg, 99u64);
    assert_eq!(r.get(&reg), None);
    assert_eq!(s2.get(&reg), 99);
    let r2 = s2.make_reader();
    assert_eq!(r2.get(&reg), Some(99));
}

#[test]
fn comparisons_delegate_to_current_value() {
    let mut reg: Registry<u64> = Registry::new();
    let s = Sensor::raw(&mut reg, 5u64);
    assert!(s.eq(&reg, &5));
    assert!(!s.eq(&reg, &6));
    assert_eq!(s.partial_cmp(&reg, &7), Some(std::cmp::Ordering::Less));
    assert_eq!(s.partial_cmp(&reg, &5), Some(std::cmp::Ordering::Equal));
    assert_eq!(s.partial_cmp(&reg, &2), Some(std::cmp::Ordering::Greater));
}

#[test]
fn independent_cells_do_not_interfere() {
    let mut reg: Registry<u64> = Registry::new();
    let a = Sensor::raw(&mut reg, 1u64);
    let b = Sensor::raw(&mut reg, 2u64);
    a.set(&mut reg, 10);
    assert_eq!(b.get(&reg), 2);
    b.set(&mut reg, 20);
    assert_eq!(a.get(&reg), 10);
}
