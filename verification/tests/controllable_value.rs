use headless_primitives::controllable::ControllableValue;

#[test]
fn controlled_read_ignores_writes() {
    let mut cv: ControllableValue<u64> = ControllableValue::new(Some(7), Some(1), 0);
    assert_eq!(*cv.read(), 7);
    cv.write(42);
    cv.write(43);
    assert_eq!(*cv.read(), 7);
}

#[test]
fn uncontrolled_read_after_write() {
    let mut cv: ControllableValue<String> =
        ControllableValue::new(None, Some(String::from("a")), String::new());
    cv.write(String::from("b"));
    assert_eq!(cv.read(), "b");
    cv.write(String::from("c"));
    assert_eq!(cv.read(), "c");
}

#[test]
fn default_seeds_internal() {
    let cv: ControllableValue<u64> = ControllableValue::new(None, Some(5), 0);
    assert_eq!(*cv.read(), 5);
}

#[test]
fn fallback_seeds_internal_without_default() {
    let cv: ControllableValue<bool> = ControllableValue::new(None, None, false);
    assert!(!*cv.read());
}

#[test]
fn dropping_external_reveals_last_write() {
    let mut cv: ControllableValue<u64> = ControllableValue::new(Some(7), None, 0);
    cv.write(42);
    assert_eq!(*cv.read(), 7);
    cv.set_external(None);
    assert_eq!(*cv.read(), 42);
}

#[test]
fn switching_to_controlled_wins_at_read_time() {
    let mut cv: ControllableValue<u64> = ControllableValue::new(None, Some(3), 0);
    assert_eq!(*cv.read(), 3);
    cv.set_external(Some(9));
    assert_eq!(*cv.read(), 9);
    assert!(cv.is_controlled());
    cv.set_external(None);
    assert_eq!(*cv.read(), 3);
    assert!(!cv.is_controlled());
}

#[test]
fn owner_callback_sees_each_written_value() {
    // The owner wires its change callback around `write`: one invocation per
    // write, with the written value, whatever the control mode.
    let mut cv: ControllableValue<u64> = ControllableValue::new(Some(7), None, 0);
    let mut observed: Vec<u64> = Vec::new();
    for v in [10, 11, 12] {
        cv.write(v);
        observed.push(v);
    }
    assert_eq!(observed, vec![10, 11, 12]);
    assert_eq!(*cv.read(), 7);
    cv.set_external(None);
    assert_eq!(*cv.read(), 12);
}
