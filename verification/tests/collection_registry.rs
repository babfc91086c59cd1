use headless_primitives::collection::{Collection, RegistryError};

#[test]
fn register_assigns_insertion_order() {
    let mut c = Collection::new();
    c.register(10, false).unwrap();
    c.register(11, true).unwrap();
    c.register(12, false).unwrap();
    let items = c.ordered_items();
    assert_eq!(items.len(), 3);
    assert_eq!(items[0].id, 10);
    assert_eq!(items[1].id, 11);
    assert_eq!(items[2].id, 12);
    assert!(items[0].order < items[1].order && items[1].order < items[2].order);
    assert!(!items[0].disabled);
    assert!(items[1].disabled);
}

#[test]
fn duplicate_id_fails_fast() {
    let mut c = Collection::new();
    c.register(1, false).unwrap();
    let second = c.register(1, true);
    assert_eq!(second.unwrap_err(), RegistryError::DuplicateId);
    assert_eq!(c.size(), 1);
    // the failed registration left the original handle untouched
    assert!(!c.ordered_items()[0].disabled);
}

#[test]
fn unregister_keeps_remaining_order() {
    let mut c = Collection::new();
    c.register(1, false).unwrap();
    let token = c.register(2, false).unwrap();
    c.register(3, false).unwrap();
    c.unregister(&token);
    let items = c.ordered_items();
    assert_eq!(items.len(), 2);
    assert_eq!(items[0].id, 1);
    assert_eq!(items[1].id, 3);
}

#[test]
fn unregister_twice_is_noop() {
    let mut c = Collection::new();
    let token = c.register(1, false).unwrap();
    c.register(2, false).unwrap();
    c.unregister(&token);
    c.unregister(&token);
    assert_eq!(c.size(), 1);
    assert_eq!(c.ordered_items()[0].id, 2);
}

#[test]
fn orders_are_not_reused_after_removal() {
    let mut c = Collection::new();
    let token = c.register(1, false).unwrap();
    let order_of_first = c.ordered_items()[0].order;
    c.unregister(&token);
    c.register(1, false).unwrap();
    assert!(c.ordered_items()[0].order > order_of_first);
}

#[test]
fn lookup_tracks_registrations() {
    let mut c = Collection::new();
    assert!(!c.contains_id(5));
    let token = c.register(5, false).unwrap();
    assert!(c.contains_id(5));
    assert_eq!(c.find_index(5), Some(0));
    c.unregister(&token);
    assert!(!c.contains_id(5));
    assert_eq!(c.find_index(5), None);
    assert_eq!(c.size(), 0);
}
