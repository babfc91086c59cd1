use headless_primitives::selection::{activate_item, contains_item, deactivate_item};

fn values(items: &[&str]) -> Vec<String> {
    items.iter().map(|s| s.to_string()).collect()
}

#[test]
fn activate_appends_in_order() {
    let mut pressed = values(&["a"]);
    activate_item(&mut pressed, String::from("b"));
    activate_item(&mut pressed, String::from("c"));
    assert_eq!(pressed, values(&["a", "b", "c"]));
}

#[test]
fn activate_does_not_deduplicate() {
    let mut pressed = values(&["a"]);
    activate_item(&mut pressed, String::from("a"));
    assert_eq!(pressed, values(&["a", "a"]));
}

#[test]
fn deactivate_removes_every_copy_and_keeps_order() {
    let pressed = values(&["a", "b", "a", "c", "a"]);
    let remaining = deactivate_item(&pressed, &String::from("a"));
    assert_eq!(remaining, values(&["b", "c"]));
}

#[test]
fn deactivate_of_absent_value_changes_nothing() {
    let pressed = values(&["a", "b"]);
    let remaining = deactivate_item(&pressed, &String::from("z"));
    assert_eq!(remaining, values(&["a", "b"]));
}

#[test]
fn deactivate_of_last_value_empties_the_list() {
    let pressed = values(&["a"]);
    let remaining = deactivate_item(&pressed, &String::from("a"));
    assert!(remaining.is_empty());
}

#[test]
fn contains_item_tracks_pressed_values() {
    let pressed = values(&["a", "b"]);
    assert!(contains_item(&pressed, &String::from("a")));
    assert!(contains_item(&pressed, &String::from("b")));
    assert!(!contains_item(&pressed, &String::from("c")));
    let remaining = deactivate_item(&pressed, &String::from("a"));
    assert!(!contains_item(&remaining, &String::from("a")));
}
