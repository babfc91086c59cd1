use headless_primitives::collection::{Collection, ItemHandle};
use headless_primitives::roving::{Direction, NavigationKey, Orientation, RovingFocusState};

const A: u64 = 10;
const B: u64 = 11;
const C: u64 = 12;

fn snapshot(disabled: [bool; 3]) -> (Collection, Vec<ItemHandle>) {
    let mut c = Collection::new();
    c.register(A, disabled[0]).unwrap();
    c.register(B, disabled[1]).unwrap();
    c.register(C, disabled[2]).unwrap();
    let items = c.ordered_items();
    (c, items)
}

fn horizontal_ltr(should_loop: bool) -> RovingFocusState {
    RovingFocusState::new(Orientation::Horizontal, Direction::Ltr, should_loop)
}

#[test]
fn looping_arrow_right_wraps_last_to_first() {
    let (_, items) = snapshot([false, false, false]);
    let mut st = horizontal_ltr(true);
    st.set_current(C);
    let focus = st.handle_key(&items, NavigationKey::ArrowRight);
    assert_eq!(focus, Some(A));
    assert_eq!(st.current_tab_stop, Some(A));
}

#[test]
fn non_looping_arrow_right_at_end_is_noop() {
    let (_, items) = snapshot([false, false, false]);
    let mut st = horizontal_ltr(false);
    st.set_current(C);
    let focus = st.handle_key(&items, NavigationKey::ArrowRight);
    assert_eq!(focus, None);
    assert_eq!(st.current_tab_stop, Some(C));
}

#[test]
fn arrow_right_skips_disabled_item() {
    let (_, items) = snapshot([false, true, false]);
    let mut st = horizontal_ltr(true);
    st.set_current(A);
    let focus = st.handle_key(&items, NavigationKey::ArrowRight);
    assert_eq!(focus, Some(C));
}

#[test]
fn unregistering_active_item_recovers_to_first_enabled() {
    let mut c = Collection::new();
    c.register(A, false).unwrap();
    let token_b = c.register(B, false).unwrap();
    c.register(C, false).unwrap();
    let mut st = horizontal_ltr(true);
    st.set_current(B);
    c.unregister(&token_b);
    let items = c.ordered_items();
    let focus = st.handle_key(&items, NavigationKey::ArrowLeft);
    assert_eq!(focus, Some(A));
    assert_eq!(st.current_tab_stop, Some(A));
}

#[test]
fn home_and_end_jump_to_first_and_last_enabled() {
    let (_, items) = snapshot([true, false, true]);
    let mut st = horizontal_ltr(false);
    st.set_current(B);
    assert_eq!(st.handle_key(&items, NavigationKey::Home), Some(B));
    let (_, items2) = snapshot([false, false, true]);
    assert_eq!(st.handle_key(&items2, NavigationKey::End), Some(B));
    assert_eq!(st.handle_key(&items2, NavigationKey::Home), Some(A));
}

#[test]
fn rtl_inverts_horizontal_arrows() {
    let (_, items) = snapshot([false, false, false]);
    let mut st = RovingFocusState::new(Orientation::Horizontal, Direction::Rtl, true);
    st.set_current(B);
    assert_eq!(st.handle_key(&items, NavigationKey::ArrowRight), Some(A));
    assert_eq!(st.handle_key(&items, NavigationKey::ArrowLeft), Some(B));
}

#[test]
fn vertical_orientation_uses_up_and_down_only() {
    let (_, items) = snapshot([false, false, false]);
    let mut st = RovingFocusState::new(Orientation::Vertical, Direction::Ltr, true);
    st.set_current(B);
    assert_eq!(st.handle_key(&items, NavigationKey::ArrowRight), None);
    assert_eq!(st.handle_key(&items, NavigationKey::ArrowLeft), None);
    assert_eq!(st.handle_key(&items, NavigationKey::ArrowDown), Some(C));
    assert_eq!(st.handle_key(&items, NavigationKey::ArrowUp), Some(B));
}

#[test]
fn horizontal_orientation_ignores_vertical_arrows() {
    let (_, items) = snapshot([false, false, false]);
    let mut st = horizontal_ltr(true);
    st.set_current(B);
    assert_eq!(st.handle_key(&items, NavigationKey::ArrowDown), None);
    assert_eq!(st.handle_key(&items, NavigationKey::ArrowUp), None);
    assert_eq!(st.current_tab_stop, Some(B));
}

#[test]
fn both_orientation_accepts_all_arrows() {
    let (_, items) = snapshot([false, false, false]);
    let mut st = RovingFocusState::new(Orientation::Both, Direction::Ltr, true);
    st.set_current(A);
    assert_eq!(st.handle_key(&items, NavigationKey::ArrowDown), Some(B));
    assert_eq!(st.handle_key(&items, NavigationKey::ArrowRight), Some(C));
    assert_eq!(st.handle_key(&items, NavigationKey::ArrowUp), Some(B));
    assert_eq!(st.handle_key(&items, NavigationKey::ArrowLeft), Some(A));
}

#[test]
fn looping_arrow_left_wraps_first_to_last() {
    let (_, items) = snapshot([false, false, false]);
    let mut st = horizontal_ltr(true);
    st.set_current(A);
    assert_eq!(st.handle_key(&items, NavigationKey::ArrowLeft), Some(C));
}

#[test]
fn empty_collection_is_noop() {
    let c = Collection::new();
    let items = c.ordered_items();
    let mut st = horizontal_ltr(true);
    assert_eq!(st.handle_key(&items, NavigationKey::ArrowRight), None);
    assert_eq!(st.handle_key(&items, NavigationKey::Home), None);
    assert_eq!(st.current_tab_stop, None);
}

#[test]
fn all_disabled_collection_is_noop() {
    let (_, items) = snapshot([true, true, true]);
    let mut st = horizontal_ltr(true);
    st.set_current(A);
    assert_eq!(st.handle_key(&items, NavigationKey::ArrowRight), None);
    assert_eq!(st.handle_key(&items, NavigationKey::End), None);
    assert_eq!(st.current_tab_stop, Some(A));
}

#[test]
fn default_tab_stop_is_first_enabled_item() {
    let (_, items) = snapshot([true, false, false]);
    let st = horizontal_ltr(true);
    assert!(!st.is_current_tab_stop(&items, A));
    assert!(st.is_current_tab_stop(&items, B));
    assert!(!st.is_current_tab_stop(&items, C));
}

#[test]
fn tab_index_is_zero_only_on_the_tab_stop() {
    let (_, items) = snapshot([false, false, false]);
    let mut st = horizontal_ltr(true);
    st.set_current(B);
    assert_eq!(st.tab_index(&items, A), -1);
    assert_eq!(st.tab_index(&items, B), 0);
    assert_eq!(st.tab_index(&items, C), -1);
}

#[test]
fn stale_tab_stop_falls_back_to_first_enabled() {
    let (_, items) = snapshot([true, false, false]);
    let mut st = horizontal_ltr(true);
    st.set_current(99);
    assert!(st.is_current_tab_stop(&items, B));
    assert!(!st.is_current_tab_stop(&items, A));
}

#[test]
fn single_item_loop_wraps_to_itself() {
    let mut c = Collection::new();
    c.register(A, false).unwrap();
    let items = c.ordered_items();
    let mut st = horizontal_ltr(true);
    st.set_current(A);
    assert_eq!(st.handle_key(&items, NavigationKey::ArrowRight), Some(A));
}
