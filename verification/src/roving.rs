//! Roving-focus keyboard navigation.
//!
//! A group of focusable items keeps exactly one "tab stop": the single item
//! reachable with Tab, from which arrow keys move focus between siblings.
//! [`RovingFocusState`] computes, for each directional key, which item becomes
//! the next tab stop over one snapshot of the registered items.
//!
//! The controller never touches focus hardware: `handle_key` returns the id
//! of the item whose focus is requested (or nothing, for a no-op), and the
//! owner moves actual DOM focus and re-derives each item's `tabindex`.

use vstd::prelude::*;

use crate::collection::ItemHandle;
use crate::collection::seq_contains_id;
use crate::collection::seq_find_id;
use crate::collection::lemma_seq_find_id;

verus! {

/// The axis (or axes) along which arrow keys navigate the group.
#[derive(Clone, Copy, PartialEq, Eq, Structural, Debug)]
pub enum Orientation {
    /// Only `ArrowLeft` / `ArrowRight` navigate.
    Horizontal,
    /// Only `ArrowUp` / `ArrowDown` navigate.
    Vertical,
    /// Keys of both axes navigate.
    Both,
}

/// The reading direction, which inverts the meaning of the horizontal keys.
#[derive(Clone, Copy, PartialEq, Eq, Structural, Debug)]
pub enum Direction {
    /// Left to right: `ArrowRight` moves forward.
    Ltr,
    /// Right to left: `ArrowRight` moves backward.
    Rtl,
}

/// The keyboard keys the controller reacts to.
#[derive(Clone, Copy, PartialEq, Eq, Structural, Debug)]
pub enum NavigationKey {
    ArrowLeft,
    ArrowRight,
    ArrowUp,
    ArrowDown,
    Home,
    End,
}

/// What a key asks for once orientation and direction are applied.
#[derive(Clone, Copy, PartialEq, Eq, Structural, Debug)]
pub enum NavAction {
    /// Step to the next enabled item.
    Forward,
    /// Step to the previous enabled item.
    Backward,
    /// Jump directly to the first enabled item.
    First,
    /// Jump directly to the last enabled item.
    Last,
}

/// How a key maps to an action: `Home` and `End` always jump; horizontal
/// arrows step only when the orientation has a horizontal axis, with their
/// meaning flipped under right-to-left direction; vertical arrows step only
/// when the orientation has a vertical axis. Any other combination is no
/// navigation request at all.
pub open spec fn spec_key_action(
    key: NavigationKey,
    orientation: Orientation,
    direction: Direction,
) -> Option<NavAction> {
    match key {
        NavigationKey::Home => Some(NavAction::First),
        NavigationKey::End => Some(NavAction::Last),
        NavigationKey::ArrowRight => if orientation is Horizontal || orientation is Both {
            if direction is Ltr {
                Some(NavAction::Forward)
            } else {
                Some(NavAction::Backward)
            }
        } else {
            None
        },
        NavigationKey::ArrowLeft => if orientation is Horizontal || orientation is Both {
            if direction is Ltr {
                Some(NavAction::Backward)
            } else {
                Some(NavAction::Forward)
            }
        } else {
            None
        },
        NavigationKey::ArrowDown => if orientation is Vertical || orientation is Both {
            Some(NavAction::Forward)
        } else {
            None
        },
        NavigationKey::ArrowUp => if orientation is Vertical || orientation is Both {
            Some(NavAction::Backward)
        } else {
            None
        },
    }
}

/// The first enabled index at or after (`step == 1`) or at or before
/// (`step == -1`) position `j`, without wrapping.
pub open spec fn scan_from(items: Seq<ItemHandle>, j: int, step: int) -> Option<int>
    recommends
        step == 1 || step == -1,
    decreases (if step == 1 {
        items.len() - j
    } else {
        j + 1
    }),
{
    if j < 0 || j >= items.len() {
        None
    } else if !items[j].disabled {
        Some(j)
    } else if step == 1 {
        scan_from(items, j + 1, 1)
    } else {
        scan_from(items, j - 1, -1)
    }
}

/// Index arithmetic modulo the collection length, for one step taken from a
/// valid index.
pub open spec fn wrap_index(n: int, j: int) -> int {
    if j >= n {
        j - n
    } else if j < 0 {
        j + n
    } else {
        j
    }
}

/// The first enabled index reached from `j` going in `step` direction with
/// wrap-around, visiting at most `budget` positions (`j` itself first).
pub open spec fn scan_wrap(items: Seq<ItemHandle>, j: int, step: int, budget: nat) -> Option<int>
    recommends
        step == 1 || step == -1,
        0 <= j < items.len(),
    decreases budget,
{
    if budget == 0 {
        None
    } else if 0 <= j < items.len() && !items[j].disabled {
        Some(j)
    } else {
        scan_wrap(items, wrap_index(items.len() as int, j + step), step, (budget - 1) as nat)
    }
}

/// The index of the first enabled item, if any item is enabled.
pub open spec fn first_enabled(items: Seq<ItemHandle>) -> Option<int> {
    scan_from(items, 0, 1)
}

/// The index of the last enabled item, if any item is enabled.
pub open spec fn last_enabled(items: Seq<ItemHandle>) -> Option<int> {
    scan_from(items, items.len() - 1, -1)
}

/// The index the current tab stop sits at in the snapshot: only meaningful
/// when one is recorded and still registered.
pub open spec fn current_index(items: Seq<ItemHandle>, current: Option<u64>) -> Option<int> {
    match current {
        Some(id) => seq_find_id(items, id),
        None => None,
    }
}

/// Roving-focus settings plus the identity of the current tab stop.
#[derive(Clone, Copy, PartialEq, Eq, Structural, Debug)]
pub struct RovingFocusState {
    /// The id of the item that last became the tab stop, if any. It may
    /// point at an item that has since unregistered; navigation then treats
    /// it as absent and recovers to the first enabled item.
    pub current_tab_stop: Option<u64>,
    /// The axis (or axes) the group navigates along.
    pub orientation: Orientation,
    /// The reading direction.
    pub direction: Direction,
    /// Whether stepping past either end wraps around to the other.
    pub should_loop: bool,
}

/// The index of the item a key press makes the new tab stop, or `None` for a
/// no-op. In full: a key that requests nothing under the group's orientation
/// is a no-op; `Home` and `End` jump to the first and last enabled item; a
/// step taken while the recorded tab stop is absent or unregistered recovers
/// to the first enabled item; otherwise the step walks from the current
/// index, skipping disabled items, wrapping modulo the length when looping
/// and stopping dead at the boundary when not. Whenever no enabled item can
/// be reached (empty or all-disabled collection, or a boundary in a
/// non-looping group), the result is `None` and nothing changes.
pub open spec fn spec_navigate(
    items: Seq<ItemHandle>,
    state: RovingFocusState,
    key: NavigationKey,
) -> Option<int> {
    match spec_key_action(key, state.orientation, state.direction) {
        None => None,
        Some(NavAction::First) => first_enabled(items),
        Some(NavAction::Last) => last_enabled(items),
        Some(action) => {
            let step: int = if action is Forward {
                1
            } else {
                -1
            };
            match current_index(items, state.current_tab_stop) {
                None => first_enabled(items),
                Some(i) => if state.should_loop {
                    scan_wrap(
                        items,
                        wrap_index(items.len() as int, i + step),
                        step,
                        items.len(),
                    )
                } else {
                    scan_from(items, i + step, step)
                },
            }
        },
    }
}

/// Whatever a non-wrapping scan finds is an in-bounds enabled item; if it
/// finds nothing while stepping forward (backward), nothing at or after
/// (at or before) the start is enabled.
pub proof fn lemma_scan_from(items: Seq<ItemHandle>, j: int, step: int)
    requires
        step == 1 || step == -1,
        step == 1 ==> j >= 0,
        step == -1 ==> j < items.len(),
    ensures
        match scan_from(items, j, step) {
            Some(k) => 0 <= k < items.len() && !items[k].disabled,
            None => forall|t: int|
                0 <= t < items.len() && (if step == 1 {
                    t >= j
                } else {
                    t <= j
                }) ==> (#[trigger] items[t]).disabled,
        },
    decreases (if step == 1 {
        items.len() - j
    } else {
        j + 1
    }),
{
    if !(j < 0 || j >= items.len()) && items[j].disabled {
        lemma_scan_from(items, j + step, step);
    }
}

/// Whatever a wrapping scan finds is an in-bounds enabled item.
pub proof fn lemma_scan_wrap_enabled(items: Seq<ItemHandle>, j: int, step: int, budget: nat)
    requires
        step == 1 || step == -1,
        0 <= j < items.len(),
    ensures
        scan_wrap(items, j, step, budget) matches Some(k) ==> 0 <= k < items.len()
            && !items[k].disabled,
    decreases budget,
{
    if budget > 0 && items[j].disabled {
        let next = wrap_index(items.len() as int, j + step);
        lemma_scan_wrap_enabled(items, next, step, (budget - 1) as nat);
    }
}

/// The number of wrapped steps in `step` direction from `j` to `e`.
pub open spec fn cyclic_distance(n: int, j: int, e: int, step: int) -> int {
    if step == 1 {
        if e >= j {
            e - j
        } else {
            e - j + n
        }
    } else {
        if e <= j {
            j - e
        } else {
            j - e + n
        }
    }
}

/// A wrapping scan whose budget exceeds the distance to some enabled item
/// finds an enabled item: scanning the whole cycle fails only when every
/// item is disabled.
pub proof fn lemma_scan_wrap_reaches(
    items: Seq<ItemHandle>,
    j: int,
    step: int,
    budget: nat,
    e: int,
)
    requires
        step == 1 || step == -1,
        0 <= j < items.len(),
        0 <= e < items.len(),
        !items[e].disabled,
        budget > cyclic_distance(items.len() as int, j, e, step),
    ensures
        scan_wrap(items, j, step, budget) is Some,
    decreases budget,
{
    if items[j].disabled {
        let next = wrap_index(items.len() as int, j + step);
        lemma_scan_wrap_reaches(items, next, step, (budget - 1) as nat, e);
    }
}

/// Law: every navigation result is an in-bounds, enabled item — a key press
/// never lands the tab stop on a disabled item.
pub proof fn lemma_navigate_lands_on_enabled(
    items: Seq<ItemHandle>,
    state: RovingFocusState,
    key: NavigationKey,
)
    ensures
        spec_navigate(items, state, key) matches Some(k) ==> 0 <= k < items.len()
            && !items[k].disabled,
{
    match spec_key_action(key, state.orientation, state.direction) {
        None => {},
        Some(NavAction::First) => {
            lemma_scan_from(items, 0, 1);
        },
        Some(NavAction::Last) => {
            lemma_scan_from(items, items.len() - 1, -1);
        },
        Some(action) => {
            let step: int = if action is Forward {
                1
            } else {
                -1
            };
            match current_index(items, state.current_tab_stop) {
                None => {
                    lemma_scan_from(items, 0, 1);
                },
                Some(i) => {
                    lemma_seq_find_id(items, state.current_tab_stop.unwrap());
                    if state.should_loop {
                        lemma_scan_wrap_enabled(
                            items,
                            wrap_index(items.len() as int, i + step),
                            step,
                            items.len(),
                        );
                    } else {
                        lemma_scan_from(items, i + step, step);
                    }
                },
            }
        },
    }
}

/// Law: navigating an empty or all-disabled collection is a no-op, never an
/// error.
pub proof fn lemma_no_enabled_item_is_noop(
    items: Seq<ItemHandle>,
    state: RovingFocusState,
    key: NavigationKey,
)
    requires
        forall|t: int| 0 <= t < items.len() ==> (#[trigger] items[t]).disabled,
    ensures
        spec_navigate(items, state, key) is None,
{
    lemma_navigate_lands_on_enabled(items, state, key);
}

/// Law (recovery): when the recorded tab stop no longer corresponds to any
/// registered item, any key that requests a directional step yields the
/// first enabled remaining item as the new tab stop.
pub proof fn lemma_step_recovers_to_first_enabled(
    items: Seq<ItemHandle>,
    state: RovingFocusState,
    key: NavigationKey,
)
    requires
        state.current_tab_stop matches Some(id) ==> !seq_contains_id(items, id),
        spec_key_action(key, state.orientation, state.direction) matches Some(a) && (a is Forward
            || a is Backward),
    ensures
        spec_navigate(items, state, key) == first_enabled(items),
{
    match state.current_tab_stop {
        Some(id) => {
            lemma_seq_find_id(items, id);
            assert(seq_find_id(items, id) is None) by {
                match seq_find_id(items, id) {
                    Some(i) => {
                        assert(0 <= i < items.len() && items[i].id == id);
                        assert(seq_contains_id(items, id));
                    },
                    None => {},
                }
            }
        },
        None => {},
    }
}

/// Law: in a looping group that still holds at least one enabled item, a
/// directional step from a registered tab stop always finds a target — the
/// boundary never blocks it.
pub proof fn lemma_looping_step_finds_target(
    items: Seq<ItemHandle>,
    state: RovingFocusState,
    key: NavigationKey,
    e: int,
)
    requires
        state.should_loop,
        0 <= e < items.len(),
        !items[e].disabled,
        current_index(items, state.current_tab_stop) is Some,
        spec_key_action(key, state.orientation, state.direction) matches Some(a) && (a is Forward
            || a is Backward),
    ensures
        spec_navigate(items, state, key) is Some,
{
    let i = current_index(items, state.current_tab_stop).unwrap();
    lemma_seq_find_id(items, state.current_tab_stop.unwrap());
    let action = spec_key_action(key, state.orientation, state.direction).unwrap();
    let step: int = if action is Forward {
        1
    } else {
        -1
    };
    let start = wrap_index(items.len() as int, i + step);
    lemma_scan_wrap_reaches(items, start, step, items.len(), e);
}

/// Law: as long as any item is enabled, there is an effective tab stop, and
/// under the registry's unique-id invariant it is exactly one item — every
/// other item reports `tabindex = -1`.
pub proof fn lemma_exactly_one_tab_stop(items: Seq<ItemHandle>, state: RovingFocusState, e: int)
    requires
        0 <= e < items.len(),
        !items[e].disabled,
        forall|i: int, j: int|
            0 <= i < j < items.len() ==> #[trigger] items[i].id != #[trigger] items[j].id,
    ensures
        state.spec_effective_tab_stop(items) matches Some(t) && 0 <= t < items.len() && (forall|
            i: int,
        |
            0 <= i < items.len() ==> ((#[trigger] items[i].id == items[t].id) <==> i == t)),
{
    match current_index(items, state.current_tab_stop) {
        Some(i) => {
            lemma_seq_find_id(items, state.current_tab_stop.unwrap());
        },
        None => {
            lemma_scan_from(items, 0, 1);
            if first_enabled(items) is None {
                assert(items[e].disabled);
            }
        },
    }
}

impl RovingFocusState {
    /// Creates the controller state for a group. No item has been made
    /// active yet: until one is, the first enabled item is the implicit tab
    /// stop.
    pub fn new(orientation: Orientation, direction: Direction, should_loop: bool) -> (r: Self)
        ensures
            r.current_tab_stop is None,
            r.orientation == orientation,
            r.direction == direction,
            r.should_loop == should_loop,
    {
        RovingFocusState { current_tab_stop: None, orientation, direction, should_loop }
    }

    /// Records that an item became active outside of key navigation (it was
    /// clicked, or focused by the owner): it is the tab stop from now on.
    pub fn set_current(&mut self, id: u64)
        ensures
            *final(self) == (RovingFocusState { current_tab_stop: Some(id), ..*old(self) }),
    {
        self.current_tab_stop = Some(id);
    }

    /// Computes the item a key press moves the tab stop to, over one
    /// snapshot of the registered items. Returns the id whose focus the
    /// owner must now request, and records it as the new tab stop; `None`
    /// means the press changes nothing. The result is exactly
    /// [`spec_navigate`] applied to the snapshot.
    pub fn handle_key(&mut self, items: &Vec<ItemHandle>, key: NavigationKey) -> (focus: Option<
        u64,
    >)
        ensures
            match spec_navigate(items@, *old(self), key) {
                Some(t) => focus == Some(items@[t].id) && *final(self) == (RovingFocusState {
                    current_tab_stop: Some(items@[t].id),
                    ..*old(self)
                }),
                None => focus is None && *final(self) == *old(self),
            },
    {
        let action = match key_action(key, self.orientation, self.direction) {
            None => {
                return None;
            },
            Some(a) => a,
        };
        let target: Option<usize> = match action {
            NavAction::First => scan_forward(items, 0),
            NavAction::Last => if items.len() == 0 {
                None
            } else {
                scan_backward(items, items.len() - 1)
            },
            NavAction::Forward | NavAction::Backward => {
                let forward = matches!(action, NavAction::Forward);
                let cur: Option<usize> = match &self.current_tab_stop {
                    Some(id) => find_index_of(items, *id),
                    None => None,
                };
                match cur {
                    None => scan_forward(items, 0),
                    Some(i) => {
                        let n = items.len();
                        if self.should_loop {
                            let start = if forward {
                                if i + 1 == n {
                                    0
                                } else {
                                    i + 1
                                }
                            } else {
                                if i == 0 {
                                    n - 1
                                } else {
                                    i - 1
                                }
                            };
                            scan_wrapped(items, start, forward)
                        } else {
                            if forward {
                                if i + 1 < n {
                                    scan_forward(items, i + 1)
                                } else {
                                    None
                                }
                            } else {
                                if i > 0 {
                                    scan_backward(items, i - 1)
                                } else {
                                    None
                                }
                            }
                        }
                    },
                }
            },
        };
        match target {
            Some(t) => {
                let id = items[t].id;
                self.current_tab_stop = Some(id);
                Some(id)
            },
            None => None,
        }
    }

    /// Whether the given item is the effective tab stop: the recorded one
    /// while it is still registered, else the first enabled item (the
    /// implicit default, also the recovery target after the active item
    /// unregisters).
    pub fn is_current_tab_stop(&self, items: &Vec<ItemHandle>, id: u64) -> (r: bool)
        ensures
            r == (match self.spec_effective_tab_stop(items@) {
                Some(t) => items@[t].id == id,
                None => false,
            }),
    {
        let effective: Option<usize> = match &self.current_tab_stop {
            Some(cur) => {
                let found = find_index_of(items, *cur);
                match found {
                    Some(i) => Some(i),
                    None => scan_forward(items, 0),
                }
            },
            None => scan_forward(items, 0),
        };
        match effective {
            Some(t) => items[t].id == id,
            None => false,
        }
    }

    /// The index of the item that currently carries `tabindex = 0`: the
    /// recorded tab stop while registered, otherwise the first enabled item.
    pub open spec fn spec_effective_tab_stop(self, items: Seq<ItemHandle>) -> Option<int> {
        match current_index(items, self.current_tab_stop) {
            Some(i) => Some(i),
            None => first_enabled(items),
        }
    }

    /// The `tabindex` value the owner must render on the given item: `0` for
    /// the single effective tab stop, `-1` for every other item.
    pub fn tab_index(&self, items: &Vec<ItemHandle>, id: u64) -> (r: i32)
        ensures
            r == (if (match self.spec_effective_tab_stop(items@) {
                Some(t) => items@[t].id == id,
                None => false,
            }) {
                0i32
            } else {
                -1i32
            }),
    {
        if self.is_current_tab_stop(items, id) {
            0
        } else {
            -1
        }
    }
}

/// Maps a pressed key to its navigation action under the group's settings.
pub fn key_action(key: NavigationKey, orientation: Orientation, direction: Direction) -> (r:
    Option<NavAction>)
    ensures
        r == spec_key_action(key, orientation, direction),
{
    match key {
        NavigationKey::Home => Some(NavAction::First),
        NavigationKey::End => Some(NavAction::Last),
        NavigationKey::ArrowRight => match orientation {
            Orientation::Horizontal | Orientation::Both => match direction {
                Direction::Ltr => Some(NavAction::Forward),
                Direction::Rtl => Some(NavAction::Backward),
            },
            Orientation::Vertical => None,
        },
        NavigationKey::ArrowLeft => match orientation {
            Orientation::Horizontal | Orientation::Both => match direction {
                Direction::Ltr => Some(NavAction::Backward),
                Direction::Rtl => Some(NavAction::Forward),
            },
            Orientation::Vertical => None,
        },
        NavigationKey::ArrowDown => match orientation {
            Orientation::Vertical | Orientation::Both => Some(NavAction::Forward),
            Orientation::Horizontal => None,
        },
        NavigationKey::ArrowUp => match orientation {
            Orientation::Vertical | Orientation::Both => Some(NavAction::Backward),
            Orientation::Horizontal => None,
        },
    }
}

/// The first index of the given id in the snapshot, if present.
fn find_index_of(items: &Vec<ItemHandle>, id: u64) -> (r: Option<usize>)
    ensures
        match r {
            Some(k) => k < items@.len() && seq_find_id(items@, id) == Some(k as int),
            None => seq_find_id(items@, id) is None,
        },
{
    let mut k: usize = 0;
    while k < items.len()
        invariant
            k <= items@.len(),
            forall|j: int| 0 <= j < k ==> items@[j].id != id,
        decreases items@.len() - k,
    {
        if items[k].id == id {
            proof {
                lemma_seq_find_id(items@, id);
                assert(seq_contains_id(items@, id)) by {
                    assert(items@[k as int].id == id);
                }
            }
            return Some(k);
        }
        k = k + 1;
    }
    proof {
        lemma_seq_find_id(items@, id);
    }
    None
}

/// The first enabled index at or after `from`, without wrapping.
fn scan_forward(items: &Vec<ItemHandle>, from: usize) -> (r: Option<usize>)
    ensures
        match r {
            Some(k) => k < items@.len() && scan_from(items@, from as int, 1) == Some(k as int),
            None => scan_from(items@, from as int, 1) is None,
        },
{
    let mut j = from;
    while j < items.len()
        invariant
            from <= j,
            scan_from(items@, from as int, 1) == scan_from(items@, j as int, 1),
        decreases items@.len() - j,
    {
        if !items[j].disabled {
            return Some(j);
        }
        j = j + 1;
    }
    None
}

/// The first enabled index at or before `from`, without wrapping.
fn scan_backward(items: &Vec<ItemHandle>, from: usize) -> (r: Option<usize>)
    requires
        from < items@.len(),
    ensures
        match r {
            Some(k) => k < items@.len() && scan_from(items@, from as int, -1) == Some(k as int),
            None => scan_from(items@, from as int, -1) is None,
        },
{
    let mut j = from;
    loop
        invariant
            j < items@.len(),
            scan_from(items@, from as int, -1) == scan_from(items@, j as int, -1),
        decreases j,
    {
        if !items[j].disabled {
            assert(scan_from(items@, j as int, -1) == Some(j as int));
            return Some(j);
        }
        if j == 0 {
            proof {
                assert(scan_from(items@, -1, -1) is None);
            }
            return None;
        }
        j = j - 1;
    }
}

/// The first enabled index reached from `start` with wrap-around, visiting
/// at most the whole cycle once.
fn scan_wrapped(items: &Vec<ItemHandle>, start: usize, forward: bool) -> (r: Option<usize>)
    requires
        start < items@.len(),
    ensures
        ({
            let step: int = if forward {
                1
            } else {
                -1
            };
            match r {
                Some(k) => k < items@.len() && scan_wrap(items@, start as int, step, items@.len())
                    == Some(k as int),
                None => scan_wrap(items@, start as int, step, items@.len()) is None,
            }
        }),
{
    let n = items.len();
    let ghost step: int = if forward {
        1
    } else {
        -1
    };
    let mut j = start;
    let mut visited: usize = 0;
    while visited < n
        invariant
            n == items@.len(),
            j < n,
            visited <= n,
            scan_wrap(items@, start as int, step, n as nat) == scan_wrap(
                items@,
                j as int,
                step,
                (n - visited) as nat,
            ),
            step == (if forward {
                1int
            } else {
                -1int
            }),
        decreases n - visited,
    {
        if !items[j].disabled {
            return Some(j);
        }
        j = if forward {
            if j + 1 == n {
                0
            } else {
                j + 1
            }
        } else {
            if j == 0 {
                n - 1
            } else {
                j - 1
            }
        };
        visited = visited + 1;
    }
    None
}

} // verus!
