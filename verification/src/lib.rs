//! Headless, accessible interaction primitives.
//!
//! This library holds the reusable engines that stateful UI widgets (tabs,
//! radio groups, toggle groups, collapsible panels) compose:
//!
//! - [`controllable`]: reconciliation of an externally driven ("controlled")
//!   value with internally owned ("uncontrolled") state.
//! - [`collection`] and [`roving`]: an ordered registry of focusable items and
//!   the single-tab-stop keyboard navigation computed over it.
//! - [`presence`]: the deferred-unmount lifecycle that keeps content rendered
//!   until its exit animation completes.
//! - [`selection`]: the pressed-value list updates of single- and
//!   multiple-selection toggle groups.
//!
//! The engines are pure state machines: every DOM effect (moving focus,
//! mutating styles, scheduling an animation-frame or animation-end callback)
//! is returned to the owner as a value to act on, never performed here.

pub mod collection;
pub mod controllable;
pub mod presence;
pub mod roving;
pub mod selection;
