//! Deferred-unmount presence lifecycle.
//!
//! Conditionally rendered content must stay in the render tree while its exit
//! animation plays: [`PresenceMachine`] tracks whether the content is
//! `Mounted`, waiting out an exit animation (`UnmountSuspended`), or
//! `Unmounted`. It also suppresses the entrance animation on the machine's
//! first mount and keeps the bookkeeping for size measurement (the style
//! snapshot to restore and the last measured size).
//!
//! The machine never blocks and never touches the DOM. Waiting is modelled as
//! actions handed back to the owner: "schedule an animation-end wait under
//! this token", "cancel that wait", "schedule one animation-frame callback".
//! Every scheduled callback reports back with its token, and a stale token —
//! one whose wait was cancelled or superseded — is a guaranteed no-op.

use vstd::prelude::*;

verus! {

/// Where the conditionally rendered content stands in its lifecycle.
#[derive(Clone, Copy, PartialEq, Eq, Structural, Debug)]
pub enum PresenceState {
    /// The content is present and rendered.
    Mounted,
    /// Presence was withdrawn but the exit animation still plays: the content
    /// stays rendered until the animation-end event arrives.
    UnmountSuspended,
    /// The content is out of the render tree.
    Unmounted,
}

/// A measured bounding box, in layout units.
#[derive(Clone, Copy, PartialEq, Eq, Structural, Debug)]
pub struct Size {
    pub width: u64,
    pub height: u64,
}

/// The two style properties the engine reads as its animation signal: the
/// element's `transition-duration` and `animation-name` values.
#[derive(Clone, PartialEq, Eq, Debug)]
pub struct AnimationStyle {
    /// The computed `transition-duration` value, e.g. `"0s"`.
    pub transition_duration: String,
    /// The computed `animation-name` value, e.g. `"none"`.
    pub animation_name: String,
}

/// Whether the style reports a real exit animation: none plays when the
/// animation name is `none` or the transition duration is `0s`.
pub open spec fn spec_has_exit_animation(style: AnimationStyle) -> bool {
    style.animation_name@ != "none"@ && style.transition_duration@ != "0s"@
}

/// Whether the style reports a real exit animation at the moment presence is
/// withdrawn; without one the machine unmounts synchronously.
pub fn has_exit_animation(style: &AnimationStyle) -> (r: bool)
    ensures
        r == spec_has_exit_animation(*style),
{
    let none_name: String = "none".to_owned();
    let zero_duration: String = "0s".to_owned();
    let name_is_none = style.animation_name == none_name;
    let duration_is_zero = style.transition_duration == zero_duration;
    !(name_is_none || duration_is_zero)
}

/// What the owner must do after a transition. Scheduling hands out a fresh
/// token; the owner passes it back when the callback fires, and cancels the
/// callback when asked to (and on teardown).
#[derive(Clone, Copy, PartialEq, Eq, Structural, Debug)]
pub enum PresenceAction {
    /// Nothing to schedule or cancel.
    NoEffect,
    /// Subscribe to the element's animation-end/animation-cancel event and
    /// report it back with this token.
    ScheduleAnimationEndWait { token: u64 },
    /// Dispose the animation-end subscription made under this token: its
    /// wait is over without effect.
    CancelAnimationEndWait { token: u64 },
    /// Schedule one animation-frame callback and report it back with this
    /// token; it will clear the first-mount animation suppression.
    ScheduleFrameCallback { token: u64 },
}

/// The presence state machine for one piece of conditionally rendered
/// content.
pub struct PresenceMachine {
    /// The lifecycle state.
    pub state: PresenceState,
    /// The token of the pending animation-end wait, exactly while the state
    /// is `UnmountSuspended`.
    pub pending_wait: Option<u64>,
    /// The token of the pending animation-frame callback, exactly while the
    /// first-mount animation is suppressed.
    pub pending_frame: Option<u64>,
    /// Whether rendering must force the animation duration to zero so that
    /// content already visible on first paint plays no entrance animation.
    pub suppress_first_mount_animation: bool,
    /// Whether the machine has ever been `Mounted`.
    pub has_mounted: bool,
    /// The next callback token to hand out; tokens are never reused.
    pub next_token: u64,
    /// The `transition-duration` / `animation-name` pair snapshotted before
    /// the first measurement, to restore after measuring.
    pub saved_style: Option<AnimationStyle>,
    /// The most recent measurement, absent while none succeeded.
    pub last_size: Option<Size>,
}

impl PresenceMachine {
    /// The machine's invariant: a wait is pending exactly while an unmount is
    /// suspended, a frame callback is pending exactly while the first-mount
    /// animation is suppressed, pending tokens were handed out before the
    /// next one, and only a machine that has mounted can be in a mounted or
    /// suspended state.
    pub open spec fn wf(self) -> bool {
        &&& (self.pending_wait is Some <==> self.state is UnmountSuspended)
        &&& (self.pending_frame is Some <==> self.suppress_first_mount_animation)
        &&& (self.pending_wait matches Some(t) ==> t < self.next_token)
        &&& (self.pending_frame matches Some(t) ==> t < self.next_token)
        &&& (self.state is Mounted || self.state is UnmountSuspended ==> self.has_mounted)
        &&& (self.suppress_first_mount_animation ==> self.has_mounted)
    }

    /// Whether the owner must render the subtree at all: it must while the
    /// content is mounted, and still while an unmount is suspended on its
    /// exit animation.
    pub open spec fn spec_is_present(self) -> bool {
        self.state is Mounted || self.state is UnmountSuspended
    }
}

/// The machine for content whose initial presence input is
/// `initially_present`, and the action that construction already owes: a
/// machine that starts mounted makes its first transition into `Mounted`
/// right here, so its entrance animation is suppressed until the scheduled
/// frame callback clears the suppression.
pub open spec fn spec_new(initially_present: bool) -> (PresenceMachine, PresenceAction) {
    if initially_present {
        (
            PresenceMachine {
                state: PresenceState::Mounted,
                pending_wait: None,
                pending_frame: Some(0),
                suppress_first_mount_animation: true,
                has_mounted: true,
                next_token: 1,
                saved_style: None,
                last_size: None,
            },
            PresenceAction::ScheduleFrameCallback { token: 0 },
        )
    } else {
        (
            PresenceMachine {
                state: PresenceState::Unmounted,
                pending_wait: None,
                pending_frame: None,
                suppress_first_mount_animation: false,
                has_mounted: false,
                next_token: 0,
                saved_style: None,
                last_size: None,
            },
            PresenceAction::NoEffect,
        )
    }
}

/// The transition a presence input change makes, and the action it owes.
///
/// - `Mounted`, presence withdrawn: with a real exit animation the machine
///   suspends the unmount and schedules an animation-end wait under a fresh
///   token; without one it unmounts synchronously.
/// - `UnmountSuspended`, presence restored: back to `Mounted`, cancelling the
///   pending wait so the content never reaches `Unmounted`.
/// - `Unmounted`, presence restored: `Mounted`; on the machine's first
///   transition into `Mounted` this also suppresses the entrance animation
///   and schedules the frame callback that clears the suppression.
/// - Everything else (`Mounted` and present, `Unmounted` and absent,
///   `UnmountSuspended` and withdrawn again) changes nothing.
pub open spec fn spec_set_present(m: PresenceMachine, present: bool, has_animation: bool) -> (
    PresenceMachine,
    PresenceAction,
) {
    if present {
        match m.state {
            PresenceState::Mounted => (m, PresenceAction::NoEffect),
            PresenceState::UnmountSuspended => (
                PresenceMachine { state: PresenceState::Mounted, pending_wait: None, ..m },
                PresenceAction::CancelAnimationEndWait { token: m.pending_wait.unwrap() },
            ),
            PresenceState::Unmounted => if m.has_mounted {
                (PresenceMachine { state: PresenceState::Mounted, ..m }, PresenceAction::NoEffect)
            } else {
                (
                    PresenceMachine {
                        state: PresenceState::Mounted,
                        pending_frame: Some(m.next_token),
                        suppress_first_mount_animation: true,
                        has_mounted: true,
                        next_token: (m.next_token + 1) as u64,
                        ..m
                    },
                    PresenceAction::ScheduleFrameCallback { token: m.next_token },
                )
            },
        }
    } else {
        match m.state {
            PresenceState::Mounted => if has_animation {
                (
                    PresenceMachine {
                        state: PresenceState::UnmountSuspended,
                        pending_wait: Some(m.next_token),
                        next_token: (m.next_token + 1) as u64,
                        ..m
                    },
                    PresenceAction::ScheduleAnimationEndWait { token: m.next_token },
                )
            } else {
                (
                    PresenceMachine { state: PresenceState::Unmounted, ..m },
                    PresenceAction::NoEffect,
                )
            },
            PresenceState::UnmountSuspended => (m, PresenceAction::NoEffect),
            PresenceState::Unmounted => (m, PresenceAction::NoEffect),
        }
    }
}

/// The transition an animation-end (or animation-cancel) event makes: it
/// completes the suspended unmount when it carries the pending wait's token,
/// and is a no-op for every stale token.
pub open spec fn spec_animation_end(m: PresenceMachine, token: u64) -> PresenceMachine {
    if m.state is UnmountSuspended && m.pending_wait == Some(token) {
        PresenceMachine { state: PresenceState::Unmounted, pending_wait: None, ..m }
    } else {
        m
    }
}

/// The transition the animation-frame callback makes: it clears the
/// first-mount animation suppression when it carries the pending frame
/// token, and is a no-op for every stale token.
pub open spec fn spec_frame_tick(m: PresenceMachine, token: u64) -> PresenceMachine {
    if m.pending_frame == Some(token) {
        PresenceMachine { suppress_first_mount_animation: false, pending_frame: None, ..m }
    } else {
        m
    }
}

impl PresenceMachine {
    /// Creates the machine: mounted if the initial presence input is true,
    /// else unmounted. The returned action is what construction owes (the
    /// first-mount frame callback, for content visible on first paint).
    pub fn new(initially_present: bool) -> (r: (PresenceMachine, PresenceAction))
        ensures
            r == spec_new(initially_present),
            r.0.wf(),
    {
        if initially_present {
            (
                PresenceMachine {
                    state: PresenceState::Mounted,
                    pending_wait: None,
                    pending_frame: Some(0),
                    suppress_first_mount_animation: true,
                    has_mounted: true,
                    next_token: 1,
                    saved_style: None,
                    last_size: None,
                },
                PresenceAction::ScheduleFrameCallback { token: 0 },
            )
        } else {
            (
                PresenceMachine {
                    state: PresenceState::Unmounted,
                    pending_wait: None,
                    pending_frame: None,
                    suppress_first_mount_animation: false,
                    has_mounted: false,
                    next_token: 0,
                    saved_style: None,
                    last_size: None,
                },
                PresenceAction::NoEffect,
            )
        }
    }

    /// Applies a change of the presence input. `style` is the element's
    /// computed animation style read at this very moment; it decides whether
    /// a withdrawal waits for an exit animation or unmounts synchronously.
    /// Returns the action the owner must perform.
    pub fn set_present(&mut self, present: bool, style: &AnimationStyle) -> (act: PresenceAction)
        requires
            old(self).wf(),
            old(self).next_token < u64::MAX,
        ensures
            *final(self) == spec_set_present(
                *old(self),
                present,
                spec_has_exit_animation(*style),
            ).0,
            act == spec_set_present(*old(self), present, spec_has_exit_animation(*style)).1,
            final(self).wf(),
    {
        if present {
            match self.state {
                PresenceState::Mounted => PresenceAction::NoEffect,
                PresenceState::UnmountSuspended => {
                    let token = match self.pending_wait {
                        Some(t) => t,
                        None => 0,
                    };
                    self.state = PresenceState::Mounted;
                    self.pending_wait = None;
                    PresenceAction::CancelAnimationEndWait { token }
                },
                PresenceState::Unmounted => {
                    self.state = PresenceState::Mounted;
                    if !self.has_mounted {
                        let token = self.next_token;
                        self.pending_frame = Some(token);
                        self.suppress_first_mount_animation = true;
                        self.has_mounted = true;
                        self.next_token = token + 1;
                        PresenceAction::ScheduleFrameCallback { token }
                    } else {
                        PresenceAction::NoEffect
                    }
                },
            }
        } else {
            match self.state {
                PresenceState::Mounted => {
                    if has_exit_animation(style) {
                        let token = self.next_token;
                        self.state = PresenceState::UnmountSuspended;
                        self.pending_wait = Some(token);
                        self.next_token = token + 1;
                        PresenceAction::ScheduleAnimationEndWait { token }
                    } else {
                        self.state = PresenceState::Unmounted;
                        PresenceAction::NoEffect
                    }
                },
                PresenceState::UnmountSuspended => PresenceAction::NoEffect,
                PresenceState::Unmounted => PresenceAction::NoEffect,
            }
        }
    }

    /// Delivers an animation-end (or animation-cancel) event from the wait
    /// scheduled under `token`. Completes the suspended unmount if that wait
    /// is still the pending one; a stale token is a guaranteed no-op.
    pub fn animation_end(&mut self, token: u64)
        ensures
            *final(self) == spec_animation_end(*old(self), token),
            old(self).wf() ==> final(self).wf(),
    {
        let matches_pending = match self.pending_wait {
            Some(t) => t == token,
            None => false,
        };
        if matches!(self.state, PresenceState::UnmountSuspended) && matches_pending {
            self.state = PresenceState::Unmounted;
            self.pending_wait = None;
        }
    }

    /// Delivers the animation-frame callback scheduled under `token`. Clears
    /// the first-mount animation suppression if that callback is still the
    /// pending one; a stale token is a guaranteed no-op.
    pub fn frame_tick(&mut self, token: u64)
        ensures
            *final(self) == spec_frame_tick(*old(self), token),
            old(self).wf() ==> final(self).wf(),
    {
        let matches_pending = match self.pending_frame {
            Some(t) => t == token,
            None => false,
        };
        if matches_pending {
            self.suppress_first_mount_animation = false;
            self.pending_frame = None;
        }
    }

    /// Whether the owner must render the subtree at all.
    pub fn is_present(&self) -> (r: bool)
        ensures
            r == self.spec_is_present(),
    {
        !matches!(self.state, PresenceState::Unmounted)
    }

    /// Whether measurement must restore the snapshotted style values after
    /// measuring: it must not while the first-mount animation is suppressed.
    pub fn should_restore_style(&self) -> (r: bool)
        ensures
            r == !self.suppress_first_mount_animation,
    {
        !self.suppress_first_mount_animation
    }

    /// Saves the style values snapshotted before the first measurement; once
    /// one snapshot is saved, later ones are ignored so the original values
    /// survive repeated measurements.
    pub fn save_style_snapshot(&mut self, style: AnimationStyle)
        ensures
            *final(self) == (PresenceMachine {
                saved_style: if old(self).saved_style is Some {
                    old(self).saved_style
                } else {
                    Some(style)
                },
                ..*old(self)
            }),
    {
        if self.saved_style.is_none() {
            self.saved_style = Some(style);
        }
    }

    /// The saved style snapshot, for the owner to restore after measuring.
    pub fn saved_style_snapshot(&self) -> (r: &Option<AnimationStyle>)
        ensures
            *r == self.saved_style,
    {
        &self.saved_style
    }

    /// Records the outcome of a measurement: the measured bounding box, or
    /// absent when the element was not attached (a silent no-measurement,
    /// never an error).
    pub fn record_measurement(&mut self, size: Option<Size>)
        ensures
            *final(self) == (PresenceMachine { last_size: size, ..*old(self) }),
    {
        self.last_size = size;
    }

    /// The most recent measured size, exposed to the owner as the two named
    /// values it surfaces as style variables.
    pub fn measured_size(&self) -> (r: Option<Size>)
        ensures
            r == self.last_size,
    {
        self.last_size
    }
}

/// Law: withdrawing presence while a real exit animation plays suspends the
/// unmount — the content stays rendered — and exactly the animation-end
/// event of the scheduled wait completes it.
pub proof fn lemma_exit_animation_defers_unmount(m: PresenceMachine, token: u64)
    requires
        m.wf(),
        m.next_token < u64::MAX,
    ensures
        ({
            let m1 = spec_set_present(m, true, true).0;
            let (m2, act) = spec_set_present(m1, false, true);
            &&& m2.state is UnmountSuspended
            &&& m2.spec_is_present()
            &&& act matches PresenceAction::ScheduleAnimationEndWait { token: t }
            &&& spec_animation_end(m2, t).state is Unmounted
            &&& !spec_animation_end(m2, t).spec_is_present()
        }),
{
}

/// Law: withdrawing presence with no animation (name `none` or duration
/// `0s`) unmounts synchronously, with no wait scheduled and no event needed.
pub proof fn lemma_no_animation_unmounts_synchronously(m: PresenceMachine)
    requires
        m.wf(),
        m.next_token < u64::MAX,
    ensures
        ({
            let m1 = spec_set_present(m, true, false).0;
            let (m2, act) = spec_set_present(m1, false, false);
            &&& m2.state is Unmounted
            &&& !m2.spec_is_present()
            &&& act == PresenceAction::NoEffect
        }),
{
}

/// Law: restoring presence before the animation-end event arrives re-enters
/// `Mounted` without ever unmounting, and the animation-end event of the
/// cancelled wait, arriving late, has no effect.
pub proof fn lemma_represent_cancels_unmount(m: PresenceMachine)
    requires
        m.wf(),
        m.next_token < u64::MAX,
    ensures
        ({
            let m1 = spec_set_present(m, true, true).0;
            let (m2, act) = spec_set_present(m1, false, true);
            let m3 = spec_set_present(m2, true, true).0;
            &&& m3.state is Mounted
            &&& act matches PresenceAction::ScheduleAnimationEndWait { token: t }
            &&& spec_animation_end(m3, t) == m3
        }),
{
}

/// Law: an animation-end event whose token is not the pending wait's changes
/// nothing — a fired-but-stale callback is a guaranteed no-op.
pub proof fn lemma_stale_animation_end_is_noop(m: PresenceMachine, token: u64)
    requires
        m.pending_wait != Some(token),
    ensures
        spec_animation_end(m, token) == m,
{
}

/// Law: a frame callback whose token is not the pending frame's changes
/// nothing.
pub proof fn lemma_stale_frame_tick_is_noop(m: PresenceMachine, token: u64)
    requires
        m.pending_frame != Some(token),
    ensures
        spec_frame_tick(m, token) == m,
{
}

} // verus!
