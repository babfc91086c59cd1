//! Controlled/uncontrolled value reconciliation.
//!
//! A stateful widget prop (the selected tab, the checked radio, whether a
//! panel is open) can be driven in two ways: the owner may supply the value
//! from outside on every read ("controlled"), or the widget may own it
//! internally, seeded once from a default ("uncontrolled"). A
//! [`ControllableValue`] holds both slots and reconciles them: the external
//! value wins whenever it is present at read time, and every write lands in
//! the internal slot so that it becomes visible the moment the owner stops
//! supplying an external value.
//!
//! Writes must also notify the owner: the owner's change callback is owed
//! exactly one invocation per write, with the written value, in both control
//! modes. The machine records that obligation in a ghost sequence of
//! notifications; the owner performs the actual callback invocation.

use vstd::prelude::*;

verus! {

/// The mathematical state of a [`ControllableValue`]: the two value slots and
/// the sequence of change notifications owed to the owner so far.
pub struct ControllableModel<T> {
    /// The externally supplied value, if the owner currently controls it.
    pub external: Option<T>,
    /// The internally owned value.
    pub internal: T,
    /// Every value written so far, in write order; each entry is one owed
    /// `onChange` invocation.
    pub notified: Seq<T>,
}

impl<T> ControllableModel<T> {
    /// The value a read yields: the external value whenever one is present,
    /// otherwise the internal one.
    pub open spec fn effective(self) -> T {
        match self.external {
            Some(v) => v,
            None => self.internal,
        }
    }

    /// Whether the value is currently externally driven.
    pub open spec fn is_controlled(self) -> bool {
        self.external is Some
    }
}

/// The effect of one write on the model: the internal slot takes the new
/// value unconditionally, the external slot is untouched, and one change
/// notification carrying the written value is appended.
pub open spec fn model_write<T>(m: ControllableModel<T>, v: T) -> ControllableModel<T> {
    ControllableModel { external: m.external, internal: v, notified: m.notified.push(v) }
}

/// The model after a whole sequence of writes, applied left to right.
pub open spec fn model_after_writes<T>(m: ControllableModel<T>, ws: Seq<T>) -> ControllableModel<T>
    decreases ws.len(),
{
    if ws.len() == 0 {
        m
    } else {
        model_write(model_after_writes(m, ws.drop_last()), ws.last())
    }
}

/// A controlled/uncontrolled value reconciler for one stateful widget prop.
pub struct ControllableValue<T> {
    external: Option<T>,
    internal: T,
    notified: Ghost<Seq<T>>,
}

impl<T> View for ControllableValue<T> {
    type V = ControllableModel<T>;

    closed spec fn view(&self) -> ControllableModel<T> {
        ControllableModel {
            external: self.external,
            internal: self.internal,
            notified: self.notified@,
        }
    }
}

impl<T> ControllableValue<T> {
    /// Creates the reconciler for one widget prop.
    ///
    /// The internal slot is seeded from `default_value`, or from `fallback`
    /// (the caller's type-specific zero value) when no default is given. No
    /// notification is owed yet.
    pub fn new(external: Option<T>, default_value: Option<T>, fallback: T) -> (r: Self)
        ensures
            r@.external == external,
            r@.internal == (match default_value {
                Some(d) => d,
                None => fallback,
            }),
            r@.notified == Seq::<T>::empty(),
    {
        let internal = match default_value {
            Some(d) => d,
            None => fallback,
        };
        ControllableValue { external, internal, notified: Ghost(Seq::empty()) }
    }

    /// Replaces the external slot. The owner calls this whenever its
    /// controlled input changes, including to `None` when it stops
    /// controlling the value; the internal slot and the notification record
    /// are untouched.
    pub fn set_external(&mut self, external: Option<T>)
        ensures
            final(self)@.external == external,
            final(self)@.internal == old(self)@.internal,
            final(self)@.notified == old(self)@.notified,
    {
        self.external = external;
    }

    /// Reads the effective value: the external value if one is present at
    /// call time, otherwise the internal value.
    pub fn read(&self) -> (r: &T)
        ensures
            *r == self@.effective(),
    {
        match &self.external {
            Some(v) => v,
            None => &self.internal,
        }
    }

    /// Writes a new value: the internal slot takes it unconditionally (so it
    /// becomes visible if the owner later drops the external value), and one
    /// change notification carrying it is owed to the owner, whatever the
    /// control mode. The caller must invoke its change callback with this
    /// value, once.
    pub fn write(&mut self, new_value: T)
        ensures
            final(self)@ == model_write(old(self)@, new_value),
    {
        self.notified = Ghost(self.notified@.push(new_value));
        self.internal = new_value;
    }

    /// Whether the value is currently externally driven.
    pub fn is_controlled(&self) -> (r: bool)
        ensures
            r == self@.is_controlled(),
    {
        self.external.is_some()
    }
}

/// Law: writes never touch the external slot, so whenever an external value
/// is present at read time, a read yields it regardless of any sequence of
/// prior writes; and every write appends exactly one notification carrying
/// the written value, in write order, in both control modes.
pub proof fn lemma_external_wins_over_writes<T>(m: ControllableModel<T>, ws: Seq<T>)
    ensures
        model_after_writes(m, ws).external == m.external,
        m.external is Some ==> model_after_writes(m, ws).effective() == m.effective(),
        model_after_writes(m, ws).notified == m.notified + ws,
    decreases ws.len(),
{
    if ws.len() == 0 {
        assert(m.notified + ws =~= m.notified);
    } else {
        lemma_external_wins_over_writes(m, ws.drop_last());
        assert(m.notified + ws =~= (m.notified + ws.drop_last()).push(ws.last()));
    }
}

/// Law: while no external value is present, a read after `write(x)` yields
/// `x`, whatever was written before.
pub proof fn lemma_uncontrolled_write_then_read<T>(m: ControllableModel<T>, ws: Seq<T>, x: T)
    requires
        m.external is None,
    ensures
        model_write(model_after_writes(m, ws), x).effective() == x,
{
    lemma_external_wins_over_writes(m, ws);
}

} // verus!
